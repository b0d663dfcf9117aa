//! Flags models with scale compensation enabled.
//!
//! One authoring tool encodes "parent scale does not propagate, compensated by
//! a counter-animation" as inherit type `2` on a model.  Only that tool's own
//! importer understands the encoding; everywhere else the hierarchy scales
//! wrongly, so the value is disallowed on every model.  A missing property is
//! the acceptable default and passes.

use vstd::prelude::*;

use crate::scene::{Model, PropValue, SceneDoc, SceneObject};

verus! {

/// The display name of a model: its own name, else a fixed placeholder.
pub open spec fn spec_model_name(m: Model) -> Seq<char> {
    match m.name {
        Option::Some(n) => n@,
        Option::None => "(no name)"@,
    }
}

/// The model's `InheritType` property is present with the disallowed
/// scale-compensating value `2`.
pub open spec fn spec_flagged(m: Model) -> bool {
    match m.direct_properties {
        Option::Some(props) => match props.spec_get("InheritType"@) {
            Option::Some(vals) => vals.len() > 0 && vals[0] matches PropValue::I32(2i32),
            Option::None => false,
        },
        Option::None => false,
    }
}

/// The diagnostic for one offending model.
pub open spec fn spec_message(m: Model) -> Seq<char> {
    "The bone ["@ + spec_model_name(m)
        + "] has scale compensation enabled. Disable it in Maya before importing into Unity. (InheritType==eInheritRrs)"@
}

/// The diagnostics one object contributes.
pub open spec fn spec_object_msgs(o: SceneObject) -> Seq<Seq<char>> {
    match o {
        SceneObject::Model(m) => if spec_flagged(m) {
            seq![spec_message(m)]
        } else {
            Seq::empty()
        },
        _ => Seq::empty(),
    }
}

/// All scale-compensation diagnostics, in document order.
pub open spec fn spec_diagnostics(objects: Seq<SceneObject>) -> Seq<Seq<char>>
    decreases objects.len(),
{
    if objects.len() == 0 {
        Seq::empty()
    } else {
        spec_diagnostics(objects.drop_last()) + spec_object_msgs(objects.last())
    }
}

/// Reports every model whose `InheritType` property carries the
/// scale-compensating value.
pub fn verify(doc: &SceneDoc) -> (r: Vec<String>)
    ensures
        r.deep_view() == spec_diagnostics(doc.objects@),
{
    let mut r: Vec<String> = Vec::new();
    let mut i: usize = 0;
    proof {
        assert(doc.objects@.take(0) =~= Seq::<SceneObject>::empty());
        assert(r.deep_view() =~= spec_diagnostics(doc.objects@.take(0)));
    }
    while i < doc.objects.len()
        invariant
            i <= doc.objects@.len(),
            r.deep_view() == spec_diagnostics(doc.objects@.take(i as int)),
        decreases doc.objects@.len() - i,
    {
        if let SceneObject::Model(m) = &doc.objects[i] {
            if model_flagged(m) {
                let mut msg = String::from_str("The bone [");
                match &m.name {
                    Option::Some(n) => msg.append(n.as_str()),
                    Option::None => msg.append("(no name)"),
                }
                msg.append(
                    "] has scale compensation enabled. Disable it in Maya before importing into Unity. (InheritType==eInheritRrs)",
                );
                proof {
                    assert(msg@ =~= spec_message(*m));
                }
                r.push(msg);
            }
        }
        i += 1;
        proof {
            assert(doc.objects@.take(i as int).drop_last() =~= doc.objects@.take(i as int - 1));
            assert(r.deep_view() =~= spec_diagnostics(doc.objects@.take(i as int)));
        }
    }
    proof {
        assert(doc.objects@.take(doc.objects@.len() as int) =~= doc.objects@);
    }
    r
}

/// Reads the model's `InheritType` property and tests it for the disallowed
/// value.
fn model_flagged(m: &Model) -> (r: bool)
    ensures
        r == spec_flagged(*m),
{
    match &m.direct_properties {
        Option::Some(props) => match props.get("InheritType") {
            Option::Some(p) => {
                if p.values.len() > 0 {
                    match &p.values[0] {
                        PropValue::I32(v) => *v == 2,
                        _ => false,
                    }
                } else {
                    false
                }
            },
            Option::None => false,
        },
        Option::None => false,
    }
}

} // verus!
