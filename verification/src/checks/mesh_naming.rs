//! Flags models left with an autogenerated default name.
//!
//! Default names (`Cube.<digits>`, `cylinder<digits>`, exactly `Cylinder`)
//! make objects hard to find in the editor; models should carry a
//! human-assigned name.  This check is optional and not part of the default
//! battery.

use vstd::prelude::*;

use crate::scene::{SceneDoc, SceneObject};
use crate::strutil::{
    all_digits_from, spec_is_digit, starts_with_seq, str_eq, str_starts_with,
};

verus! {

/// `name` is `prefix` followed by one or more ASCII digits.
pub open spec fn spec_prefix_digits(name: Seq<char>, prefix: Seq<char>) -> bool {
    &&& name.len() > prefix.len()
    &&& starts_with_seq(name, prefix)
    &&& forall|t: int| prefix.len() <= t < name.len() ==> spec_is_digit(#[trigger] name[t])
}

/// The name matches one of the default autogenerated patterns.
pub open spec fn spec_default_name(name: Seq<char>) -> bool {
    ||| spec_prefix_digits(name, "Cube."@)
    ||| spec_prefix_digits(name, "cylinder"@)
    ||| name == "Cylinder"@
}

/// The name matches one of the default autogenerated patterns.
pub fn is_default_name(name: &str) -> (r: bool)
    ensures
        r == spec_default_name(name@),
{
    proof {
        reveal_strlit("Cube.");
        reveal_strlit("cylinder");
    }
    let n = name.unicode_len();
    if n > 5 && str_starts_with(name, "Cube.") && all_digits_from(name, 5) {
        return true;
    }
    if n > 8 && str_starts_with(name, "cylinder") && all_digits_from(name, 8) {
        return true;
    }
    str_eq(name, "Cylinder")
}

/// The diagnostic for one model with a default name.
pub open spec fn spec_message(name: Seq<char>) -> Seq<char> {
    "The model ["@ + name
        + "] has a default name. Please name it something more specific, so it can be found easily in the Unity Editor."@
}

/// The diagnostics one object contributes: an unnamed model is reported, and
/// so is a model with a default autogenerated name.
pub open spec fn spec_object_msgs(o: SceneObject) -> Seq<Seq<char>> {
    match o {
        SceneObject::Model(m) => match m.name {
            Option::Some(n) => if spec_default_name(n@) {
                seq![spec_message(n@)]
            } else {
                Seq::empty()
            },
            Option::None => seq!["Model has no name"@],
        },
        _ => Seq::empty(),
    }
}

/// All naming diagnostics, in document order.
pub open spec fn spec_diagnostics(objects: Seq<SceneObject>) -> Seq<Seq<char>>
    decreases objects.len(),
{
    if objects.len() == 0 {
        Seq::empty()
    } else {
        spec_diagnostics(objects.drop_last()) + spec_object_msgs(objects.last())
    }
}

/// Reports every model without a name or with a default autogenerated name.
pub fn verify(doc: &SceneDoc) -> (r: Vec<String>)
    ensures
        r.deep_view() == spec_diagnostics(doc.objects@),
{
    let mut r: Vec<String> = Vec::new();
    let mut i: usize = 0;
    proof {
        assert(doc.objects@.take(0) =~= Seq::<SceneObject>::empty());
        assert(r.deep_view() =~= spec_diagnostics(doc.objects@.take(0)));
    }
    while i < doc.objects.len()
        invariant
            i <= doc.objects@.len(),
            r.deep_view() == spec_diagnostics(doc.objects@.take(i as int)),
        decreases doc.objects@.len() - i,
    {
        if let SceneObject::Model(m) = &doc.objects[i] {
            match &m.name {
                Option::Some(name) => {
                    if is_default_name(name.as_str()) {
                        let mut msg = String::from_str("The model [");
                        msg.append(name.as_str());
                        msg.append(
                            "] has a default name. Please name it something more specific, so it can be found easily in the Unity Editor.",
                        );
                        proof {
                            assert(msg@ =~= spec_message(name@));
                        }
                        r.push(msg);
                    }
                },
                Option::None => {
                    r.push(String::from_str("Model has no name"));
                },
            }
        }
        i += 1;
        proof {
            assert(doc.objects@.take(i as int).drop_last() =~= doc.objects@.take(i as int - 1));
            assert(r.deep_view() =~= spec_diagnostics(doc.objects@.take(i as int)));
        }
    }
    proof {
        assert(doc.objects@.take(doc.objects@.len() as int) =~= doc.objects@);
    }
    r
}

} // verus!
