//! Flags models whose name carries a namespace prefix.
//!
//! Some exporters keep namespaces in object names; mixed use leads to naming
//! mismatches downstream, so no exported model may carry one.  A name is
//! namespaced when a `:` separator follows a non-empty prefix; a name that is
//! just `:` or starts with `:` has no non-empty prefix and does not flag.

use vstd::prelude::*;

use crate::scene::{SceneDoc, SceneObject};

verus! {

/// The name has a `:` separator after a non-empty prefix.
pub open spec fn spec_has_namespace(name: Seq<char>) -> bool {
    exists|i: int| 1 <= i < name.len() && name[i] == ':'
}

/// The name has a `:` separator after a non-empty prefix.
pub fn has_namespace(name: &str) -> (r: bool)
    ensures
        r == spec_has_namespace(name@),
{
    let n = name.unicode_len();
    let mut i: usize = 1;
    while i < n
        invariant
            1 <= i,
            n == name@.len(),
            i <= n || n <= 1,
            forall|t: int| 1 <= t < i && t < n ==> name@[t] != ':',
        decreases n - i,
    {
        if name.get_char(i) == ':' {
            return true;
        }
        i += 1;
    }
    false
}

/// The diagnostic for one namespaced model name.
pub open spec fn spec_message(name: Seq<char>) -> Seq<char> {
    "Objects should not be exported with namespaces: ["@ + name + "]"@
}

/// The diagnostics one object contributes.
pub open spec fn spec_object_msgs(o: SceneObject) -> Seq<Seq<char>> {
    match o {
        SceneObject::Model(m) => match m.name {
            Option::Some(n) => if spec_has_namespace(n@) {
                seq![spec_message(n@)]
            } else {
                Seq::empty()
            },
            Option::None => Seq::empty(),
        },
        _ => Seq::empty(),
    }
}

/// All namespace diagnostics, in document order.
pub open spec fn spec_diagnostics(objects: Seq<SceneObject>) -> Seq<Seq<char>>
    decreases objects.len(),
{
    if objects.len() == 0 {
        Seq::empty()
    } else {
        spec_diagnostics(objects.drop_last()) + spec_object_msgs(objects.last())
    }
}

/// Reports every model whose name carries a namespace prefix.
pub fn verify(doc: &SceneDoc) -> (r: Vec<String>)
    ensures
        r.deep_view() == spec_diagnostics(doc.objects@),
{
    let mut r: Vec<String> = Vec::new();
    let mut i: usize = 0;
    proof {
        assert(doc.objects@.take(0) =~= Seq::<SceneObject>::empty());
        assert(r.deep_view() =~= spec_diagnostics(doc.objects@.take(0)));
    }
    while i < doc.objects.len()
        invariant
            i <= doc.objects@.len(),
            r.deep_view() == spec_diagnostics(doc.objects@.take(i as int)),
        decreases doc.objects@.len() - i,
    {
        let ghost old_r = r.deep_view();
        if let SceneObject::Model(m) = &doc.objects[i] {
            if let Option::Some(name) = &m.name {
                if has_namespace(name.as_str()) {
                    let mut msg = String::from_str(
                        "Objects should not be exported with namespaces: [",
                    );
                    msg.append(name.as_str());
                    msg.append("]");
                    proof {
                        assert(msg@ =~= spec_message(name@));
                    }
                    r.push(msg);
                }
            }
        }
        i += 1;
        proof {
            assert(doc.objects@.take(i as int).drop_last() =~= doc.objects@.take(i as int - 1));
            assert(r.deep_view() =~= spec_diagnostics(doc.objects@.take(i as int)));
        }
    }
    proof {
        assert(doc.objects@.take(doc.objects@.len() as int) =~= doc.objects@);
    }
    r
}

} // verus!
