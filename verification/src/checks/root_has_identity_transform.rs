//! Checks that a single-root scene has an identity root transform.
//!
//! Scenes with several roots are imported under a synthetic empty parent, so
//! their transforms are acceptable and the check stays silent.  For the one
//! root of a single-root scene, local rotation and pre-rotation must equal the
//! zero vector and local scale must equal `(1, 1, 1)`, each within a fixed
//! epsilon of `1e-12` so that exporter noise does not flag.  Translation is
//! deliberately not checked.
//!
//! The comparisons run on binary64 bit patterns.  For the rotations the test
//! `|r| <= 1e-12` is a plain magnitude comparison.  For the scale, the float
//! computation `|s - 1| <= 1e-12` subtracts exactly whenever it can come out
//! small (by Sterbenz's lemma the subtraction is exact for `s` in `[1/2, 2]`,
//! and far outside that range the rounded difference stays far above the
//! epsilon), so it is equivalent to `s` lying between the smallest binary64
//! value at least `1 - 1e-12` and the largest at most `1 + 1e-12`; those two
//! patterns are the interval constants below.

use vstd::prelude::*;

use crate::binary64::{
    abs_bits, is_nan_bits, key, le_bits, spec_abs_bits, spec_is_nan,
};
use crate::scene::{Model, SceneDoc, SceneObject, Vec3Val};
use crate::utils::{get_model_roots, spec_model_roots};

verus! {

/// Bit pattern of the binary64 value `1e-12`, the transform epsilon.
pub const EPSILON_BITS: u64 = 0x3d71_9799_812d_ea11;

/// Bit pattern of the smallest binary64 value at least `1 - 1e-12`.
pub const SCALE_ONE_LO_BITS: u64 = 0x3fef_ffff_ffff_dcd1;

/// Bit pattern of the largest binary64 value at most `1 + 1e-12`.
pub const SCALE_ONE_HI_BITS: u64 = 0x3ff0_0000_0000_1197;

/// The encoded value lies within the epsilon of zero.
pub open spec fn spec_near_zero(b: u64) -> bool {
    !spec_is_nan(b) && key(spec_abs_bits(b)) <= key(EPSILON_BITS)
}

/// Every component of the vector lies within the epsilon of zero.
pub open spec fn spec_vec_near_zero(v: Vec3Val) -> bool {
    spec_near_zero(v.x) && spec_near_zero(v.y) && spec_near_zero(v.z)
}

/// The encoded value lies within the epsilon of one.
pub open spec fn spec_near_one(b: u64) -> bool {
    !spec_is_nan(b) && key(SCALE_ONE_LO_BITS) <= key(b) <= key(SCALE_ONE_HI_BITS)
}

/// Every component of the vector lies within the epsilon of one.
pub open spec fn spec_vec_near_one(v: Vec3Val) -> bool {
    spec_near_one(v.x) && spec_near_one(v.y) && spec_near_one(v.z)
}

/// Every component of the vector lies within the epsilon of zero.
pub fn vec_near_zero(v: &Vec3Val) -> (r: bool)
    ensures
        r == spec_vec_near_zero(*v),
{
    near_zero(v.x) && near_zero(v.y) && near_zero(v.z)
}

fn near_zero(b: u64) -> (r: bool)
    ensures
        r == spec_near_zero(b),
{
    !is_nan_bits(b) && le_bits(abs_bits(b), EPSILON_BITS)
}

/// Every component of the vector lies within the epsilon of one.
pub fn vec_near_one(v: &Vec3Val) -> (r: bool)
    ensures
        r == spec_vec_near_one(*v),
{
    near_one(v.x) && near_one(v.y) && near_one(v.z)
}

fn near_one(b: u64) -> (r: bool)
    ensures
        r == spec_near_one(b),
{
    !is_nan_bits(b) && le_bits(SCALE_ONE_LO_BITS, b) && le_bits(b, SCALE_ONE_HI_BITS)
}

/// The display name of the root model.
pub open spec fn spec_root_name(m: Model) -> Seq<char> {
    match m.name {
        Option::Some(n) => n@,
        Option::None => "(object has no name)"@,
    }
}

/// The first model object with the given id, scanning in document order.
pub open spec fn spec_find_model(objects: Seq<SceneObject>, id: u64) -> Option<Model>
    decreases objects.len(),
{
    if objects.len() == 0 {
        Option::None
    } else {
        match objects[0] {
            SceneObject::Model(m) => if m.id == id {
                Option::Some(m)
            } else {
                spec_find_model(objects.skip(1), id)
            },
            _ => spec_find_model(objects.skip(1), id),
        }
    }
}

/// The diagnostic for a non-zero rotation or pre-rotation.
pub open spec fn spec_rotation_message(m: Model, label: Seq<char>, v: Vec3Val) -> Seq<char> {
    "The root object ["@ + spec_root_name(m) + "] does not have a zero rotation. It has "@
        + label + ": ["@ + v.text@ + "]"@
}

/// The diagnostic for a scale away from one.
pub open spec fn spec_scale_message(m: Model, v: Vec3Val) -> Seq<char> {
    "The root object ["@ + spec_root_name(m) + "] does not have a scale of 1. It has scale: ["@
        + v.text@ + "]"@
}

/// The diagnostics the root model contributes.  A missing transform property
/// means the identity value and passes.
pub open spec fn spec_root_msgs(m: Model) -> Seq<Seq<char>> {
    let rot = match m.lcl_rotation {
        Option::Some(v) => if !spec_vec_near_zero(v) {
            seq![spec_rotation_message(m, "rotation"@, v)]
        } else {
            Seq::empty()
        },
        Option::None => Seq::empty(),
    };
    let pre = match m.pre_rotation {
        Option::Some(v) => if !spec_vec_near_zero(v) {
            seq![spec_rotation_message(m, "pre-rotation"@, v)]
        } else {
            Seq::empty()
        },
        Option::None => Seq::empty(),
    };
    let scl = match m.lcl_scaling {
        Option::Some(v) => if !spec_vec_near_one(v) {
            seq![spec_scale_message(m, v)]
        } else {
            Seq::empty()
        },
        Option::None => Seq::empty(),
    };
    rot + pre + scl
}

/// All root-transform diagnostics: empty unless the scene has exactly one root
/// and that root model is found, else the root's own messages.
pub open spec fn spec_diagnostics(doc: SceneDoc) -> Seq<Seq<char>> {
    let roots = spec_model_roots(doc.objects@);
    if roots.len() != 1 {
        Seq::empty()
    } else {
        match spec_find_model(doc.objects@, roots[0]) {
            Option::Some(root) => spec_root_msgs(root),
            Option::None => Seq::empty(),
        }
    }
}

/// A scene with any number of roots other than one never yields a
/// root-transform diagnostic, whatever the transforms of its models.
pub proof fn lemma_multi_root_silent(doc: SceneDoc)
    requires
        spec_model_roots(doc.objects@).len() != 1,
    ensures
        spec_diagnostics(doc) == Seq::<Seq<char>>::empty(),
{
}

/// Verifies that the root of a single-root scene has zero rotation, zero
/// pre-rotation, and unit scale, each within the fixed epsilon.
pub fn verify(doc: &SceneDoc) -> (r: Vec<String>)
    ensures
        r.deep_view() == spec_diagnostics(*doc),
{
    let roots = get_model_roots(doc);
    let mut r: Vec<String> = Vec::new();
    if roots.len() != 1 {
        proof {
            assert(r.deep_view() =~= spec_diagnostics(*doc));
        }
        return r;
    }
    let root_id = roots[0];
    let root = match find_model(doc, root_id) {
        Option::Some(m) => m,
        Option::None => {
            proof {
                assert(r.deep_view() =~= spec_diagnostics(*doc));
            }
            return r;
        },
    };
    if let Option::Some(v) = &root.lcl_rotation {
        if !vec_near_zero(v) {
            r.push(rotation_message(root, "rotation", v));
        }
    }
    if let Option::Some(v) = &root.pre_rotation {
        if !vec_near_zero(v) {
            r.push(rotation_message(root, "pre-rotation", v));
        }
    }
    if let Option::Some(v) = &root.lcl_scaling {
        if !vec_near_one(v) {
            let mut msg = String::from_str("The root object [");
            match &root.name {
                Option::Some(n) => msg.append(n.as_str()),
                Option::None => msg.append("(object has no name)"),
            }
            msg.append("] does not have a scale of 1. It has scale: [");
            msg.append(v.text.as_str());
            msg.append("]");
            proof {
                assert(msg@ =~= spec_scale_message(*root, *v));
            }
            r.push(msg);
        }
    }
    proof {
        assert(r.deep_view() =~= spec_diagnostics(*doc));
    }
    r
}

/// Builds the diagnostic for a non-zero rotation or pre-rotation.
fn rotation_message(m: &Model, label: &str, v: &Vec3Val) -> (r: String)
    ensures
        r@ == spec_rotation_message(*m, label@, *v),
{
    let mut msg = String::from_str("The root object [");
    match &m.name {
        Option::Some(n) => msg.append(n.as_str()),
        Option::None => msg.append("(object has no name)"),
    }
    msg.append("] does not have a zero rotation. It has ");
    msg.append(label);
    msg.append(": [");
    msg.append(v.text.as_str());
    msg.append("]");
    proof {
        assert(msg@ =~= spec_rotation_message(*m, label@, *v));
    }
    msg
}

/// Finds the first model with the given id, scanning in document order.
fn find_model(doc: &SceneDoc, id: u64) -> (r: Option<&Model>)
    ensures
        match r {
            Option::Some(m) => spec_find_model(doc.objects@, id) == Option::Some(*m),
            Option::None => spec_find_model(doc.objects@, id) is None,
        },
{
    proof {
        assert(doc.objects@.skip(0) =~= doc.objects@);
    }
    let mut i: usize = 0;
    while i < doc.objects.len()
        invariant
            i <= doc.objects@.len(),
            spec_find_model(doc.objects@, id) == spec_find_model(
                doc.objects@.skip(i as int),
                id,
            ),
        decreases doc.objects@.len() - i,
    {
        proof {
            assert(doc.objects@.skip(i as int)[0] == doc.objects@[i as int]);
            assert(doc.objects@.skip(i as int).skip(1) =~= doc.objects@.skip(i as int + 1));
        }
        if let SceneObject::Model(m) = &doc.objects[i] {
            if m.id == id {
                return Some(m);
            }
        }
        i += 1;
    }
    None
}

} // verus!
