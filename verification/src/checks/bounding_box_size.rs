//! Checks that a mesh's bounding box is neither too small nor too large.
//!
//! The adapter reduces each mesh's control points with
//! [`crate::geometry::mesh_bounds`] and subtracts the reduced bounds to
//! per-axis extents, handed in as one [`MeshExtent`] per mesh in document
//! order.  A mesh is too small only when all three extents fall below the
//! minimum size (a sliver that is long in one axis is fine), and too big when
//! any single extent exceeds the maximum.  The first offending mesh in
//! document order yields the one diagnostic, "too small" taking precedence for
//! that mesh; meshes without control points are exempt.

use vstd::prelude::*;

use crate::binary64::{key, lt_bits, is_nan_bits, spec_is_nan};
use crate::scene::{Mesh, MeshExtent, SceneDoc, SceneObject};
use crate::utils::{geo_name, spec_geo_name};

verus! {

/// Bit pattern of the binary64 minimum mesh size, `0.0001`.
pub const MIN_BOUND_SIZE_BITS: u64 = 0x3f1a_36e2_eb1c_432d;

/// Bit pattern of the binary64 maximum mesh size, `1000`.
pub const MAX_BOUND_SIZE_BITS: u64 = 0x408f_4000_0000_0000;

/// Every extent falls below the minimum size.  A NaN extent (an unbounded
/// mesh's `inf - inf`) compares with nothing and never triggers.
pub open spec fn spec_too_small(x: u64, y: u64, z: u64) -> bool {
    &&& !spec_is_nan(x) && key(x) < key(MIN_BOUND_SIZE_BITS)
    &&& !spec_is_nan(y) && key(y) < key(MIN_BOUND_SIZE_BITS)
    &&& !spec_is_nan(z) && key(z) < key(MIN_BOUND_SIZE_BITS)
}

/// Some extent exceeds the maximum size.
pub open spec fn spec_too_big(x: u64, y: u64, z: u64) -> bool {
    ||| !spec_is_nan(x) && key(x) > key(MAX_BOUND_SIZE_BITS)
    ||| !spec_is_nan(y) && key(y) > key(MAX_BOUND_SIZE_BITS)
    ||| !spec_is_nan(z) && key(z) > key(MAX_BOUND_SIZE_BITS)
}

/// Smallness asks for every axis: however small `x` gets, a mesh whose other
/// extents reach the minimum size is not too small.
pub proof fn lemma_too_small_needs_every_axis(x: u64, y: u64, z: u64)
    requires
        !spec_is_nan(y) ==> key(y) >= key(MIN_BOUND_SIZE_BITS),
    ensures
        !spec_too_small(x, y, z),
{
}

/// Bigness asks for one axis: an `x` extent past the maximum size makes the
/// mesh too big whatever its other extents are.
pub proof fn lemma_too_big_needs_one_axis(x: u64, y: u64, z: u64)
    requires
        !spec_is_nan(x),
        key(x) > key(MAX_BOUND_SIZE_BITS),
    ensures
        spec_too_big(x, y, z),
{
}

/// The "too small" diagnostic for one mesh.
pub open spec fn spec_small_message(name: Seq<char>, extent_text: Seq<char>) -> Seq<char> {
    "The bounds (size) of the mesh ["@ + name
        + "] are too small. Meshes must be larger than [0.0001]. The mesh bounds are of size "@
        + extent_text
}

/// The "too big" diagnostic for one mesh.
pub open spec fn spec_big_message(name: Seq<char>, extent_text: Seq<char>) -> Seq<char> {
    "The bounds (size) of the mesh ["@ + name
        + "] are too big. Meshes must be smaller than [1000]. The mesh bounds are of size "@
        + extent_text
}

/// The diagnostic one mesh yields for its extents, if any.
pub open spec fn spec_mesh_msg(m: Mesh, e: MeshExtent) -> Option<Seq<char>> {
    match e {
        MeshExtent::Empty => Option::None,
        MeshExtent::Extent(v) => if spec_too_small(v.x, v.y, v.z) {
            Option::Some(spec_small_message(spec_geo_name(m), v.text@))
        } else if spec_too_big(v.x, v.y, v.z) {
            Option::Some(spec_big_message(spec_geo_name(m), v.text@))
        } else {
            Option::None
        },
    }
}

/// The diagnostic of the first offending mesh, scanning objects in document
/// order and pairing each mesh with its extents.  A mesh beyond the end of the
/// extents list has nothing to compare and yields nothing.
pub open spec fn spec_scan(objects: Seq<SceneObject>, extents: Seq<MeshExtent>) -> Option<
    Seq<char>,
>
    decreases objects.len(),
{
    if objects.len() == 0 {
        Option::None
    } else {
        match objects[0] {
            SceneObject::Mesh(m) => if extents.len() == 0 {
                Option::None
            } else {
                match spec_mesh_msg(m, extents[0]) {
                    Option::Some(msg) => Option::Some(msg),
                    Option::None => spec_scan(objects.skip(1), extents.skip(1)),
                }
            },
            _ => spec_scan(objects.skip(1), extents),
        }
    }
}

/// Verifies that no mesh's extents are below the minimum size on all axes or
/// above the maximum on any, reporting the first offending mesh only.
pub fn verify(doc: &SceneDoc, extents: &Vec<MeshExtent>) -> (r: Option<String>)
    ensures
        match r {
            Option::Some(msg) => spec_scan(doc.objects@, extents@) == Option::Some(msg@),
            Option::None => spec_scan(doc.objects@, extents@) is None,
        },
{
    let mut i: usize = 0;
    let mut k: usize = 0;
    proof {
        assert(doc.objects@.skip(0) =~= doc.objects@);
        assert(extents@.skip(0) =~= extents@);
    }
    while i < doc.objects.len()
        invariant
            i <= doc.objects@.len(),
            k <= extents@.len(),
            spec_scan(doc.objects@, extents@) == spec_scan(
                doc.objects@.skip(i as int),
                extents@.skip(k as int),
            ),
        decreases doc.objects@.len() - i,
    {
        proof {
            assert(doc.objects@.skip(i as int)[0] == doc.objects@[i as int]);
            assert(doc.objects@.skip(i as int).skip(1) =~= doc.objects@.skip(i as int + 1));
        }
        if let SceneObject::Mesh(m) = &doc.objects[i] {
            if k >= extents.len() {
                return None;
            }
            proof {
                assert(extents@.skip(k as int)[0] == extents@[k as int]);
                assert(extents@.skip(k as int).skip(1) =~= extents@.skip(k as int + 1));
            }
            if let MeshExtent::Extent(v) = &extents[k] {
                let x_small = !is_nan_bits(v.x) && lt_bits(v.x, MIN_BOUND_SIZE_BITS);
                let y_small = !is_nan_bits(v.y) && lt_bits(v.y, MIN_BOUND_SIZE_BITS);
                let z_small = !is_nan_bits(v.z) && lt_bits(v.z, MIN_BOUND_SIZE_BITS);
                let x_big = !is_nan_bits(v.x) && lt_bits(MAX_BOUND_SIZE_BITS, v.x);
                let y_big = !is_nan_bits(v.y) && lt_bits(MAX_BOUND_SIZE_BITS, v.y);
                let z_big = !is_nan_bits(v.z) && lt_bits(MAX_BOUND_SIZE_BITS, v.z);
                if x_small && y_small && z_small {
                    let mut msg = String::from_str("The bounds (size) of the mesh [");
                    msg.append(geo_name(m).as_str());
                    msg.append(
                        "] are too small. Meshes must be larger than [0.0001]. The mesh bounds are of size ",
                    );
                    msg.append(v.text.as_str());
                    proof {
                        assert(msg@ =~= spec_small_message(spec_geo_name(*m), v.text@));
                    }
                    return Some(msg);
                }
                if x_big || y_big || z_big {
                    let mut msg = String::from_str("The bounds (size) of the mesh [");
                    msg.append(geo_name(m).as_str());
                    msg.append(
                        "] are too big. Meshes must be smaller than [1000]. The mesh bounds are of size ",
                    );
                    msg.append(v.text.as_str());
                    proof {
                        assert(msg@ =~= spec_big_message(spec_geo_name(*m), v.text@));
                    }
                    return Some(msg);
                }
            }
            k += 1;
        }
        i += 1;
    }
    None
}

} // verus!
