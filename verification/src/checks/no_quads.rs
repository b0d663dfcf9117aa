//! Checks that meshes are fully triangulated.
//!
//! The flattened polygon index array of each mesh is decoded into polygon
//! sizes.  A mesh whose only oversized polygons are quads gets a dedicated
//! "contains quads" diagnostic; any other oversized polygons get a diagnostic
//! listing the distinct offending sizes in first-occurrence order (a
//! deterministic order).  An index array that ends in the middle of a polygon
//! is a malformed file: a fatal error, not a diagnostic.

use vstd::prelude::*;

use crate::geometry::{
    decode_polygon_sizes, oversized_polygon_sizes, spec_decode, spec_oversized, GeometryError,
};
use crate::scene::{Mesh, SceneDoc, SceneObject};
use crate::strutil::{decimal_usize, join_comma, spec_decimal, spec_join_comma};
use crate::utils::{geo_name, spec_geo_name};

verus! {

/// The diagnostic for a mesh whose only oversized polygons are quads.
pub open spec fn spec_quads_message(name: Seq<char>) -> Seq<char> {
    "Mesh ["@ + name + "] contains quads. It must be triangulated before importing into Unity."@
}

/// The diagnostic for a mesh with other oversized polygons: the distinct
/// offending sizes, comma-joined in first-occurrence order.
pub open spec fn spec_ngon_message(name: Seq<char>, over: Seq<int>) -> Seq<char> {
    "Mesh ["@ + name + "] is not triangulated. It contains polygons with sizes: "@
        + spec_join_comma(over.map_values(|s: int| spec_decimal(s)))
}

/// The diagnostics one mesh contributes; `None` when its index array is
/// malformed (no end marker for the final polygon).
pub open spec fn spec_mesh_msgs(m: Mesh) -> Option<Seq<Seq<char>>> {
    match spec_decode(m.polygon_vertex_indices@) {
        Option::None => Option::None,
        Option::Some(sizes) => {
            let over = spec_oversized(sizes);
            Option::Some(
                if over.len() == 0 {
                    Seq::empty()
                } else if over == seq![4int] {
                    seq![spec_quads_message(spec_geo_name(m))]
                } else {
                    seq![spec_ngon_message(spec_geo_name(m), over)]
                },
            )
        },
    }
}

/// All triangulation diagnostics in document order, or `None` at the first
/// mesh with a malformed index array.
pub open spec fn spec_scan(objects: Seq<SceneObject>) -> Option<Seq<Seq<char>>>
    decreases objects.len(),
{
    if objects.len() == 0 {
        Option::Some(Seq::empty())
    } else {
        match objects[0] {
            SceneObject::Mesh(m) => match spec_mesh_msgs(m) {
                Option::None => Option::None,
                Option::Some(ms) => match spec_scan(objects.skip(1)) {
                    Option::None => Option::None,
                    Option::Some(rest) => Option::Some(ms + rest),
                },
            },
            _ => spec_scan(objects.skip(1)),
        }
    }
}

/// The index array of the first mesh whose index array is malformed, in
/// document order.
pub open spec fn spec_first_undecodable(objects: Seq<SceneObject>) -> Option<Seq<i64>>
    decreases objects.len(),
{
    if objects.len() == 0 {
        Option::None
    } else {
        match objects[0] {
            SceneObject::Mesh(m) => if spec_decode(m.polygon_vertex_indices@) is None {
                Option::Some(m.polygon_vertex_indices@)
            } else {
                spec_first_undecodable(objects.skip(1))
            },
            _ => spec_first_undecodable(objects.skip(1)),
        }
    }
}

/// Reports meshes containing quads or larger polygons; fails at the first mesh
/// whose index array ends in the middle of a polygon.
pub fn verify(doc: &SceneDoc) -> (r: Result<Vec<String>, GeometryError>)
    ensures
        match r {
            Result::Ok(msgs) => spec_scan(doc.objects@) == Option::Some(msgs.deep_view()),
            Result::Err(e) => {
                &&& spec_scan(doc.objects@) is None
                &&& spec_first_undecodable(doc.objects@) matches Option::Some(idx) && {
                    &&& e matches GeometryError::IncompletePolygon { start, len }
                    &&& len == idx.len()
                    &&& start < len
                    &&& forall|t: int| start <= t < len ==> idx[t] >= 0
                    &&& (start == 0 || idx[start - 1] < 0)
                }
            },
        },
{
    let mut r: Vec<String> = Vec::new();
    let mut i: usize = 0;
    proof {
        assert(doc.objects@.skip(0) =~= doc.objects@);
        assert(r.deep_view() =~= Seq::<Seq<char>>::empty());
    }
    while i < doc.objects.len()
        invariant
            i <= doc.objects@.len(),
            spec_first_undecodable(doc.objects@) == spec_first_undecodable(
                doc.objects@.skip(i as int),
            ),
            match spec_scan(doc.objects@.skip(i as int)) {
                Option::Some(rest) => spec_scan(doc.objects@) == Option::Some(
                    r.deep_view() + rest,
                ),
                Option::None => spec_scan(doc.objects@) is None,
            },
        decreases doc.objects@.len() - i,
    {
        proof {
            assert(doc.objects@.skip(i as int)[0] == doc.objects@[i as int]);
            assert(doc.objects@.skip(i as int).skip(1) =~= doc.objects@.skip(i as int + 1));
        }
        let ghost old_r = r.deep_view();
        let ghost mut ms: Seq<Seq<char>> = Seq::empty();
        if let SceneObject::Mesh(m) = &doc.objects[i] {
            let sizes = match decode_polygon_sizes(&m.polygon_vertex_indices) {
                Result::Ok(sizes) => sizes,
                Result::Err(e) => {
                    return Err(e);
                },
            };
            let over = oversized_polygon_sizes(&sizes);
            let ghost over_spec = spec_oversized(sizes@.map_values(|s: usize| s as int));
            proof {
                assert(over@.map_values(|s: usize| s as int) == over_spec);
                assert(over@.len() == over_spec.len());
            }
            if over.len() == 1 && over[0] == 4 {
                proof {
                    assert(over_spec[0] == 4int);
                    assert(over_spec =~= seq![4int]);
                    ms = seq![spec_quads_message(spec_geo_name(*m))];
                }
                let mut msg = String::from_str("Mesh [");
                msg.append(geo_name(m).as_str());
                msg.append("] contains quads. It must be triangulated before importing into Unity.");
                proof {
                    assert(msg@ =~= spec_quads_message(spec_geo_name(*m)));
                }
                r.push(msg);
            } else if over.len() > 0 {
                proof {
                    assert(over_spec != seq![4int]) by {
                        if over_spec == seq![4int] {
                            assert(over@.map_values(|s: usize| s as int)[0] == 4int);
                            assert(over@[0] == 4usize);
                        }
                    };
                    ms = seq![spec_ngon_message(spec_geo_name(*m), over_spec)];
                }
                let mut decs: Vec<String> = Vec::new();
                let mut j: usize = 0;
                while j < over.len()
                    invariant
                        j <= over@.len(),
                        over@.map_values(|s: usize| s as int) == over_spec,
                        decs.deep_view().len() == j,
                        forall|k: int|
                            0 <= k < j ==> decs.deep_view()[k] == spec_decimal(over_spec[k]),
                    decreases over@.len() - j,
                {
                    let ghost old_decs = decs@;
                    let ghost old_dv = decs.deep_view();
                    decs.push(decimal_usize(over[j]));
                    j += 1;
                    proof {
                        assert forall|k: int| 0 <= k < j implies decs.deep_view()[k]
                            == spec_decimal(over_spec[k]) by {
                            assert(decs.deep_view()[k] == decs@[k]@);
                            if k < j - 1 {
                                assert(decs@[k] == old_decs[k]);
                                assert(old_dv[k] == old_decs[k]@);
                                assert(old_dv[k] == spec_decimal(over_spec[k]));
                            }
                        };
                    }
                }
                proof {
                    assert(decs.deep_view() =~= over_spec.map_values(|s: int| spec_decimal(s)));
                }
                let mut msg = String::from_str("Mesh [");
                msg.append(geo_name(m).as_str());
                msg.append("] is not triangulated. It contains polygons with sizes: ");
                msg.append(join_comma(&decs).as_str());
                proof {
                    assert(msg@ =~= spec_ngon_message(spec_geo_name(*m), over_spec));
                }
                r.push(msg);
            }
            proof {
                assert(spec_mesh_msgs(*m) == Option::Some(ms));
                assert(r.deep_view() =~= old_r + ms);
            }
        }
        i += 1;
        proof {
            assert(r.deep_view() =~= old_r + ms);
            match spec_scan(doc.objects@.skip(i as int)) {
                Option::Some(rest) => {
                    assert(old_r + (ms + rest) =~= r.deep_view() + rest);
                },
                Option::None => {},
            }
        }
    }
    proof {
        assert(doc.objects@.skip(doc.objects@.len() as int) =~= Seq::<SceneObject>::empty());
        assert(r.deep_view() + Seq::<Seq<char>>::empty() =~= r.deep_view());
    }
    Ok(r)
}

} // verus!
