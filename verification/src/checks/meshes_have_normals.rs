//! Checks that meshes carry vertex normals, and that per-control-point
//! normals agree in count with the control points.
//!
//! A mesh with no normals layer gets one diagnostic: the consumer would
//! synthesize poor normals.  When a normals layer exists and its mapping mode
//! is per control point (`ByVertice`), the number of normal vectors must equal
//! the number of vertices, each count being a raw array length divided by the
//! three components per vector; other mapping modes legitimately differ in
//! cardinality and are not count-checked.  Missing mapping or array data means
//! "no opinion".

use vstd::prelude::*;

use crate::scene::{Mesh, SceneDoc, SceneObject};
use crate::strutil::{decimal_usize, spec_decimal, str_eq};
use crate::utils::{geo_name, spec_geo_name};

verus! {

/// The diagnostic for a mesh without normals.
pub open spec fn spec_missing_message(name: Seq<char>) -> Seq<char> {
    "The mesh ["@ + name
        + "] does not have vertex normals. Unity will generate bad normals, instead."@
}

/// The diagnostic for a per-control-point normal count that does not match the
/// vertex count.
pub open spec fn spec_count_message(name: Seq<char>, normals: int, vertices: int) -> Seq<char> {
    "The mesh ["@ + name + "] has invalid normals: "@ + spec_decimal(normals)
        + " normal vectors but "@ + spec_decimal(vertices)
        + " vertices. For MappingInformationType \"ByVertice\", these counts must match."@
}

/// The diagnostics one mesh contributes.
pub open spec fn spec_mesh_msgs(m: Mesh) -> Seq<Seq<char>> {
    if !m.has_normal_layer {
        seq![spec_missing_message(spec_geo_name(m))]
    } else {
        match (m.normals_array_len, m.vertices_array_len, m.normals_mapping) {
            (Option::Some(nl), Option::Some(vl), Option::Some(mapping)) => if mapping@
                == "ByVertice"@ && nl as int / 3 != vl as int / 3 {
                seq![spec_count_message(spec_geo_name(m), nl as int / 3, vl as int / 3)]
            } else {
                Seq::empty()
            },
            _ => Seq::empty(),
        }
    }
}

/// The diagnostics one object contributes.
pub open spec fn spec_object_msgs(o: SceneObject) -> Seq<Seq<char>> {
    match o {
        SceneObject::Mesh(m) => spec_mesh_msgs(m),
        _ => Seq::empty(),
    }
}

/// All normal diagnostics, in document order.
pub open spec fn spec_diagnostics(objects: Seq<SceneObject>) -> Seq<Seq<char>>
    decreases objects.len(),
{
    if objects.len() == 0 {
        Seq::empty()
    } else {
        spec_diagnostics(objects.drop_last()) + spec_object_msgs(objects.last())
    }
}

/// Reports meshes without vertex normals, and per-control-point normal layers
/// whose count does not match the vertex count.
pub fn verify(doc: &SceneDoc) -> (r: Vec<String>)
    ensures
        r.deep_view() == spec_diagnostics(doc.objects@),
{
    let mut r: Vec<String> = Vec::new();
    let mut i: usize = 0;
    proof {
        assert(doc.objects@.take(0) =~= Seq::<SceneObject>::empty());
        assert(r.deep_view() =~= spec_diagnostics(doc.objects@.take(0)));
    }
    while i < doc.objects.len()
        invariant
            i <= doc.objects@.len(),
            r.deep_view() == spec_diagnostics(doc.objects@.take(i as int)),
        decreases doc.objects@.len() - i,
    {
        if let SceneObject::Mesh(m) = &doc.objects[i] {
            if !m.has_normal_layer {
                let mut msg = String::from_str("The mesh [");
                msg.append(geo_name(m).as_str());
                msg.append(
                    "] does not have vertex normals. Unity will generate bad normals, instead.",
                );
                proof {
                    assert(msg@ =~= spec_missing_message(spec_geo_name(*m)));
                }
                r.push(msg);
            } else {
                if let (
                    Option::Some(nl),
                    Option::Some(vl),
                    Option::Some(mapping),
                ) = (&m.normals_array_len, &m.vertices_array_len, &m.normals_mapping) {
                    let normal_count = *nl / 3;
                    let vertex_count = *vl / 3;
                    if str_eq(mapping.as_str(), "ByVertice") && normal_count != vertex_count {
                        let mut msg = String::from_str("The mesh [");
                        msg.append(geo_name(m).as_str());
                        msg.append("] has invalid normals: ");
                        msg.append(decimal_usize(normal_count).as_str());
                        msg.append(" normal vectors but ");
                        msg.append(decimal_usize(vertex_count).as_str());
                        msg.append(
                            " vertices. For MappingInformationType \"ByVertice\", these counts must match.",
                        );
                        proof {
                            assert(msg@ =~= spec_count_message(
                                spec_geo_name(*m),
                                nl as int / 3,
                                vl as int / 3,
                            ));
                        }
                        r.push(msg);
                    }
                }
            }
        }
        i += 1;
        proof {
            assert(doc.objects@.take(i as int).drop_last() =~= doc.objects@.take(i as int - 1));
            assert(r.deep_view() =~= spec_diagnostics(doc.objects@.take(i as int)));
        }
    }
    proof {
        assert(doc.objects@.take(doc.objects@.len() as int) =~= doc.objects@);
    }
    r
}

} // verus!
