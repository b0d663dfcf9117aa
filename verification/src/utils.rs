//! Shared lookups over the scene model: enumerating models and hierarchy
//! roots, naming geometries for diagnostics, and identifying the authoring
//! application.

use vstd::prelude::*;

use crate::scene::{Mesh, SceneDoc, SceneObject};
use crate::strutil::{contains_seq, str_contains};

verus! {

/// The authoring application that last saved the document.
#[derive(PartialEq, Eq, Clone, Debug)]
pub enum ApplicationName {
    Blender,
    Max,
    Maya,
    Houdini,
    UnknownApplication(String),
}

/// The display name of a mesh for diagnostics: the mesh's own name when
/// present, else the name of the first referencing model, else `No Name`.
pub open spec fn spec_geo_name(m: Mesh) -> Seq<char> {
    match m.name {
        Option::Some(n) => n@,
        Option::None => match m.referencing_model_name {
            Option::Some(n) => n@,
            Option::None => "No Name"@,
        },
    }
}

/// Returns a useful display name for a geometry: its own given name, else the
/// name of the first model that references it, else a fixed placeholder.
pub fn geo_name(mesh: &Mesh) -> (r: String)
    ensures
        r@ == spec_geo_name(*mesh),
{
    match &mesh.name {
        Option::Some(n) => n.clone(),
        Option::None => match &mesh.referencing_model_name {
            Option::Some(n) => n.clone(),
            Option::None => String::from_str("No Name"),
        },
    }
}

/// The indices of the model objects, in document order.
pub open spec fn spec_model_indices(objects: Seq<SceneObject>) -> Seq<int>
    decreases objects.len(),
{
    if objects.len() == 0 {
        Seq::empty()
    } else {
        let rest = spec_model_indices(objects.drop_last());
        if objects.last() is Model {
            rest.push(objects.len() - 1)
        } else {
            rest
        }
    }
}

/// Returns the positions of the document's model objects, in document order.
pub fn get_models(doc: &SceneDoc) -> (r: Vec<usize>)
    ensures
        r@.map_values(|i: usize| i as int) == spec_model_indices(doc.objects@),
{
    let mut r: Vec<usize> = Vec::new();
    let mut i: usize = 0;
    proof {
        assert(doc.objects@.take(0) =~= Seq::<SceneObject>::empty());
    }
    while i < doc.objects.len()
        invariant
            i <= doc.objects@.len(),
            r@.map_values(|i: usize| i as int) == spec_model_indices(doc.objects@.take(i as int)),
        decreases doc.objects@.len() - i,
    {
        let ghost old_r = r@;
        if let SceneObject::Model(_) = &doc.objects[i] {
            r.push(i);
            proof {
                assert(r@.map_values(|i: usize| i as int) =~= old_r.map_values(
                    |i: usize| i as int,
                ).push(i as int));
            }
        }
        i += 1;
        proof {
            assert(doc.objects@.take(i as int).drop_last() =~= doc.objects@.take(i as int - 1));
        }
    }
    proof {
        assert(doc.objects@.take(doc.objects@.len() as int) =~= doc.objects@);
    }
    r
}

/// The distinct root object ids of the document's models, in first-seen order.
pub open spec fn spec_model_roots(objects: Seq<SceneObject>) -> Seq<u64>
    decreases objects.len(),
{
    if objects.len() == 0 {
        Seq::empty()
    } else {
        let rest = spec_model_roots(objects.drop_last());
        match objects.last() {
            SceneObject::Model(m) => if rest.contains(m.root_id) {
                rest
            } else {
                rest.push(m.root_id)
            },
            _ => rest,
        }
    }
}

/// Gets the roots of the scene's model hierarchies: every model resolves to
/// one root id, and each distinct root id is reported once.
pub fn get_model_roots(doc: &SceneDoc) -> (r: Vec<u64>)
    ensures
        r@ == spec_model_roots(doc.objects@),
{
    let mut r: Vec<u64> = Vec::new();
    let mut i: usize = 0;
    proof {
        assert(doc.objects@.take(0) =~= Seq::<SceneObject>::empty());
    }
    while i < doc.objects.len()
        invariant
            i <= doc.objects@.len(),
            r@ == spec_model_roots(doc.objects@.take(i as int)),
        decreases doc.objects@.len() - i,
    {
        if let SceneObject::Model(m) = &doc.objects[i] {
            if !contains_u64(&r, m.root_id) {
                r.push(m.root_id);
            }
        }
        i += 1;
        proof {
            assert(doc.objects@.take(i as int).drop_last() =~= doc.objects@.take(i as int - 1));
        }
    }
    proof {
        assert(doc.objects@.take(doc.objects@.len() as int) =~= doc.objects@);
    }
    r
}

/// Linear membership test.
pub fn contains_u64(v: &Vec<u64>, x: u64) -> (r: bool)
    ensures
        r == v@.contains(x),
{
    let mut i: usize = 0;
    while i < v.len()
        invariant
            i <= v@.len(),
            forall|t: int| 0 <= t < i ==> v@[t] != x,
        decreases v@.len() - i,
    {
        if v[i] == x {
            return true;
        }
        i += 1;
    }
    false
}

/// Which application a `LastSaved|ApplicationName` string names, by the
/// substring each application's exporter writes.
pub open spec fn spec_classify_application(s: String) -> ApplicationName {
    if contains_seq(s@, "Blender"@) {
        ApplicationName::Blender
    } else if contains_seq(s@, "Maya"@) {
        ApplicationName::Maya
    } else if contains_seq(s@, "3ds Max"@) {
        ApplicationName::Max
    } else if contains_seq(s@, "Houdini"@) {
        ApplicationName::Houdini
    } else {
        ApplicationName::UnknownApplication(s)
    }
}

/// The application named by the document's `LastSaved|ApplicationName` string,
/// when that string is present.
pub open spec fn spec_application_name(doc: SceneDoc) -> Option<ApplicationName> {
    match doc.application_name {
        Option::Some(s) => Option::Some(spec_classify_application(s)),
        Option::None => Option::None,
    }
}

/// Returns the name of the program that last saved the document, classified by
/// the known exporter substrings; `None` if the document carries no
/// application name.
pub fn get_application_name(doc: &SceneDoc) -> (r: Option<ApplicationName>)
    ensures
        r == spec_application_name(*doc),
{
    match &doc.application_name {
        Option::None => None,
        Option::Some(s) => {
            if str_contains(s.as_str(), "Blender") {
                Some(ApplicationName::Blender)
            } else if str_contains(s.as_str(), "Maya") {
                Some(ApplicationName::Maya)
            } else if str_contains(s.as_str(), "3ds Max") {
                Some(ApplicationName::Max)
            } else if str_contains(s.as_str(), "Houdini") {
                Some(ApplicationName::Houdini)
            } else {
                Some(ApplicationName::UnknownApplication(s.clone()))
            }
        },
    }
}

/// Returns the document's `Creator` string, if it exists: usually the export
/// SDK or the authoring program.
pub fn get_creator(doc: &SceneDoc) -> (r: Option<&String>)
    ensures
        match r {
            Option::Some(c) => doc.creator matches Option::Some(d) && d == *c,
            Option::None => doc.creator is None,
        },
{
    match &doc.creator {
        Option::Some(c) => Some(c),
        Option::None => None,
    }
}

} // verus!
