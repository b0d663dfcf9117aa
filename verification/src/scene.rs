//! The plain-value scene model the validators read.
//!
//! An adapter outside the library walks the externally parsed document and
//! fills these types in: every number a validator compares is carried as an
//! IEEE 754 binary64 bit pattern, and every number a diagnostic displays is
//! carried alongside as the adapter's rendering of it, so the rules never
//! touch a machine float.

use vstd::prelude::*;

verus! {

/// One binary64 value: its bit pattern, and its display rendering.
pub struct F64Val {
    pub bits: u64,
    pub text: String,
}

/// One 3-vector of binary64 values: the three bit patterns, and a display
/// rendering of the whole vector.
pub struct Vec3Val {
    pub x: u64,
    pub y: u64,
    pub z: u64,
    pub text: String,
}

/// One control point: the bit patterns of its three coordinates.
#[derive(Clone, Copy, Debug)]
pub struct PointBits {
    pub x: u64,
    pub y: u64,
    pub z: u64,
}

/// A typed attribute value from a property table.
pub enum PropValue {
    Bool(bool),
    I16(i16),
    I32(i32),
    I64(i64),
    F64(F64Val),
    Str(String),
    /// An attribute of a type no validator reads (arrays, raw blobs).
    Other,
}

/// One named property: its key and its value part (the attribute values that
/// follow the name, type and flag fields).
pub struct Property {
    pub key: String,
    pub values: Vec<PropValue>,
}

/// A property table; lookup is by exact key, first match wins.
pub struct PropTable {
    pub entries: Vec<Property>,
}

/// A model node.
pub struct Model {
    /// The object id of this model.
    pub id: u64,
    /// The model's name, if it has one.
    pub name: Option<String>,
    /// The object id of the topmost ancestor model (itself, when it has no
    /// model parent).
    pub root_id: u64,
    /// The `Lcl Rotation` value, if the property is present.
    pub lcl_rotation: Option<Vec3Val>,
    /// The `PreRotation` value, if the property is present.
    pub pre_rotation: Option<Vec3Val>,
    /// The `Lcl Scaling` value, if the property is present.
    pub lcl_scaling: Option<Vec3Val>,
    /// The model's direct property table, if it has one.
    pub direct_properties: Option<PropTable>,
}

/// A mesh geometry node.
pub struct Mesh {
    /// The geometry's own name, if it has one.
    pub name: Option<String>,
    /// The name of the first unlabelled model that references this geometry,
    /// when such a model exists and is named.
    pub referencing_model_name: Option<String>,
    /// The raw control points.
    pub control_points: Vec<PointBits>,
    /// The flattened polygon vertex indices; the final vertex of each polygon
    /// is stored as the one's complement of its true index, hence negative.
    pub polygon_vertex_indices: Vec<i64>,
    /// Whether any layer holds a normals element.
    pub has_normal_layer: bool,
    /// Element count of the first normals array, when one exists.
    pub normals_array_len: Option<usize>,
    /// The mapping mode string of the first normals layer, when present.
    pub normals_mapping: Option<String>,
    /// Element count of the raw vertices array, when one exists.
    pub vertices_array_len: Option<usize>,
}

/// One object of the document, in document order.
pub enum SceneObject {
    Model(Model),
    Mesh(Mesh),
    /// An object no validator reads (materials, textures, animation data).
    Other,
}

/// A parsed document, reduced to what the validators read.
pub struct SceneDoc {
    /// All objects, in document order.
    pub objects: Vec<SceneObject>,
    /// The document's `Creator` string, if present.
    pub creator: Option<String>,
    /// The `LastSaved|ApplicationName` scene-info string, if present.
    pub application_name: Option<String>,
    /// The document's global settings property table, if present.
    pub global_settings: Option<PropTable>,
}

/// The per-axis extents of one mesh's bounding box, as the adapter computed
/// them from the reduced bounds: the bit patterns of `max - min` per axis and
/// a display rendering of the extent vector.
pub struct ExtentVal {
    pub x: u64,
    pub y: u64,
    pub z: u64,
    pub text: String,
}

/// The bounding-box input for one mesh: nothing for a mesh with no control
/// points, otherwise its extents.
pub enum MeshExtent {
    Empty,
    Extent(ExtentVal),
}

impl PropTable {
    /// The index of the first entry with the given key, if any.
    pub open spec fn spec_index_of(&self, key: Seq<char>) -> Option<int> {
        spec_first_with_key(self.entries@, key)
    }

    /// The value part of the first entry with the given key, if any.
    pub open spec fn spec_get(&self, key: Seq<char>) -> Option<Seq<PropValue>> {
        match self.spec_index_of(key) {
            Option::Some(i) => Option::Some(self.entries@[i].values@),
            Option::None => Option::None,
        }
    }

    /// Looks a property up by exact key; the first match wins, an absent key
    /// yields `None`.
    pub fn get(&self, key: &str) -> (r: Option<&Property>)
        ensures
            match r {
                Option::Some(p) => {
                    &&& self.spec_index_of(key@) matches Option::Some(i)
                    &&& 0 <= i < self.entries@.len()
                    &&& *p == self.entries@[i]
                },
                Option::None => self.spec_index_of(key@) is None,
            },
    {
        proof {
            assert(self.entries@.skip(0) =~= self.entries@);
        }
        let mut i: usize = 0;
        while i < self.entries.len()
            invariant
                i <= self.entries@.len(),
                match spec_first_with_key(self.entries@.skip(i as int), key@) {
                    Option::Some(j) => spec_first_with_key(self.entries@, key@) == Option::Some(
                        j + i,
                    ),
                    Option::None => spec_first_with_key(self.entries@, key@) is None,
                },
            decreases self.entries@.len() - i,
        {
            proof {
                assert(self.entries@.skip(i as int)[0] == self.entries@[i as int]);
                assert(self.entries@.skip(i as int).skip(1) =~= self.entries@.skip(i as int + 1));
            }
            if crate::strutil::str_eq(self.entries[i].key.as_str(), key) {
                return Some(&self.entries[i]);
            }
            i += 1;
        }
        None
    }
}

/// The index of the first property with the given key, if any.
pub open spec fn spec_first_with_key(entries: Seq<Property>, key: Seq<char>) -> Option<int>
    decreases entries.len(),
{
    if entries.len() == 0 {
        Option::None
    } else if entries[0].key@ == key {
        Option::Some(0)
    } else {
        match spec_first_with_key(entries.skip(1), key) {
            Option::Some(i) => Option::Some(i + 1),
            Option::None => Option::None,
        }
    }
}

} // verus!
