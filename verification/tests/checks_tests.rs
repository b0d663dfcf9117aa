use fbx_sanitizer::checks::bounding_box_size;
use fbx_sanitizer::checks::correct_coordinate_axis;
use fbx_sanitizer::checks::is_fbx_binary;
use fbx_sanitizer::checks::mesh_naming;
use fbx_sanitizer::checks::meshes_have_normals;
use fbx_sanitizer::checks::no_namespaces;
use fbx_sanitizer::checks::no_quads;
use fbx_sanitizer::checks::no_scale_compensation;
use fbx_sanitizer::checks::root_has_identity_transform;
use fbx_sanitizer::checks::units_are_in_meters;
use fbx_sanitizer::scene::{
    ExtentVal, F64Val, Mesh, MeshExtent, Model, PropTable, PropValue, Property, SceneDoc,
    SceneObject, Vec3Val,
};
use fbx_sanitizer::utils::{get_application_name, get_model_roots, geo_name, ApplicationName};

fn empty_doc() -> SceneDoc {
    SceneDoc { objects: vec![], creator: None, application_name: None, global_settings: None }
}

fn plain_model(id: u64, root_id: u64, name: Option<&str>) -> Model {
    Model {
        id,
        name: name.map(String::from),
        root_id,
        lcl_rotation: None,
        pre_rotation: None,
        lcl_scaling: None,
        direct_properties: None,
    }
}

fn plain_mesh(name: Option<&str>) -> Mesh {
    Mesh {
        name: name.map(String::from),
        referencing_model_name: None,
        control_points: vec![],
        polygon_vertex_indices: vec![],
        has_normal_layer: true,
        normals_array_len: None,
        normals_mapping: None,
        vertices_array_len: None,
    }
}

fn vec3(x: f64, y: f64, z: f64) -> Vec3Val {
    Vec3Val {
        x: x.to_bits(),
        y: y.to_bits(),
        z: z.to_bits(),
        text: format!("({}, {}, {})", x, y, z),
    }
}

fn extent(x: f64, y: f64, z: f64) -> MeshExtent {
    MeshExtent::Extent(ExtentVal {
        x: x.to_bits(),
        y: y.to_bits(),
        z: z.to_bits(),
        text: format!("({}, {}, {})", x, y, z),
    })
}

fn settings_with(entries: Vec<(&str, Vec<PropValue>)>) -> PropTable {
    PropTable {
        entries: entries
            .into_iter()
            .map(|(k, values)| Property { key: String::from(k), values })
            .collect(),
    }
}

fn f64_prop(v: f64) -> PropValue {
    PropValue::F64(F64Val { bits: v.to_bits(), text: format!("{}", v) })
}

// ---- threshold and epsilon bit patterns ----

#[test]
fn threshold_constants_encode_the_documented_values() {
    assert_eq!(bounding_box_size::MIN_BOUND_SIZE_BITS, (0.0001f64).to_bits());
    assert_eq!(bounding_box_size::MAX_BOUND_SIZE_BITS, (1000.0f64).to_bits());
    assert_eq!(root_has_identity_transform::EPSILON_BITS, (1e-12f64).to_bits());
    assert_eq!(units_are_in_meters::ONE_BITS, (1.0f64).to_bits());
    assert_eq!(units_are_in_meters::HUNDRED_BITS, (100.0f64).to_bits());
    // the scale interval brackets 1 +/- 1e-12 as tightly as binary64 allows
    let lo = f64::from_bits(root_has_identity_transform::SCALE_ONE_LO_BITS);
    let hi = f64::from_bits(root_has_identity_transform::SCALE_ONE_HI_BITS);
    assert!((lo - 1.0).abs() <= 1e-12 && (hi - 1.0).abs() <= 1e-12);
    assert!((f64::from_bits(lo.to_bits() - 1) - 1.0).abs() > 1e-12);
    assert!((f64::from_bits(hi.to_bits() + 1) - 1.0).abs() > 1e-12);
}

// ---- bounding box ----

#[test]
fn bbox_too_small_needs_all_three_axes() {
    // one tiny axis with the other two at or above the minimum: not too small
    let doc = SceneDoc { objects: vec![SceneObject::Mesh(plain_mesh(Some("m")))], ..empty_doc() };
    let extents = vec![extent(1e-9, 0.5, 0.2)];
    assert_eq!(bounding_box_size::verify(&doc, &extents), None);
    // all three tiny: too small
    let extents = vec![extent(1e-9, 1e-5, 0.00009)];
    let msg = bounding_box_size::verify(&doc, &extents).unwrap();
    assert!(msg.contains("too small"));
    assert!(msg.starts_with("The bounds (size) of the mesh [m] are too small."));
}

#[test]
fn bbox_too_big_needs_any_axis() {
    let doc = SceneDoc { objects: vec![SceneObject::Mesh(plain_mesh(Some("m")))], ..empty_doc() };
    // a thin sliver: tiny in two axes, long in the third, within the maximum
    let extents = vec![extent(1e-9, 1e-9, 500.0)];
    assert_eq!(bounding_box_size::verify(&doc, &extents), None);
    // one axis past the maximum flags, whatever the others are
    let extents = vec![extent(1e-9, 1e-9, 1000.5)];
    let msg = bounding_box_size::verify(&doc, &extents).unwrap();
    assert_eq!(
        msg,
        "The bounds (size) of the mesh [m] are too big. Meshes must be smaller than [1000]. \
         The mesh bounds are of size (0.000000001, 0.000000001, 1000.5)"
    );
}

#[test]
fn bbox_boundary_values_do_not_flag() {
    let doc = SceneDoc { objects: vec![SceneObject::Mesh(plain_mesh(Some("m")))], ..empty_doc() };
    // exactly at the thresholds: strict comparisons, no diagnostic
    let extents = vec![extent(0.0001, 0.0001, 0.0001)];
    assert_eq!(bounding_box_size::verify(&doc, &extents), None);
    let extents = vec![extent(1000.0, 1.0, 1.0)];
    assert_eq!(bounding_box_size::verify(&doc, &extents), None);
}

#[test]
fn bbox_empty_mesh_is_exempt() {
    let doc = SceneDoc { objects: vec![SceneObject::Mesh(plain_mesh(Some("m")))], ..empty_doc() };
    let extents = vec![MeshExtent::Empty];
    assert_eq!(bounding_box_size::verify(&doc, &extents), None);
}

#[test]
fn bbox_nan_extent_never_flags() {
    // an unbounded mesh subtracts infinity from infinity: the NaN extent
    // compares with nothing and yields no diagnostic
    let doc = SceneDoc { objects: vec![SceneObject::Mesh(plain_mesh(Some("m")))], ..empty_doc() };
    let extents = vec![extent(f64::NAN, f64::NAN, f64::NAN)];
    assert_eq!(bounding_box_size::verify(&doc, &extents), None);
}

#[test]
fn property_lookup_first_match_wins() {
    let settings = settings_with(vec![
        ("UnitScaleFactor", vec![f64_prop(100.0)]),
        ("UnitScaleFactor", vec![f64_prop(1.0)]),
    ]);
    let doc = SceneDoc { global_settings: Some(settings), ..empty_doc() };
    assert_eq!(units_are_in_meters::verify(&doc), Vec::<String>::new());
}

#[test]
fn bbox_first_offending_mesh_wins() {
    let doc = SceneDoc {
        objects: vec![
            SceneObject::Mesh(plain_mesh(Some("a"))),
            SceneObject::Mesh(plain_mesh(Some("b"))),
        ],
        ..empty_doc()
    };
    let extents = vec![extent(2000.0, 1.0, 1.0), extent(3000.0, 1.0, 1.0)];
    let msg = bounding_box_size::verify(&doc, &extents).unwrap();
    assert!(msg.contains("[a]"));
    assert!(!msg.contains("[b]"));
}

// ---- root transform identity ----

fn doc_with_root(rotation: Option<Vec3Val>, pre: Option<Vec3Val>, scale: Option<Vec3Val>)
    -> SceneDoc {
    let mut m = plain_model(1, 1, Some("root"));
    m.lcl_rotation = rotation;
    m.pre_rotation = pre;
    m.lcl_scaling = scale;
    SceneDoc { objects: vec![SceneObject::Model(m)], ..empty_doc() }
}

#[test]
fn root_two_roots_never_flag() {
    let mut a = plain_model(1, 1, Some("a"));
    a.lcl_rotation = Some(vec3(90.0, 0.0, 0.0));
    a.lcl_scaling = Some(vec3(100.0, 100.0, 100.0));
    let mut b = plain_model(2, 2, Some("b"));
    b.pre_rotation = Some(vec3(0.0, 45.0, 0.0));
    let doc = SceneDoc {
        objects: vec![SceneObject::Model(a), SceneObject::Model(b)],
        ..empty_doc()
    };
    assert_eq!(get_model_roots(&doc), vec![1, 2]);
    assert_eq!(root_has_identity_transform::verify(&doc), Vec::<String>::new());
}

#[test]
fn root_rotation_within_epsilon_passes() {
    let doc = doc_with_root(Some(vec3(0.0, 0.0, 0.0000000000005)), None, None);
    assert_eq!(root_has_identity_transform::verify(&doc), Vec::<String>::new());
}

#[test]
fn root_rotation_beyond_epsilon_flags() {
    let doc = doc_with_root(Some(vec3(0.0, 0.0, 0.001)), None, None);
    let msgs = root_has_identity_transform::verify(&doc);
    assert_eq!(msgs.len(), 1);
    assert_eq!(
        msgs[0],
        "The root object [root] does not have a zero rotation. It has rotation: [(0, 0, 0.001)]"
    );
}

#[test]
fn root_pre_rotation_beyond_epsilon_flags() {
    let doc = doc_with_root(None, Some(vec3(0.0, -0.01, 0.0)), None);
    let msgs = root_has_identity_transform::verify(&doc);
    assert_eq!(msgs.len(), 1);
    assert!(msgs[0].contains("pre-rotation"));
}

#[test]
fn root_scale_near_one_passes_and_far_flags() {
    let doc = doc_with_root(None, None, Some(vec3(1.0, 1.0 + 5e-13, 1.0 - 5e-13)));
    assert_eq!(root_has_identity_transform::verify(&doc), Vec::<String>::new());
    let doc = doc_with_root(None, None, Some(vec3(1.0, 1.0, 1.001)));
    let msgs = root_has_identity_transform::verify(&doc);
    assert_eq!(msgs.len(), 1);
    assert_eq!(
        msgs[0],
        "The root object [root] does not have a scale of 1. It has scale: [(1, 1, 1.001)]"
    );
}

#[test]
fn root_missing_transforms_pass() {
    let doc = doc_with_root(None, None, None);
    assert_eq!(root_has_identity_transform::verify(&doc), Vec::<String>::new());
}

// ---- namespaces ----

#[test]
fn namespace_boundaries() {
    assert!(no_namespaces::has_namespace("rig:Arm_L"));
    assert!(!no_namespaces::has_namespace("Arm_L"));
    assert!(!no_namespaces::has_namespace(":"));
    assert!(!no_namespaces::has_namespace(":leading"));
    assert!(no_namespaces::has_namespace("a:"));
    assert!(no_namespaces::has_namespace("a:b:c"));
    assert!(!no_namespaces::has_namespace(""));
}

#[test]
fn namespace_check_reports_each_namespaced_model() {
    let doc = SceneDoc {
        objects: vec![
            SceneObject::Model(plain_model(1, 1, Some("rig:Arm_L"))),
            SceneObject::Model(plain_model(2, 2, Some("Arm_R"))),
            SceneObject::Model(plain_model(3, 3, None)),
        ],
        ..empty_doc()
    };
    let msgs = no_namespaces::verify(&doc);
    assert_eq!(
        msgs,
        vec![String::from(
            "Objects should not be exported with namespaces: [rig:Arm_L]"
        )]
    );
}

// ---- scale compensation ----

fn model_with_inherit(value: Option<PropValue>) -> Model {
    let mut m = plain_model(1, 1, Some("bone"));
    m.direct_properties = Some(settings_with(match value {
        Some(v) => vec![("InheritType", vec![v])],
        None => vec![],
    }));
    m
}

#[test]
fn scale_compensation_value_two_flags() {
    let doc = SceneDoc {
        objects: vec![SceneObject::Model(model_with_inherit(Some(PropValue::I32(2))))],
        ..empty_doc()
    };
    let msgs = no_scale_compensation::verify(&doc);
    assert_eq!(msgs.len(), 1);
    assert_eq!(
        msgs[0],
        "The bone [bone] has scale compensation enabled. Disable it in Maya before importing \
         into Unity. (InheritType==eInheritRrs)"
    );
}

#[test]
fn scale_compensation_other_values_pass() {
    for value in [None, Some(PropValue::I32(0)), Some(PropValue::I32(1)), Some(PropValue::I64(2))]
    {
        let doc = SceneDoc {
            objects: vec![SceneObject::Model(model_with_inherit(value))],
            ..empty_doc()
        };
        assert_eq!(no_scale_compensation::verify(&doc), Vec::<String>::new());
    }
}

// ---- normals ----

#[test]
fn missing_normals_flag() {
    let mut mesh = plain_mesh(Some("m"));
    mesh.has_normal_layer = false;
    let doc = SceneDoc { objects: vec![SceneObject::Mesh(mesh)], ..empty_doc() };
    let msgs = meshes_have_normals::verify(&doc);
    assert_eq!(
        msgs,
        vec![String::from(
            "The mesh [m] does not have vertex normals. Unity will generate bad normals, instead."
        )]
    );
}

#[test]
fn by_vertice_count_mismatch_flags() {
    let mut mesh = plain_mesh(Some("m"));
    mesh.normals_array_len = Some(9);
    mesh.vertices_array_len = Some(12);
    mesh.normals_mapping = Some(String::from("ByVertice"));
    let doc = SceneDoc { objects: vec![SceneObject::Mesh(mesh)], ..empty_doc() };
    let msgs = meshes_have_normals::verify(&doc);
    assert_eq!(
        msgs,
        vec![String::from(
            "The mesh [m] has invalid normals: 3 normal vectors but 4 vertices. For \
             MappingInformationType \"ByVertice\", these counts must match."
        )]
    );
}

#[test]
fn by_vertice_matching_count_passes() {
    let mut mesh = plain_mesh(Some("m"));
    mesh.normals_array_len = Some(12);
    mesh.vertices_array_len = Some(12);
    mesh.normals_mapping = Some(String::from("ByVertice"));
    let doc = SceneDoc { objects: vec![SceneObject::Mesh(mesh)], ..empty_doc() };
    assert_eq!(meshes_have_normals::verify(&doc), Vec::<String>::new());
}

#[test]
fn other_mapping_modes_are_not_count_checked() {
    let mut mesh = plain_mesh(Some("m"));
    mesh.normals_array_len = Some(9);
    mesh.vertices_array_len = Some(12);
    mesh.normals_mapping = Some(String::from("ByPolygonVertex"));
    let doc = SceneDoc { objects: vec![SceneObject::Mesh(mesh)], ..empty_doc() };
    assert_eq!(meshes_have_normals::verify(&doc), Vec::<String>::new());
}

// ---- quads ----

fn mesh_with_indices(name: &str, indices: Vec<i64>) -> Mesh {
    let mut m = plain_mesh(Some(name));
    m.polygon_vertex_indices = indices;
    m
}

#[test]
fn quads_only_size_four_gets_quad_message() {
    let doc = SceneDoc {
        objects: vec![SceneObject::Mesh(mesh_with_indices("m", vec![0, 1, 2, !3]))],
        ..empty_doc()
    };
    let msgs = no_quads::verify(&doc).unwrap();
    assert_eq!(
        msgs,
        vec![String::from(
            "Mesh [m] contains quads. It must be triangulated before importing into Unity."
        )]
    );
}

#[test]
fn quads_larger_sizes_are_listed() {
    let doc = SceneDoc {
        objects: vec![SceneObject::Mesh(mesh_with_indices(
            "m",
            vec![0, 1, 2, 3, !4, 0, 1, 2, 3, 4, !5],
        ))],
        ..empty_doc()
    };
    let msgs = no_quads::verify(&doc).unwrap();
    assert_eq!(
        msgs,
        vec![String::from(
            "Mesh [m] is not triangulated. It contains polygons with sizes: 5,6"
        )]
    );
}

#[test]
fn quads_triangles_pass() {
    let doc = SceneDoc {
        objects: vec![SceneObject::Mesh(mesh_with_indices("m", vec![0, 1, !2, 1, 2, !3]))],
        ..empty_doc()
    };
    assert_eq!(no_quads::verify(&doc).unwrap(), Vec::<String>::new());
}

#[test]
fn quads_incomplete_polygon_is_fatal() {
    let doc = SceneDoc {
        objects: vec![SceneObject::Mesh(mesh_with_indices("m", vec![0, 1, 2]))],
        ..empty_doc()
    };
    let err = no_quads::verify(&doc).unwrap_err();
    assert_eq!(
        err,
        fbx_sanitizer::geometry::GeometryError::IncompletePolygon { start: 0, len: 3 }
    );
}

// ---- units ----

fn doc_with_units(app: Option<&str>, unit: Option<PropValue>) -> SceneDoc {
    SceneDoc {
        objects: vec![],
        creator: None,
        application_name: app.map(String::from),
        global_settings: Some(settings_with(match unit {
            Some(v) => vec![("UnitScaleFactor", vec![v])],
            None => vec![],
        })),
    }
}

#[test]
fn units_meters_pass_for_unknown_applications() {
    let doc = doc_with_units(None, Some(f64_prop(100.0)));
    assert_eq!(units_are_in_meters::verify(&doc), Vec::<String>::new());
}

#[test]
fn units_centimeter_convention_for_maya() {
    let doc = doc_with_units(Some("Autodesk Maya 2019"), Some(f64_prop(1.0)));
    assert_eq!(units_are_in_meters::verify(&doc), Vec::<String>::new());
    let doc = doc_with_units(Some("Autodesk Maya 2019"), Some(f64_prop(100.0)));
    let msgs = units_are_in_meters::verify(&doc);
    assert_eq!(
        msgs,
        vec![String::from(
            "File is not in the correct units. Units: 100cm. Should be 1cm."
        )]
    );
}

#[test]
fn units_mismatch_flags_with_both_values() {
    let doc = doc_with_units(Some("Blender (stable FBX IO)"), Some(f64_prop(1.0)));
    let msgs = units_are_in_meters::verify(&doc);
    assert_eq!(
        msgs,
        vec![String::from(
            "File is not in the correct units. Units: 1cm. Should be 100cm."
        )]
    );
}

#[test]
fn units_missing_stages_have_distinct_messages() {
    let doc = empty_doc();
    assert_eq!(
        units_are_in_meters::verify(&doc),
        vec![String::from("File has no units. (No GlobalSettings)")]
    );
    let doc = SceneDoc { global_settings: Some(settings_with(vec![])), ..empty_doc() };
    assert_eq!(
        units_are_in_meters::verify(&doc),
        vec![String::from("File has no units. (No UnitScaleFactor)")]
    );
    let doc = SceneDoc {
        global_settings: Some(settings_with(vec![("UnitScaleFactor", vec![])])),
        ..empty_doc()
    };
    assert_eq!(
        units_are_in_meters::verify(&doc),
        vec![String::from("File has no units. (No Unit Value)")]
    );
}

// ---- coordinate axes ----

fn axis_settings(up: (i32, i32), front: (i32, i32), coord: (i32, i32)) -> PropTable {
    settings_with(vec![
        ("UpAxis", vec![PropValue::I32(up.0)]),
        ("UpAxisSign", vec![PropValue::I32(up.1)]),
        ("FrontAxis", vec![PropValue::I32(front.0)]),
        ("FrontAxisSign", vec![PropValue::I32(front.1)]),
        ("CoordAxis", vec![PropValue::I32(coord.0)]),
        ("CoordAxisSign", vec![PropValue::I32(coord.1)]),
    ])
}

fn blender_doc(settings: Option<PropTable>) -> SceneDoc {
    SceneDoc {
        objects: vec![],
        creator: Some(String::from("Blender (stable FBX IO)")),
        application_name: Some(String::from("Blender (stable FBX IO)")),
        global_settings: settings,
    }
}

#[test]
fn axis_expected_convention_passes() {
    let doc = blender_doc(Some(axis_settings((2, 1), (1, 1), (0, -1))));
    assert_eq!(correct_coordinate_axis::verify(&doc), Vec::<String>::new());
}

#[test]
fn axis_wrong_convention_flags() {
    let doc = blender_doc(Some(axis_settings((1, 1), (2, 1), (0, 1))));
    let msgs = correct_coordinate_axis::verify(&doc);
    assert_eq!(
        msgs,
        vec![String::from(
            "File has incorrect Blender Coordinate Axis. Expected: [up (0, 0, 1) front \
             (0, 1, 0) coord (-1, 0, 0)] actual [up (0, 1, 0) front (0, 0, 1) coord (1, 0, 0)]"
        )]
    );
}

#[test]
fn axis_missing_or_malformed_properties_pass_silently() {
    // no settings at all
    assert_eq!(correct_coordinate_axis::verify(&blender_doc(None)), Vec::<String>::new());
    // sign out of range is malformed: no opinion
    let doc = blender_doc(Some(axis_settings((1, 1), (2, 3), (0, 1))));
    assert_eq!(correct_coordinate_axis::verify(&doc), Vec::<String>::new());
    // axis code out of range is malformed: no opinion
    let doc = blender_doc(Some(axis_settings((5, 1), (2, 1), (0, 1))));
    assert_eq!(correct_coordinate_axis::verify(&doc), Vec::<String>::new());
}

#[test]
fn axis_check_applies_only_to_blender_documents() {
    let mut doc = blender_doc(Some(axis_settings((1, 1), (2, 1), (0, 1))));
    doc.application_name = Some(String::from("Autodesk Maya 2019"));
    assert_eq!(correct_coordinate_axis::verify(&doc), Vec::<String>::new());
}

// ---- naming ----

#[test]
fn default_names_flag() {
    for name in ["Cube.001", "cylinder12", "Cylinder"] {
        assert!(mesh_naming::is_default_name(name), "{name}");
    }
    for name in ["Cube.", "Cube.x1", "cylinder", "CylinderA", "Crate", "cube.001"] {
        assert!(!mesh_naming::is_default_name(name), "{name}");
    }
    let doc = SceneDoc {
        objects: vec![
            SceneObject::Model(plain_model(1, 1, Some("Cube.042"))),
            SceneObject::Model(plain_model(2, 2, None)),
        ],
        ..empty_doc()
    };
    let msgs = mesh_naming::verify(&doc);
    assert_eq!(msgs.len(), 2);
    assert!(msgs[0].starts_with("The model [Cube.042] has a default name."));
    assert_eq!(msgs[1], "Model has no name");
}

// ---- binary gate ----

#[test]
fn binary_gate_accepts_binary_and_rejects_text() {
    // the real binary header starts with a NUL-bearing magic
    let binary = b"Kaydara FBX Binary  \x00\x1a\x00".to_vec();
    assert!(is_fbx_binary::verify(&binary));
    let text = b"; FBX 7.3.0 project file\nFBXHeaderExtension:  {\n".to_vec();
    assert!(!is_fbx_binary::verify(&text));
    // a UTF-16 byte order mark marks text even though NUL bytes follow
    let utf16 = b"\xff\xfeK\x00a\x00y\x00".to_vec();
    assert!(!is_fbx_binary::verify(&utf16));
    let empty: Vec<u8> = vec![];
    assert!(!is_fbx_binary::verify(&empty));
}

// ---- shared lookups ----

#[test]
fn application_name_classification() {
    let mk = |s: &str| SceneDoc { application_name: Some(String::from(s)), ..empty_doc() };
    assert_eq!(
        get_application_name(&mk("Blender (stable FBX IO)")),
        Some(ApplicationName::Blender)
    );
    assert_eq!(get_application_name(&mk("Autodesk Maya 2019")), Some(ApplicationName::Maya));
    assert_eq!(get_application_name(&mk("3ds Max 2020")), Some(ApplicationName::Max));
    assert_eq!(get_application_name(&mk("Houdini 18.5")), Some(ApplicationName::Houdini));
    assert_eq!(
        get_application_name(&mk("Modo")),
        Some(ApplicationName::UnknownApplication(String::from("Modo")))
    );
    assert_eq!(get_application_name(&empty_doc()), None);
}

#[test]
fn geo_name_prefers_own_name_then_referencing_model() {
    let mut m = plain_mesh(Some("own"));
    m.referencing_model_name = Some(String::from("parent"));
    assert_eq!(geo_name(&m), "own");
    let mut m = plain_mesh(None);
    m.referencing_model_name = Some(String::from("parent"));
    assert_eq!(geo_name(&m), "parent");
    assert_eq!(geo_name(&plain_mesh(None)), "No Name");
}

#[test]
fn model_roots_are_deduplicated_in_first_seen_order() {
    let doc = SceneDoc {
        objects: vec![
            SceneObject::Model(plain_model(1, 7, None)),
            SceneObject::Mesh(plain_mesh(None)),
            SceneObject::Model(plain_model(2, 7, None)),
            SceneObject::Model(plain_model(3, 9, None)),
        ],
        ..empty_doc()
    };
    assert_eq!(get_model_roots(&doc), vec![7, 9]);
}
