//! The rule registry: each submodule is one independent validator with a
//! `verify` function from the scene model to diagnostics.

pub mod bounding_box_size;
pub mod correct_coordinate_axis;
pub mod is_fbx_binary;
pub mod mesh_naming;
pub mod meshes_have_normals;
pub mod no_namespaces;
pub mod no_quads;
pub mod no_scale_compensation;
pub mod root_has_identity_transform;
pub mod units_are_in_meters;
