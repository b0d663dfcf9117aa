//! Checks the coordinate-axis convention of one known exporter.
//!
//! The check applies only when the document was last saved by that exporter.
//! Each of the three axis properties is an axis code in `{0, 1, 2}` with a
//! sign in `{+1, -1}`, mapped to a signed unit basis vector; the resulting
//! `up`/`front`/`coord` triple must equal one fixed convention.  Any missing
//! or malformed property means "no opinion" and the check passes silently.

use vstd::prelude::*;

use crate::scene::{PropTable, PropValue, SceneDoc};
use crate::strutil::{decimal_i32, spec_decimal_signed};
use crate::utils::{get_application_name, spec_application_name, ApplicationName};

verus! {

/// A signed unit basis vector with integer components.
#[derive(PartialEq, Eq, Structural, Clone, Copy, Debug)]
pub struct Axis3 {
    pub x: i32,
    pub y: i32,
    pub z: i32,
}

/// The `up`/`front`/`coord` axis triple of a document.
#[derive(PartialEq, Eq, Structural, Clone, Copy, Debug)]
pub struct CoordinateAxes {
    pub up: Axis3,
    pub front: Axis3,
    pub coord: Axis3,
}

/// The one convention the exporter is expected to write.
pub open spec fn spec_expected_axes() -> CoordinateAxes {
    CoordinateAxes {
        up: Axis3 { x: 0, y: 0, z: 1 },
        front: Axis3 { x: 0, y: 1, z: 0 },
        coord: Axis3 { x: -1i32, y: 0, z: 0 },
    }
}

/// The unit vector for axis code `axis` (0, 1 or 2) with the given sign.
pub open spec fn spec_unit_vector(axis: i32, sign: i32) -> Axis3 {
    if axis == 0 {
        Axis3 { x: sign, y: 0, z: 0 }
    } else if axis == 1 {
        Axis3 { x: 0, y: sign, z: 0 }
    } else {
        Axis3 { x: 0, y: 0, z: sign }
    }
}

/// The first value of the property, when it is present and a 32-bit integer.
pub open spec fn spec_i32_prop(settings: PropTable, prop: Seq<char>) -> Option<i32> {
    match settings.spec_get(prop) {
        Option::Some(vals) => if vals.len() > 0 {
            match vals[0] {
                PropValue::I32(v) => Option::Some(v),
                _ => Option::None,
            }
        } else {
            Option::None
        },
        Option::None => Option::None,
    }
}

/// The basis vector described by an axis property and its sign property:
/// `None` when either is missing or malformed (axis code outside `{0, 1, 2}`
/// or sign outside `{+1, -1}`).
pub open spec fn spec_axis(settings: PropTable, axis_prop: Seq<char>, sign_prop: Seq<char>)
    -> Option<Axis3> {
    match (spec_i32_prop(settings, axis_prop), spec_i32_prop(settings, sign_prop)) {
        (Option::Some(axis), Option::Some(sign)) => if 0 <= axis <= 2 && (sign == 1 || sign
            == -1) {
            Option::Some(spec_unit_vector(axis, sign))
        } else {
            Option::None
        },
        _ => Option::None,
    }
}

/// The document's axis triple, when all three axis properties are readable.
pub open spec fn spec_coordinate_axes(settings: PropTable) -> Option<CoordinateAxes> {
    match (
        spec_axis(settings, "UpAxis"@, "UpAxisSign"@),
        spec_axis(settings, "FrontAxis"@, "FrontAxisSign"@),
        spec_axis(settings, "CoordAxis"@, "CoordAxisSign"@),
    ) {
        (Option::Some(up), Option::Some(front), Option::Some(coord)) => Option::Some(
            CoordinateAxes { up, front, coord },
        ),
        _ => Option::None,
    }
}

/// The display rendering of one axis vector.
pub open spec fn spec_render_axis(a: Axis3) -> Seq<char> {
    "("@ + spec_decimal_signed(a.x as int) + ", "@ + spec_decimal_signed(a.y as int) + ", "@
        + spec_decimal_signed(a.z as int) + ")"@
}

/// The display rendering of an axis triple.
pub open spec fn spec_render_axes(t: CoordinateAxes) -> Seq<char> {
    "up "@ + spec_render_axis(t.up) + " front "@ + spec_render_axis(t.front) + " coord "@
        + spec_render_axis(t.coord)
}

/// The diagnostic for a triple other than the expected convention.
pub open spec fn spec_message(actual: CoordinateAxes) -> Seq<char> {
    "File has incorrect Blender Coordinate Axis. Expected: ["@ + spec_render_axes(
        spec_expected_axes(),
    ) + "] actual ["@ + spec_render_axes(actual) + "]"@
}

/// All axis diagnostics: one mismatch message when the check applies, the
/// settings are readable, and the triple is not the expected convention.
pub open spec fn spec_diagnostics(doc: SceneDoc) -> Seq<Seq<char>> {
    if spec_application_name(doc) == Option::Some(ApplicationName::Blender) {
        match doc.global_settings {
            Option::Some(settings) => match spec_coordinate_axes(settings) {
                Option::Some(axes) => if axes == spec_expected_axes() {
                    Seq::empty()
                } else {
                    seq![spec_message(axes)]
                },
                Option::None => Seq::empty(),
            },
            Option::None => Seq::empty(),
        }
    } else {
        Seq::empty()
    }
}

/// Reads one axis/sign property pair as a basis vector.
fn get_axis(settings: &PropTable, axis_prop: &str, sign_prop: &str) -> (r: Option<Axis3>)
    ensures
        r == spec_axis(*settings, axis_prop@, sign_prop@),
{
    let axis = match get_i32_prop(settings, axis_prop) {
        Option::Some(v) => v,
        Option::None => {
            return None;
        },
    };
    let sign = match get_i32_prop(settings, sign_prop) {
        Option::Some(v) => v,
        Option::None => {
            return None;
        },
    };
    if !(0 <= axis && axis <= 2 && (sign == 1 || sign == -1)) {
        return None;
    }
    if axis == 0 {
        Some(Axis3 { x: sign, y: 0, z: 0 })
    } else if axis == 1 {
        Some(Axis3 { x: 0, y: sign, z: 0 })
    } else {
        Some(Axis3 { x: 0, y: 0, z: sign })
    }
}

/// Reads the first value of a property when it is a 32-bit integer.
fn get_i32_prop(settings: &PropTable, prop: &str) -> (r: Option<i32>)
    ensures
        r == spec_i32_prop(*settings, prop@),
{
    match settings.get(prop) {
        Option::Some(p) => {
            if p.values.len() > 0 {
                match &p.values[0] {
                    PropValue::I32(v) => Some(*v),
                    _ => None,
                }
            } else {
                None
            }
        },
        Option::None => None,
    }
}

/// Renders one axis vector for a diagnostic.
fn render_axis(a: &Axis3) -> (r: String)
    ensures
        r@ == spec_render_axis(*a),
{
    let mut s = String::from_str("(");
    s.append(decimal_i32(a.x).as_str());
    s.append(", ");
    s.append(decimal_i32(a.y).as_str());
    s.append(", ");
    s.append(decimal_i32(a.z).as_str());
    s.append(")");
    proof {
        assert(s@ =~= spec_render_axis(*a));
    }
    s
}

/// Renders an axis triple for a diagnostic.
fn render_axes(t: &CoordinateAxes) -> (r: String)
    ensures
        r@ == spec_render_axes(*t),
{
    let mut s = String::from_str("up ");
    s.append(render_axis(&t.up).as_str());
    s.append(" front ");
    s.append(render_axis(&t.front).as_str());
    s.append(" coord ");
    s.append(render_axis(&t.coord).as_str());
    proof {
        assert(s@ =~= spec_render_axes(*t));
    }
    s
}

/// Verifies the axis convention of documents saved by the one exporter this
/// check knows; every other document passes silently.
pub fn verify(doc: &SceneDoc) -> (r: Vec<String>)
    ensures
        r.deep_view() == spec_diagnostics(*doc),
{
    let mut r: Vec<String> = Vec::new();
    let applies = match get_application_name(doc) {
        Option::Some(ApplicationName::Blender) => true,
        _ => false,
    };
    if applies {
        if let Option::Some(settings) = &doc.global_settings {
            let up = get_axis(settings, "UpAxis", "UpAxisSign");
            let front = get_axis(settings, "FrontAxis", "FrontAxisSign");
            let coord = get_axis(settings, "CoordAxis", "CoordAxisSign");
            if let (Option::Some(up), Option::Some(front), Option::Some(coord)) = (
                up,
                front,
                coord,
            ) {
                let axes = CoordinateAxes { up, front, coord };
                let expected = CoordinateAxes {
                    up: Axis3 { x: 0, y: 0, z: 1 },
                    front: Axis3 { x: 0, y: 1, z: 0 },
                    coord: Axis3 { x: -1, y: 0, z: 0 },
                };
                if !(axes == expected) {
                    let mut msg = String::from_str(
                        "File has incorrect Blender Coordinate Axis. Expected: [",
                    );
                    msg.append(render_axes(&expected).as_str());
                    msg.append("] actual [");
                    msg.append(render_axes(&axes).as_str());
                    msg.append("]");
                    proof {
                        assert(msg@ =~= spec_message(axes));
                    }
                    r.push(msg);
                }
            }
        }
    }
    proof {
        assert(r.deep_view() =~= spec_diagnostics(*doc));
    }
    r
}

} // verus!
