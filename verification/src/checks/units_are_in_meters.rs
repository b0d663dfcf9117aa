//! Checks the document's unit scale factor.
//!
//! The unit scale factor is centimeters per unit.  Two applications export a
//! centimeters convention by design and are expected to report `1`; every
//! other (or unknown) application is expected to report `100`, meters as the
//! base unit.  A missing settings block, a missing property, or an empty value
//! each yield a distinct "units indeterminate" diagnostic.

use vstd::prelude::*;

use crate::binary64::{key, spec_is_nan, eq_bits, is_nan_bits};
use crate::scene::{PropValue, SceneDoc};
use crate::utils::{get_application_name, spec_application_name, ApplicationName};

verus! {

/// Bit pattern of the binary64 value one.
pub const ONE_BITS: u64 = 0x3ff0_0000_0000_0000;

/// Bit pattern of the binary64 value one hundred.
pub const HUNDRED_BITS: u64 = 0x4059_0000_0000_0000;

/// The expected unit scale factor, as a bit pattern: `1` for the two
/// centimeters-convention applications, `100` for everything else.
pub open spec fn spec_expected_bits(doc: SceneDoc) -> u64 {
    match spec_application_name(doc) {
        Option::Some(ApplicationName::Maya) => ONE_BITS,
        Option::Some(ApplicationName::Houdini) => ONE_BITS,
        _ => HUNDRED_BITS,
    }
}

/// The display rendering of the expected unit scale factor.
pub open spec fn spec_expected_text(doc: SceneDoc) -> Seq<char> {
    if spec_expected_bits(doc) == ONE_BITS {
        "1"@
    } else {
        "100"@
    }
}

/// The diagnostic for a unit scale factor other than the expected one.
pub open spec fn spec_mismatch_message(unit_text: Seq<char>, expected_text: Seq<char>)
    -> Seq<char> {
    "File is not in the correct units. Units: "@ + unit_text + "cm. Should be "@ + expected_text
        + "cm."@
}

/// All unit diagnostics.  The stored factor matches the expected one exactly
/// (binary64 equality); a non-numeric value passes silently.
pub open spec fn spec_diagnostics(doc: SceneDoc) -> Seq<Seq<char>> {
    match doc.global_settings {
        Option::None => seq!["File has no units. (No GlobalSettings)"@],
        Option::Some(settings) => match settings.spec_get("UnitScaleFactor"@) {
            Option::None => seq!["File has no units. (No UnitScaleFactor)"@],
            Option::Some(vals) => if vals.len() == 0 {
                seq!["File has no units. (No Unit Value)"@]
            } else {
                match vals[0] {
                    PropValue::F64(v) => if spec_is_nan(v.bits) || key(v.bits) != key(
                        spec_expected_bits(doc),
                    ) {
                        seq![spec_mismatch_message(v.text@, spec_expected_text(doc))]
                    } else {
                        Seq::empty()
                    },
                    _ => Seq::empty(),
                }
            },
        },
    }
}

/// Compares the document's unit scale factor against the convention expected
/// of its authoring application.
pub fn verify(doc: &SceneDoc) -> (r: Vec<String>)
    ensures
        r.deep_view() == spec_diagnostics(*doc),
{
    let expected_bits: u64;
    let expected_text: &str;
    match get_application_name(doc) {
        Option::Some(ApplicationName::Maya) | Option::Some(ApplicationName::Houdini) => {
            expected_bits = ONE_BITS;
            expected_text = "1";
        },
        _ => {
            expected_bits = HUNDRED_BITS;
            expected_text = "100";
        },
    }
    let mut r: Vec<String> = Vec::new();
    match &doc.global_settings {
        Option::None => {
            r.push(String::from_str("File has no units. (No GlobalSettings)"));
        },
        Option::Some(settings) => {
            match settings.get("UnitScaleFactor") {
                Option::None => {
                    r.push(String::from_str("File has no units. (No UnitScaleFactor)"));
                },
                Option::Some(p) => {
                    if p.values.len() == 0 {
                        r.push(String::from_str("File has no units. (No Unit Value)"));
                    } else {
                        match &p.values[0] {
                            PropValue::F64(v) => {
                                if is_nan_bits(v.bits) || !eq_bits(v.bits, expected_bits) {
                                    let mut msg = String::from_str(
                                        "File is not in the correct units. Units: ",
                                    );
                                    msg.append(v.text.as_str());
                                    msg.append("cm. Should be ");
                                    msg.append(expected_text);
                                    msg.append("cm.");
                                    proof {
                                        assert(msg@ =~= spec_mismatch_message(
                                            v.text@,
                                            spec_expected_text(*doc),
                                        ));
                                    }
                                    r.push(msg);
                                }
                            },
                            _ => {},
                        }
                    }
                },
            }
        },
    }
    proof {
        assert(r.deep_view() =~= spec_diagnostics(*doc));
    }
    r
}

} // verus!
