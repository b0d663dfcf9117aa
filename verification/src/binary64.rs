//! A plain-integer model of IEEE 754 binary64 values.
//!
//! A value is carried as its 64-bit pattern.  The functions here decide, from
//! the pattern alone, the questions the validation rules ask of a double:
//! whether it is a NaN, and how two non-NaN values are ordered.  The ordering
//! uses the classic sign-magnitude key: for patterns with the sign bit clear
//! the key is the pattern itself, for patterns with the sign bit set it is the
//! negated magnitude, so the two zero patterns share the key `0` and the key
//! order of two non-NaN patterns agrees with the numeric order of the doubles
//! they encode.

use vstd::prelude::*;

verus! {

/// The sign bit of a binary64 pattern.
pub const SIGN_BIT: u64 = 0x8000_0000_0000_0000;

/// Magnitude of the two infinity patterns; larger magnitudes are NaNs.
pub const ABS_INF_BITS: u64 = 0x7ff0_0000_0000_0000;

/// The pattern with the sign bit cleared: the magnitude of the encoded value.
pub open spec fn spec_abs_bits(b: u64) -> u64 {
    if b >= SIGN_BIT {
        (b - SIGN_BIT) as u64
    } else {
        b
    }
}

/// True when the pattern encodes a NaN (maximal exponent, non-zero fraction).
pub open spec fn spec_is_nan(b: u64) -> bool {
    spec_abs_bits(b) > ABS_INF_BITS
}

/// Order key of a pattern: non-NaN patterns compare under this key exactly as
/// the doubles they encode compare, and `-0.0` and `+0.0` share the key `0`.
pub open spec fn key(b: u64) -> int {
    if b >= SIGN_BIT {
        SIGN_BIT - b
    } else {
        b as int
    }
}

/// Clears the sign bit, yielding the magnitude pattern (`|x|`).
pub fn abs_bits(b: u64) -> (r: u64)
    ensures
        r == spec_abs_bits(b),
{
    if b >= SIGN_BIT {
        b - SIGN_BIT
    } else {
        b
    }
}

/// True when the pattern encodes a NaN.
pub fn is_nan_bits(b: u64) -> (r: bool)
    ensures
        r == spec_is_nan(b),
{
    abs_bits(b) > ABS_INF_BITS
}

/// Strict order of two patterns under [`key`].
pub fn lt_bits(a: u64, b: u64) -> (r: bool)
    ensures
        r == (key(a) < key(b)),
{
    if a >= SIGN_BIT {
        if b >= SIGN_BIT {
            a > b
        } else {
            // a is non-positive, b is non-negative; equal keys only when both
            // are zero patterns.
            !(a == SIGN_BIT && b == 0)
        }
    } else {
        if b >= SIGN_BIT {
            false
        } else {
            a < b
        }
    }
}

/// Non-strict order of two patterns under [`key`].
pub fn le_bits(a: u64, b: u64) -> (r: bool)
    ensures
        r == (key(a) <= key(b)),
{
    !lt_bits(b, a)
}

/// Key equality: bitwise equality, except that the two zero patterns are equal.
pub fn eq_bits(a: u64, b: u64) -> (r: bool)
    ensures
        r == (key(a) == key(b)),
{
    a == b || (a == SIGN_BIT && b == 0) || (a == 0 && b == SIGN_BIT)
}

} // verus!
