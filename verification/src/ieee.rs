//! IEEE-754 binary64 values as bit patterns.
//!
//! Verus has no floating-point support, so a double is carried here as the
//! `u64` holding its interchange-format bits. Classification (NaN, infinity)
//! is ordinary integer logic on that pattern and is verified; the one
//! operation the library needs, addition, is performed by `rustc_apfloat`
//! behind a trusted wrapper.

use vstd::prelude::*;
use rustc_apfloat::Float;

verus! {

/// Bit pattern of +0.0.
pub const POS_ZERO_BITS: u64 = 0;

/// Bit pattern of -0.0: only the sign bit set.
pub const NEG_ZERO_BITS: u64 = 0x8000_0000_0000_0000;

/// Bit pattern of +infinity: exponent all ones, significand zero, sign clear.
pub const POS_INF_BITS: u64 = 0x7FF0_0000_0000_0000;

/// Bit pattern of -infinity: exponent all ones, significand zero, sign set.
pub const NEG_INF_BITS: u64 = 0xFFF0_0000_0000_0000;

/// The sign bit of the binary64 interchange format.
pub const SIGN_BIT: u64 = 0x8000_0000_0000_0000;

/// The bit pattern with its sign bit cleared.
pub open spec fn abs_bits(b: u64) -> u64 {
    if b >= SIGN_BIT {
        (b - SIGN_BIT) as u64
    } else {
        b
    }
}

/// Whether the pattern encodes a NaN: exponent all ones and significand
/// nonzero, i.e. strictly above an infinity once the sign is cleared.
pub open spec fn is_nan_bits(b: u64) -> bool {
    abs_bits(b) > POS_INF_BITS
}

/// Tests whether a binary64 bit pattern encodes a NaN.
pub fn is_nan(b: u64) -> (r: bool)
    ensures
        r == is_nan_bits(b),
{
    let a: u64 = if b >= SIGN_BIT {
        b - SIGN_BIT
    } else {
        b
    };
    a > POS_INF_BITS
}

/// The bit pattern of the IEEE-754 binary64 sum of the two doubles encoded by
/// `a` and `b`, rounded to nearest, ties to even.
pub uninterp spec fn add_bits(a: u64, b: u64) -> u64;

/// Relies on rustc_apfloat's `IeeeFloat::<DoubleS>::add_r` (reached through
/// `ops::Add`, which rounds to nearest, ties to even): IEEE-754 binary64
/// addition on interchange-format bits, a function of the two operands alone.
/// Its special cases are explicit in that source: an operand that is a NaN
/// gives a NaN; infinities of opposite sign give a NaN; an infinity beside
/// any operand that is neither a NaN nor the opposite infinity is returned
/// unchanged; +0.0 beside any operand that is neither a NaN nor -0.0 gives
/// that operand unchanged, and +0.0 plus -0.0 is +0.0 under rounding to
/// nearest.
#[verifier::external_body]
pub(crate) fn ieee_add(a: u64, b: u64) -> (r: u64)
    ensures
        r == add_bits(a, b),
        is_nan_bits(a) || is_nan_bits(b) ==> is_nan_bits(r),
        (a == POS_INF_BITS && b == NEG_INF_BITS) ==> is_nan_bits(r),
        (a == NEG_INF_BITS && b == POS_INF_BITS) ==> is_nan_bits(r),
        (a == POS_INF_BITS && !is_nan_bits(b) && b != NEG_INF_BITS) ==> r == POS_INF_BITS,
        (b == POS_INF_BITS && !is_nan_bits(a) && a != NEG_INF_BITS) ==> r == POS_INF_BITS,
        (a == NEG_INF_BITS && !is_nan_bits(b) && b != POS_INF_BITS) ==> r == NEG_INF_BITS,
        (b == NEG_INF_BITS && !is_nan_bits(a) && a != POS_INF_BITS) ==> r == NEG_INF_BITS,
        (a == POS_ZERO_BITS && !is_nan_bits(b) && b != NEG_ZERO_BITS) ==> r == b,
        (a == POS_ZERO_BITS && b == NEG_ZERO_BITS) ==> r == POS_ZERO_BITS,
{
    let x = rustc_apfloat::ieee::Double::from_bits(a as u128);
    let y = rustc_apfloat::ieee::Double::from_bits(b as u128);
    (x + y).value.to_bits() as u64
}

} // verus!
