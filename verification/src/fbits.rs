//! Scalars as IEEE 754 single-precision bit patterns.
//!
//! Every scalar this library touches is the 32-bit pattern of an IEEE 754
//! single-precision value, held in a `u32`.  The four rounding arithmetic
//! operations are carried out by `rustc_apfloat`, a software implementation
//! of the format, so each of them is a pure function of the operand bit
//! patterns; the library names those functions and reasons about them
//! symbolically.  Sign manipulation and ordering are defined by the format
//! itself and are implemented and specified here directly.

use rustc_apfloat::Float;
use vstd::prelude::*;

verus! {

// Bit patterns of the constants the library uses, written as the format lays
// them out: sign bit, 8 exponent bits, 23 fraction bits.
/// 0.0
pub const F32_ZERO_BITS: u32 = 0x0000_0000;
/// 1.0
pub const F32_ONE_BITS: u32 = 0x3F80_0000;
/// -1.0
pub const F32_NEG_ONE_BITS: u32 = 0xBF80_0000;
/// 2.0
pub const F32_TWO_BITS: u32 = 0x4000_0000;
/// 0.5
pub const F32_HALF_BITS: u32 = 0x3F00_0000;
/// 2^-23, the gap between 1.0 and the next representable value
pub const F32_EPSILON_BITS: u32 = 0x3400_0000;

/// The bits of the value with the sign bit cleared.
pub open spec fn abs_bits(a: u32) -> u32 {
    a % 0x8000_0000u32
}

/// The sign bit is set.
pub open spec fn is_neg_bits(a: u32) -> bool {
    a >= 0x8000_0000u32
}

/// Exponent field all ones and fraction field not zero: a NaN.
pub open spec fn is_nan_bits(a: u32) -> bool {
    abs_bits(a) > 0x7F80_0000u32
}

/// Exponent field all ones and fraction field zero: an infinity.
pub open spec fn is_inf_bits(a: u32) -> bool {
    abs_bits(a) == 0x7F80_0000u32
}

/// Zero, subnormal or normal: neither an infinity nor a NaN.
pub open spec fn is_finite_bits(a: u32) -> bool {
    abs_bits(a) < 0x7F80_0000u32
}

/// The pattern with the sign bit flipped; IEEE 754 negation is exactly this.
pub open spec fn neg_bits(a: u32) -> u32 {
    if a >= 0x8000_0000u32 {
        (a - 0x8000_0000u32) as u32
    } else {
        (a + 0x8000_0000u32) as u32
    }
}

/// The `<` ordering of the format: false whenever either side is a NaN,
/// the two zeros are equal, and magnitudes order negatives in reverse.
pub open spec fn spec_f32_lt(a: u32, b: u32) -> bool {
    if is_nan_bits(a) || is_nan_bits(b) {
        false
    } else if is_neg_bits(a) != is_neg_bits(b) {
        is_neg_bits(a) && !(abs_bits(a) == 0 && abs_bits(b) == 0)
    } else if !is_neg_bits(a) {
        abs_bits(a) < abs_bits(b)
    } else {
        abs_bits(a) > abs_bits(b)
    }
}

/// The `==` relation of the format: NaN equals nothing, the two zeros are
/// equal, and every other value equals only its own pattern.
pub open spec fn spec_f32_eq(a: u32, b: u32) -> bool {
    !is_nan_bits(a) && !is_nan_bits(b) && (a == b || (abs_bits(a) == 0 && abs_bits(b) == 0))
}

/// The `<=` ordering of the format.
pub open spec fn spec_f32_le(a: u32, b: u32) -> bool {
    spec_f32_lt(a, b) || spec_f32_eq(a, b)
}

/// What the sum of two single-precision values rounds to, with ties to even.
pub uninterp spec fn add_bits(a: u32, b: u32) -> u32;

/// What the difference of two single-precision values rounds to.
pub uninterp spec fn sub_bits(a: u32, b: u32) -> u32;

/// What the product of two single-precision values rounds to.
pub uninterp spec fn mul_bits(a: u32, b: u32) -> u32;

/// What the quotient of two single-precision values rounds to.
pub uninterp spec fn div_bits(a: u32, b: u32) -> u32;

/// Relies on `rustc_apfloat::ieee::Single::add_r` with round-to-nearest-even:
/// a software IEEE 754 single-precision addition, a pure function of the two
/// operand bit patterns.  The standard makes a sum with a zero exact, so it
/// returns the other operand unchanged when that operand is not itself a
/// zero; and the sum of two zeros is a zero, negative exactly when both
/// operands are.
#[verifier::external_body]
pub(crate) fn f32_add(a: u32, b: u32) -> (r: u32)
    ensures
        r == add_bits(a, b),
        abs_bits(b) == 0 && !is_nan_bits(a) && abs_bits(a) != 0 ==> r == a,
        abs_bits(a) == 0 && !is_nan_bits(b) && abs_bits(b) != 0 ==> r == b,
        abs_bits(a) == 0 && abs_bits(b) == 0 ==> abs_bits(r) == 0 && (is_neg_bits(r) == (
        is_neg_bits(a) && is_neg_bits(b))),
{
    let x = rustc_apfloat::ieee::Single::from_bits(a as u128);
    let y = rustc_apfloat::ieee::Single::from_bits(b as u128);
    x.add_r(y, rustc_apfloat::Round::NearestTiesToEven).value.to_bits() as u32
}

/// Relies on `rustc_apfloat::ieee::Single::sub_r` with round-to-nearest-even:
/// a software IEEE 754 single-precision subtraction, a pure function of the
/// two operand bit patterns.
#[verifier::external_body]
pub(crate) fn f32_sub(a: u32, b: u32) -> (r: u32)
    ensures
        r == sub_bits(a, b),
{
    let x = rustc_apfloat::ieee::Single::from_bits(a as u128);
    let y = rustc_apfloat::ieee::Single::from_bits(b as u128);
    x.sub_r(y, rustc_apfloat::Round::NearestTiesToEven).value.to_bits() as u32
}

/// Relies on `rustc_apfloat::ieee::Single::mul_r` with round-to-nearest-even:
/// a software IEEE 754 single-precision multiplication, a pure function of
/// the two operand bit patterns.  The standard makes a product with one
/// exact, so it returns the other operand unchanged when that operand is
/// not a NaN; and a product with a zero, the other operand finite, is a
/// zero whose sign is the two signs combined.
#[verifier::external_body]
pub(crate) fn f32_mul(a: u32, b: u32) -> (r: u32)
    ensures
        r == mul_bits(a, b),
        b == F32_ONE_BITS && !is_nan_bits(a) ==> r == a,
        a == F32_ONE_BITS && !is_nan_bits(b) ==> r == b,
        abs_bits(b) == 0 && is_finite_bits(a) ==> abs_bits(r) == 0 && (is_neg_bits(r) == (
        is_neg_bits(a) != is_neg_bits(b))),
        abs_bits(a) == 0 && is_finite_bits(b) ==> abs_bits(r) == 0 && (is_neg_bits(r) == (
        is_neg_bits(a) != is_neg_bits(b))),
{
    let x = rustc_apfloat::ieee::Single::from_bits(a as u128);
    let y = rustc_apfloat::ieee::Single::from_bits(b as u128);
    x.mul_r(y, rustc_apfloat::Round::NearestTiesToEven).value.to_bits() as u32
}

/// Relies on `rustc_apfloat::ieee::Single::div_r` with round-to-nearest-even:
/// a software IEEE 754 single-precision division, a pure function of the two
/// operand bit patterns.
#[verifier::external_body]
pub(crate) fn f32_div(a: u32, b: u32) -> (r: u32)
    ensures
        r == div_bits(a, b),
{
    let x = rustc_apfloat::ieee::Single::from_bits(a as u128);
    let y = rustc_apfloat::ieee::Single::from_bits(b as u128);
    x.div_r(y, rustc_apfloat::Round::NearestTiesToEven).value.to_bits() as u32
}

/// Negation: flip the sign bit, leaving exponent and fraction untouched.
pub fn f32_neg(a: u32) -> (r: u32)
    ensures
        r == neg_bits(a),
{
    if a >= 0x8000_0000u32 {
        a - 0x8000_0000u32
    } else {
        a + 0x8000_0000u32
    }
}

/// The `<` ordering of the format, decided on the bit patterns.
pub fn f32_lt(a: u32, b: u32) -> (r: bool)
    ensures
        r == spec_f32_lt(a, b),
{
    let mag_a = a % 0x8000_0000u32;
    let mag_b = b % 0x8000_0000u32;
    if mag_a > 0x7F80_0000u32 || mag_b > 0x7F80_0000u32 {
        false
    } else if (a >= 0x8000_0000u32) != (b >= 0x8000_0000u32) {
        a >= 0x8000_0000u32 && !(mag_a == 0 && mag_b == 0)
    } else if a < 0x8000_0000u32 {
        mag_a < mag_b
    } else {
        mag_a > mag_b
    }
}

/// The `<=` ordering of the format, decided on the bit patterns.
pub fn f32_le(a: u32, b: u32) -> (r: bool)
    ensures
        r == spec_f32_le(a, b),
{
    let mag_a = a % 0x8000_0000u32;
    let mag_b = b % 0x8000_0000u32;
    if mag_a > 0x7F80_0000u32 || mag_b > 0x7F80_0000u32 {
        false
    } else if a == b || (mag_a == 0 && mag_b == 0) {
        true
    } else {
        f32_lt(a, b)
    }
}

} // verus!
