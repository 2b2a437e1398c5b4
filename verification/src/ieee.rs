//! IEEE 754 single-precision scalars as raw `u32` bit patterns.
//!
//! The engine's geometry is single-precision floating-point arithmetic, which
//! the verified code cannot evaluate natively. Every scalar is therefore
//! carried as the raw 32-bit pattern of an IEEE single-precision value, and
//! the four rounding arithmetic operations plus the square root are performed
//! by a software implementation of IEEE single precision through small
//! trusted wrappers. Each wrapper's result is named by an uninterpreted spec
//! function, so contracts throughout the crate state exactly which
//! operations are applied to which operands.
//!
//! Sign manipulation and the magnitude comparison against a non-negative
//! threshold need no rounding and are ordinary verified bit operations: the
//! IEEE encoding keeps the sign in bit 31, and for patterns with the sign bit
//! clear the unsigned order of the patterns agrees with the order of the
//! represented magnitudes, with every NaN pattern sitting above every finite
//! pattern.

use vstd::prelude::*;

use ieee_apsqrt::sqrt_accurate;
use rustc_apfloat::Float;
use rustc_apfloat::Round;
use rustc_apfloat::ieee::Single;

verus! {

/// Bit pattern of the IEEE single-precision value one.
pub const ONE_BITS: u32 = 0x3F80_0000;

/// Bit pattern of the IEEE single-precision value two.
pub const TWO_BITS: u32 = 0x4000_0000;

/// Bit pattern of the IEEE single-precision value zero with the sign clear.
pub const ZERO_BITS: u32 = 0x0000_0000;

/// Mask that clears the sign bit of a single-precision pattern.
pub const MAGNITUDE_MASK: u32 = 0x7FFF_FFFF;

/// Mask that flips the sign bit of a single-precision pattern.
pub const SIGN_MASK: u32 = 0x8000_0000;

/// The sum of two single-precision values, rounded to nearest even.
pub uninterp spec fn ieee_add(a: u32, b: u32) -> u32;

/// The difference of two single-precision values, rounded to nearest even.
pub uninterp spec fn ieee_sub(a: u32, b: u32) -> u32;

/// The product of two single-precision values, rounded to nearest even.
pub uninterp spec fn ieee_mul(a: u32, b: u32) -> u32;

/// The quotient of two single-precision values, rounded to nearest even.
pub uninterp spec fn ieee_div(a: u32, b: u32) -> u32;

/// The square root of a single-precision value, rounded to nearest even.
pub uninterp spec fn ieee_sqrt(a: u32) -> u32;

/// The pattern with the sign bit cleared: the magnitude of the value.
pub open spec fn abs_bits(x: u32) -> u32 {
    x & MAGNITUDE_MASK
}

/// The pattern with the sign bit flipped: the negated value.
pub open spec fn neg_bits(x: u32) -> u32 {
    x ^ SIGN_MASK
}

/// Whether the pattern encodes a finite value: the exponent field is not
/// all ones (all-ones exponents encode infinities and NaNs).
pub open spec fn is_finite_bits(x: u32) -> bool {
    (x >> 23u32) & 0xFFu32 != 0xFFu32
}

/// Relies on rustc_apfloat::ieee::Single::add: IEEE 754 single-precision
/// addition on raw bit patterns, rounded to nearest even.
#[verifier::external_body]
pub(crate) fn fadd(a: u32, b: u32) -> (r: u32)
    ensures
        r == ieee_add(a, b),
{
    let x = Single::from_bits(a as u128);
    let y = Single::from_bits(b as u128);
    x.add_r(y, Round::NearestTiesToEven).value.to_bits() as u32
}

/// Relies on rustc_apfloat::ieee::Single::sub: IEEE 754 single-precision
/// subtraction on raw bit patterns, rounded to nearest even. Subtracting a
/// finite value from itself yields the zero with the sign clear under this
/// rounding attribute.
#[verifier::external_body]
pub(crate) fn fsub(a: u32, b: u32) -> (r: u32)
    ensures
        r == ieee_sub(a, b),
        a == b && is_finite_bits(a) ==> r == ZERO_BITS,
{
    let x = Single::from_bits(a as u128);
    let y = Single::from_bits(b as u128);
    x.sub_r(y, Round::NearestTiesToEven).value.to_bits() as u32
}

/// Relies on rustc_apfloat::ieee::Single::mul: IEEE 754 single-precision
/// multiplication on raw bit patterns, rounded to nearest even.
#[verifier::external_body]
pub(crate) fn fmul(a: u32, b: u32) -> (r: u32)
    ensures
        r == ieee_mul(a, b),
{
    let x = Single::from_bits(a as u128);
    let y = Single::from_bits(b as u128);
    x.mul_r(y, Round::NearestTiesToEven).value.to_bits() as u32
}

/// Relies on rustc_apfloat::ieee::Single::div: IEEE 754 single-precision
/// division on raw bit patterns, rounded to nearest even.
#[verifier::external_body]
pub(crate) fn fdiv(a: u32, b: u32) -> (r: u32)
    ensures
        r == ieee_div(a, b),
{
    let x = Single::from_bits(a as u128);
    let y = Single::from_bits(b as u128);
    x.div_r(y, Round::NearestTiesToEven).value.to_bits() as u32
}

/// Relies on ieee_apsqrt::sqrt_accurate: correctly rounded IEEE 754
/// single-precision square root on raw bit patterns, rounded to nearest even.
#[verifier::external_body]
pub(crate) fn fsqrt(a: u32) -> (r: u32)
    ensures
        r == ieee_sqrt(a),
{
    sqrt_accurate(a, Round::NearestTiesToEven).0.value
}

/// The negated value: flips the sign bit, exactly as IEEE negation does.
pub(crate) fn fneg(x: u32) -> (r: u32)
    ensures
        r == neg_bits(x),
{
    x ^ SIGN_MASK
}

/// Whether the magnitude of `x` is strictly below the positive threshold
/// `t`, where `t` must be a finite pattern with the sign bit clear.
///
/// On patterns with the sign bit clear, unsigned order of the patterns is the
/// order of the represented magnitudes, every NaN pattern ordering above every
/// finite pattern; so this comparison returns exactly what the
/// single-precision comparison of the magnitude against the threshold would:
/// in particular it is false when `x` is a NaN or an infinity.
pub open spec fn magnitude_below(x: u32, t: u32) -> bool {
    abs_bits(x) < t
}

/// Compares the magnitude of `x` against a non-negative finite threshold.
pub(crate) fn magnitude_is_below(x: u32, t: u32) -> (r: bool)
    ensures
        r == magnitude_below(x, t),
{
    (x & MAGNITUDE_MASK) < t
}

} // verus!
