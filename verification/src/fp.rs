//! Arithmetic on IEEE-754 binary64 bit patterns.
//!
//! Every scalar of the simulation (mass, coordinate, velocity component,
//! force component, simulated time) is carried as the 64-bit pattern of a
//! double-precision value. The arithmetic itself is done by the
//! `const_soft_float` crate, which implements the IEEE-754 binary64
//! operations as pure bit-level functions, so repeated runs on any
//! machine give the same bit patterns. Each operation the engine needs is
//! one trusted wrapper here; the bit pattern it returns is given a name
//! by an uninterpreted spec function, so that contracts elsewhere can pin
//! every intermediate value of the integration down exactly, operation by
//! operation.

use vstd::prelude::*;
use const_soft_float::soft_f64::SoftF64;

verus! {

/// Bit pattern of the binary64 sum of the values with patterns `a` and `b`.
pub uninterp spec fn add_bits(a: u64, b: u64) -> u64;

/// Bit pattern of the binary64 difference of the values with patterns `a` and `b`.
pub uninterp spec fn sub_bits(a: u64, b: u64) -> u64;

/// Bit pattern of the binary64 product of the values with patterns `a` and `b`.
pub uninterp spec fn mul_bits(a: u64, b: u64) -> u64;

/// Bit pattern of the binary64 quotient of the values with patterns `a` and `b`.
pub uninterp spec fn div_bits(a: u64, b: u64) -> u64;

/// Bit pattern of the binary64 square root of the value with pattern `a`.
pub uninterp spec fn sqrt_bits(a: u64) -> u64;

/// Whether `a` is the pattern of a finite value: the exponent field is
/// not saturated (a saturated exponent encodes an infinity or a NaN).
pub open spec fn is_finite_bits(a: u64) -> bool {
    (a >> 52) & 0x7ff != 0x7ff
}

/// Runtime check matching [`is_finite_bits`] exactly.
pub fn is_finite(a: u64) -> (r: bool)
    ensures
        r == is_finite_bits(a),
{
    ((a >> 52) & 0x7ff) != 0x7ff
}

/// Relies on `const_soft_float::soft_f64::SoftF64::add`: IEEE-754
/// binary64 addition (round to nearest, ties to even) on bit patterns;
/// the sum of two positive zeros is positive zero (all bits clear).
#[verifier::external_body]
pub(crate) fn fadd(a: u64, b: u64) -> (r: u64)
    ensures
        r == add_bits(a, b),
        a == 0 && b == 0 ==> r == 0,
{
    SoftF64::from_bits(a).add(SoftF64::from_bits(b)).to_bits()
}

/// Relies on `const_soft_float::soft_f64::SoftF64::sub`: IEEE-754
/// binary64 subtraction on bit patterns; subtracting a finite value from
/// itself cancels exactly and returns positive zero (all bits clear).
#[verifier::external_body]
pub(crate) fn fsub(a: u64, b: u64) -> (r: u64)
    ensures
        r == sub_bits(a, b),
        a == b && is_finite_bits(a) ==> r == 0,
{
    SoftF64::from_bits(a).sub(SoftF64::from_bits(b)).to_bits()
}

/// Relies on `const_soft_float::soft_f64::SoftF64::mul`: IEEE-754
/// binary64 multiplication on bit patterns; the product of two positive
/// zeros is positive zero (all bits clear).
#[verifier::external_body]
pub(crate) fn fmul(a: u64, b: u64) -> (r: u64)
    ensures
        r == mul_bits(a, b),
        a == 0 && b == 0 ==> r == 0,
{
    SoftF64::from_bits(a).mul(SoftF64::from_bits(b)).to_bits()
}

/// Relies on `const_soft_float::soft_f64::SoftF64::div`: IEEE-754
/// binary64 division on bit patterns.
#[verifier::external_body]
pub(crate) fn fdiv(a: u64, b: u64) -> (r: u64)
    ensures
        r == div_bits(a, b),
{
    SoftF64::from_bits(a).div(SoftF64::from_bits(b)).to_bits()
}

/// Relies on `const_soft_float::soft_f64::SoftF64::sqrt`: IEEE-754
/// binary64 square root on bit patterns.
#[verifier::external_body]
pub(crate) fn fsqrt(a: u64) -> (r: u64)
    ensures
        r == sqrt_bits(a),
{
    SoftF64::from_bits(a).sqrt().to_bits()
}

/// The signed 32-bit integer nearest to the value with pattern `a` (ties
/// away from zero), saturated to the `i32` range, 0 for NaN.
pub uninterp spec fn round_i32_bits(a: u64) -> i32;

/// Relies on `const_soft_float::soft_f64::SoftF64::round` (round to the
/// nearest integer, ties away from zero) and on Rust's saturating cast
/// from a double to `i32` (NaN casts to 0).
#[verifier::external_body]
pub(crate) fn fround_i32(a: u64) -> (r: i32)
    ensures
        r == round_i32_bits(a),
{
    SoftF64::from_bits(a).round().0 as i32
}

} // verus!
