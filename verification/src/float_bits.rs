//! The trusted boundary around IEEE-754 binary32 arithmetic. Every
//! floating-point value in this crate is carried as its raw 32-bit bit
//! pattern (`u32`); the functions here are the only places where a float is
//! formed, by calling the pure-integer IEEE-754 implementation of the
//! `rustc_apfloat` crate. Each operation is a function of the operand bit
//! patterns alone, so its result is given a name by an uninterpreted spec
//! function rather than restating IEEE-754 arithmetic.

use vstd::prelude::*;
use rustc_apfloat::Float;

verus! {

/// Bit pattern of the IEEE-754 sum of the floats with bit patterns `a` and `b`.
pub uninterp spec fn fadd_bits(a: u32, b: u32) -> u32;

/// Bit pattern of the IEEE-754 difference `a - b`, both operands given by bit pattern.
pub uninterp spec fn fsub_bits(a: u32, b: u32) -> u32;

/// Bit pattern of the IEEE-754 product of the floats with bit patterns `a` and `b`.
pub uninterp spec fn fmul_bits(a: u32, b: u32) -> u32;

/// Bit pattern of the IEEE-754 quotient `a / b`, both operands given by bit pattern.
pub uninterp spec fn fdiv_bits(a: u32, b: u32) -> u32;

/// Bit pattern of the float nearest to the signed integer `v` (ties to even).
pub uninterp spec fn int_to_float_bits(v: i32) -> u32;

/// The float with bit pattern `a` truncated toward zero to a signed integer,
/// saturating at the integer range, with zero for a NaN.
pub uninterp spec fn float_bits_to_int(a: u32) -> i32;

/// Bit pattern of the float nearest to the unsigned word `w` (ties to even).
pub uninterp spec fn word_to_float_bits(w: u32) -> u32;

/// Relies on `rustc_apfloat::ieee::Single`'s `Add` impl (`add_r`, rounding
/// ties to even): IEEE-754 binary32 addition, a function of the operand bits.
#[verifier::external_body]
pub(crate) fn fadd(a: u32, b: u32) -> (r: u32)
    ensures
        r == fadd_bits(a, b),
{
    let x = rustc_apfloat::ieee::Single::from_bits(a as u128);
    let y = rustc_apfloat::ieee::Single::from_bits(b as u128);
    (x + y).value.to_bits() as u32
}

/// Relies on `rustc_apfloat::ieee::Single`'s `Sub` impl (`sub_r`, rounding
/// ties to even): IEEE-754 binary32 subtraction, a function of the operand bits.
#[verifier::external_body]
pub(crate) fn fsub(a: u32, b: u32) -> (r: u32)
    ensures
        r == fsub_bits(a, b),
{
    let x = rustc_apfloat::ieee::Single::from_bits(a as u128);
    let y = rustc_apfloat::ieee::Single::from_bits(b as u128);
    (x - y).value.to_bits() as u32
}

/// Relies on `rustc_apfloat::ieee::Single`'s `Mul` impl (`mul_r`, rounding
/// ties to even): IEEE-754 binary32 multiplication, a function of the operand bits.
#[verifier::external_body]
pub(crate) fn fmul(a: u32, b: u32) -> (r: u32)
    ensures
        r == fmul_bits(a, b),
{
    let x = rustc_apfloat::ieee::Single::from_bits(a as u128);
    let y = rustc_apfloat::ieee::Single::from_bits(b as u128);
    (x * y).value.to_bits() as u32
}

/// Relies on `rustc_apfloat::ieee::Single`'s `Div` impl (`div_r`, rounding
/// ties to even): IEEE-754 binary32 division, a function of the operand bits;
/// division by zero yields an infinity or a NaN, never a trap.
#[verifier::external_body]
pub(crate) fn fdiv(a: u32, b: u32) -> (r: u32)
    ensures
        r == fdiv_bits(a, b),
{
    let x = rustc_apfloat::ieee::Single::from_bits(a as u128);
    let y = rustc_apfloat::ieee::Single::from_bits(b as u128);
    (x / y).value.to_bits() as u32
}

/// Relies on `rustc_apfloat::Float::from_i128` for `Single`: conversion of a
/// signed integer to the nearest binary32 float (ties to even), a function of
/// the integer alone.
#[verifier::external_body]
pub(crate) fn int_to_float(v: i32) -> (r: u32)
    ensures
        r == int_to_float_bits(v),
{
    rustc_apfloat::ieee::Single::from_i128(v as i128).value.to_bits() as u32
}

/// Relies on `rustc_apfloat::Float::to_i128` for `Single`: conversion to a
/// 32-bit integer rounding toward zero, documented to return zero for a NaN
/// and the minimal or maximal integer on overflow, a function of the float's
/// bits alone.
#[verifier::external_body]
pub(crate) fn float_to_int(a: u32) -> (r: i32)
    ensures
        r == float_bits_to_int(a),
{
    let x = rustc_apfloat::ieee::Single::from_bits(a as u128);
    x.to_i128(32).value as i32
}

/// Relies on `rustc_apfloat::Float::from_u128` for `Single`: conversion of an
/// unsigned word to the nearest binary32 float (ties to even), a function of
/// the word alone.
#[verifier::external_body]
pub(crate) fn word_to_float(w: u32) -> (r: u32)
    ensures
        r == word_to_float_bits(w),
{
    rustc_apfloat::ieee::Single::from_u128(w as u128).value.to_bits() as u32
}

} // verus!
