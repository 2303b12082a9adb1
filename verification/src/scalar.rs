//! IEEE-754 single-precision scalars, carried as their 32-bit patterns.
//!
//! Verified code cannot compute with floating-point values directly, so every
//! scalar in this crate is the bit pattern of an IEEE-754 single-precision
//! number, held in a `u32`. The GPU consumes exactly these bits, so nothing is
//! lost in the representation. The four arithmetic operations are performed in
//! software by `rustc_apfloat`, whose `Single` type implements IEEE-754
//! binary32 arithmetic (round to nearest, ties to even) as a pure function of
//! the operands' bit patterns. Each operation's result is named by an
//! uninterpreted spec function, so contracts can pin down geometry exactly up
//! to the arithmetic itself.

use vstd::prelude::*;
use rustc_apfloat::Float;

verus! {

/// Bit pattern of 0.0f32.
pub const BITS_ZERO: u32 = 0x0000_0000;
/// Bit pattern of 0.03f32, the bevel-strip thickness in a tile's local space.
pub const BITS_BEVEL_THICKNESS: u32 = 0x3CF5_C28F;
/// Bit pattern of 0.05f32, how far in front of a tile its bevel strips sit.
pub const BITS_BEVEL_LIFT: u32 = 0x3D4C_CCCD;
/// Bit pattern of 0.3f32, the grey level of the bevel shadow colour.
pub const BITS_SHADOW_GREY: u32 = 0x3E99_999A;
/// Bit pattern of 0.5f32.
pub const BITS_HALF: u32 = 0x3F00_0000;
/// Bit pattern of 0.7f32, the grey level of the bevel highlight colour.
pub const BITS_HIGHLIGHT_GREY: u32 = 0x3F33_3333;
/// Bit pattern of 1.0f32.
pub const BITS_ONE: u32 = 0x3F80_0000;
/// Bit pattern of 2.0f32.
pub const BITS_TWO: u32 = 0x4000_0000;

/// The bit pattern of the IEEE-754 single-precision sum of two bit patterns.
pub uninterp spec fn add_bits(a: u32, b: u32) -> u32;

/// The bit pattern of the IEEE-754 single-precision difference of two bit patterns.
pub uninterp spec fn sub_bits(a: u32, b: u32) -> u32;

/// The bit pattern of the IEEE-754 single-precision product of two bit patterns.
pub uninterp spec fn mul_bits(a: u32, b: u32) -> u32;

/// The bit pattern of the IEEE-754 single-precision quotient of two bit patterns.
pub uninterp spec fn div_bits(a: u32, b: u32) -> u32;

/// Relies on `rustc_apfloat::ieee::Single::add_r` (round to nearest, ties to
/// even): IEEE-754 addition, a pure function of the two operands' bits.
#[verifier::external_body]
pub(crate) fn fadd(a: u32, b: u32) -> (r: u32)
    ensures
        r == add_bits(a, b),
{
    let x = rustc_apfloat::ieee::Single::from_bits(a as u128);
    let y = rustc_apfloat::ieee::Single::from_bits(b as u128);
    (x + y).value.to_bits() as u32
}

/// Relies on `rustc_apfloat::ieee::Single::sub_r` (round to nearest, ties to
/// even): IEEE-754 subtraction, a pure function of the two operands' bits.
#[verifier::external_body]
pub(crate) fn fsub(a: u32, b: u32) -> (r: u32)
    ensures
        r == sub_bits(a, b),
{
    let x = rustc_apfloat::ieee::Single::from_bits(a as u128);
    let y = rustc_apfloat::ieee::Single::from_bits(b as u128);
    (x - y).value.to_bits() as u32
}

/// Relies on `rustc_apfloat::ieee::Single::mul_r` (round to nearest, ties to
/// even): IEEE-754 multiplication, a pure function of the two operands' bits.
#[verifier::external_body]
pub(crate) fn fmul(a: u32, b: u32) -> (r: u32)
    ensures
        r == mul_bits(a, b),
{
    let x = rustc_apfloat::ieee::Single::from_bits(a as u128);
    let y = rustc_apfloat::ieee::Single::from_bits(b as u128);
    (x * y).value.to_bits() as u32
}

/// Relies on `rustc_apfloat::ieee::Single::div_r` (round to nearest, ties to
/// even): IEEE-754 division, a pure function of the two operands' bits. A zero
/// divisor yields an infinity or NaN pattern; it never fails.
#[verifier::external_body]
pub(crate) fn fdiv(a: u32, b: u32) -> (r: u32)
    ensures
        r == div_bits(a, b),
{
    let x = rustc_apfloat::ieee::Single::from_bits(a as u128);
    let y = rustc_apfloat::ieee::Single::from_bits(b as u128);
    (x / y).value.to_bits() as u32
}

} // verus!
