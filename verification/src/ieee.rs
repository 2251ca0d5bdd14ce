//! Primitive IEEE-754 binary64 operations over bit patterns.
//!
//! A sample is a binary64 value represented by its 64 bits. The arithmetic
//! primitives below are carried out by `rustc_apfloat`, a software
//! implementation of IEEE-754 binary arithmetic; each one is a pure function
//! of the operand bits, so its result is given a name (an uninterpreted spec
//! function) that the rest of the library's contracts are written over.
//! Sign operations (negation, absolute value) are defined bit manipulations
//! and are implemented and verified here directly.

use vstd::prelude::*;
use rustc_apfloat::Float;
use rustc_apfloat::ieee::Double;

verus! {

// Bit patterns of the binary64 constants the synthesizer uses.
pub const ZERO_BITS: u64 = 0x0000000000000000; // 0.0
pub const ONE_BITS: u64 = 0x3FF0000000000000; // 1.0
pub const TWO_BITS: u64 = 0x4000000000000000; // 2.0
pub const HALF_BITS: u64 = 0x3FE0000000000000; // 0.5
pub const QUARTER_BITS: u64 = 0x3FD0000000000000; // 0.25
pub const TWELVE_BITS: u64 = 0x4028000000000000; // 12.0
pub const HUNDRED_BITS: u64 = 0x4059000000000000; // 100.0
pub const PI_BITS: u64 = 0x400921FB54442D18; // pi, rounded to binary64

/// Mask that clears the sign bit of a binary64 pattern.
pub const ABS_MASK: u64 = 0x7FFF_FFFF_FFFF_FFFF;
/// The sign bit of a binary64 pattern.
pub const SIGN_MASK: u64 = 0x8000_0000_0000_0000;

/// The bits of `a + b` in binary64 arithmetic (round to nearest even).
pub uninterp spec fn add_bits(a: u64, b: u64) -> u64;

/// The bits of `a - b` in binary64 arithmetic (round to nearest even).
pub uninterp spec fn sub_bits(a: u64, b: u64) -> u64;

/// The bits of `a * b` in binary64 arithmetic (round to nearest even).
pub uninterp spec fn mul_bits(a: u64, b: u64) -> u64;

/// The bits of `a / b` in binary64 arithmetic (round to nearest even).
pub uninterp spec fn div_bits(a: u64, b: u64) -> u64;

/// The bits of the binary64 remainder `a % b` (truncated, C `fmod`).
pub uninterp spec fn rem_bits(a: u64, b: u64) -> u64;

/// The bits of `a` rounded to an integral value toward negative infinity.
pub uninterp spec fn floor_bits(a: u64) -> u64;

/// The value of `a` converted to a 32-bit signed integer, rounding toward
/// zero and saturating at the type's bounds.
pub uninterp spec fn to_i32_bits(a: u64) -> i64;

/// Whether `a < b` as binary64 values (false when either is NaN).
pub uninterp spec fn lt_bits(a: u64, b: u64) -> bool;

/// Whether `a <= b` as binary64 values (false when either is NaN).
pub uninterp spec fn le_bits(a: u64, b: u64) -> bool;

/// Whether `a > b` as binary64 values.
pub open spec fn gt_bits(a: u64, b: u64) -> bool {
    lt_bits(b, a)
}

/// Whether `a >= b` as binary64 values.
pub open spec fn ge_bits(a: u64, b: u64) -> bool {
    le_bits(b, a)
}

/// Binary64 negation: the sign bit flips, every other bit is unchanged.
pub open spec fn neg_bits(a: u64) -> u64 {
    a ^ SIGN_MASK
}

/// Binary64 absolute value: the sign bit clears, every other bit is unchanged.
pub open spec fn abs_bits(a: u64) -> u64 {
    a & ABS_MASK
}

/// Relies on `rustc_apfloat::ieee::Double`'s `Add` (IEEE binary64 addition,
/// round to nearest even); the result depends on the operand bits alone.
#[verifier::external_body]
pub(crate) fn add64(a: u64, b: u64) -> (r: u64)
    ensures
        r == add_bits(a, b),
{
    let x = Double::from_bits(a as u128);
    let y = Double::from_bits(b as u128);
    (x + y).value.to_bits() as u64
}

/// Relies on `rustc_apfloat::ieee::Double`'s `Sub` (IEEE binary64
/// subtraction, round to nearest even).
#[verifier::external_body]
pub(crate) fn sub64(a: u64, b: u64) -> (r: u64)
    ensures
        r == sub_bits(a, b),
{
    let x = Double::from_bits(a as u128);
    let y = Double::from_bits(b as u128);
    (x - y).value.to_bits() as u64
}

/// Relies on `rustc_apfloat::ieee::Double`'s `Mul` (IEEE binary64
/// multiplication, round to nearest even).
#[verifier::external_body]
pub(crate) fn mul64(a: u64, b: u64) -> (r: u64)
    ensures
        r == mul_bits(a, b),
{
    let x = Double::from_bits(a as u128);
    let y = Double::from_bits(b as u128);
    (x * y).value.to_bits() as u64
}

/// Relies on `rustc_apfloat::ieee::Double`'s `Div` (IEEE binary64 division,
/// round to nearest even).
#[verifier::external_body]
pub(crate) fn div64(a: u64, b: u64) -> (r: u64)
    ensures
        r == div_bits(a, b),
{
    let x = Double::from_bits(a as u128);
    let y = Double::from_bits(b as u128);
    (x / y).value.to_bits() as u64
}

/// Relies on `rustc_apfloat::ieee::Double`'s `Rem` (the truncated binary64
/// remainder, C `fmod`), the operation Rust's `%` performs on doubles.
#[verifier::external_body]
pub(crate) fn rem64(a: u64, b: u64) -> (r: u64)
    ensures
        r == rem_bits(a, b),
{
    let x = Double::from_bits(a as u128);
    let y = Double::from_bits(b as u128);
    (x % y).value.to_bits() as u64
}

/// Relies on `rustc_apfloat::Float::round_to_integral` with rounding toward
/// negative infinity, the operation `floor` performs on doubles.
#[verifier::external_body]
pub(crate) fn floor64(a: u64) -> (r: u64)
    ensures
        r == floor_bits(a),
{
    let x = Double::from_bits(a as u128);
    x.round_to_integral(rustc_apfloat::Round::TowardNegative).value.to_bits() as u64
}

/// Relies on `rustc_apfloat::Float::to_i128_r` with width 32 and rounding
/// toward zero: the saturating double-to-`i32` conversion that an `as` cast
/// performs. The result always fits in 32 signed bits.
#[verifier::external_body]
pub(crate) fn to_i32(a: u64) -> (r: i64)
    ensures
        r == to_i32_bits(a),
        -0x8000_0000 <= r <= 0x7FFF_FFFF,
{
    let x = Double::from_bits(a as u128);
    let mut exact = false;
    x.to_i128_r(32, rustc_apfloat::Round::TowardZero, &mut exact).value as i64
}

/// Relies on `rustc_apfloat::ieee::Double`'s `PartialOrd::lt` (the IEEE
/// binary64 `<` comparison; false when an operand is NaN).
#[verifier::external_body]
pub(crate) fn lt64(a: u64, b: u64) -> (r: bool)
    ensures
        r == lt_bits(a, b),
{
    Double::from_bits(a as u128) < Double::from_bits(b as u128)
}

/// Relies on `rustc_apfloat::ieee::Double`'s `PartialOrd::le` (the IEEE
/// binary64 `<=` comparison; false when an operand is NaN).
#[verifier::external_body]
pub(crate) fn le64(a: u64, b: u64) -> (r: bool)
    ensures
        r == le_bits(a, b),
{
    Double::from_bits(a as u128) <= Double::from_bits(b as u128)
}

/// Binary64 negation, a defined bit manipulation: flip the sign bit.
pub(crate) fn neg64(a: u64) -> (r: u64)
    ensures
        r == neg_bits(a),
{
    a ^ SIGN_MASK
}

/// Binary64 absolute value, a defined bit manipulation: clear the sign bit.
pub(crate) fn abs64(a: u64) -> (r: u64)
    ensures
        r == abs_bits(a),
{
    a & ABS_MASK
}

} // verus!
