//! Stateless numeric approximations: the parabolic sine, a fast base-2
//! exponential, and the wrap of a phase into the unit interval.
//!
//! Each executable function's contract pins its result, bit for bit, to a
//! spec-level composition of the primitive binary64 operations of [`ieee`](crate::ieee).

use vstd::prelude::*;
use crate::ieee::{
    add_bits, sub_bits, mul_bits, div_bits, rem_bits, floor_bits, to_i32_bits, lt_bits, le_bits,
    ge_bits, abs_bits, add64, sub64, mul64, div64, rem64, floor64, to_i32, lt64, le64, abs64,
    ZERO_BITS, ONE_BITS, TWO_BITS, HALF_BITS,
};

verus! {

// Coefficients of the parabolic sine: B = 4/pi, C = -4/pi^2, and the
// second-stage smoothing weight 0.225, each rounded to binary64.
pub const SINE_B_BITS: u64 = 0x3FF45F306DC9C883; // 4/pi
pub const SINE_C_BITS: u64 = 0xBFD9F02F6222C720; // -4/pi^2
pub const SINE_SMOOTH_BITS: u64 = 0x3FCCCCCCCCCCCCCD; // 0.225

// Coefficients of the rational approximation inside `exp2`: numerator
// polynomial (degree 2 in fpart^2) and denominator polynomial (degree 2).
pub const EXP2_NUM0_BITS: u64 = 0x3F97A5C8549AEAD3; // 2.30933477057345225087e-2
pub const EXP2_NUM1_BITS: u64 = 0x403433BA93615BDE; // 2.02020656693165307700e1
pub const EXP2_NUM2_BITS: u64 = 0x4097A7A0907B7693; // 1.51390680115615096133e3
pub const EXP2_DEN0_BITS: u64 = 0x406D25E50FFB5C3C; // 2.33184211722314911771e2
pub const EXP2_DEN1_BITS: u64 = 0x40B110362FED0BAE; // 4.36821166879210612817e3

/// The parabolic sine as a composition of binary64 operations:
/// `y = B*x + C*x*|x|`, then `y = S*(y*|y| - y) + y`.
pub open spec fn spec_parabolic_sine(x: u64) -> u64 {
    let y = add_bits(
        mul_bits(SINE_B_BITS, x),
        mul_bits(mul_bits(SINE_C_BITS, x), abs_bits(x)),
    );
    add_bits(mul_bits(SINE_SMOOTH_BITS, sub_bits(mul_bits(y, abs_bits(y)), y)), y)
}

/// Polynomial approximation of the sine of `x`, for `x` an angle in radians
/// already folded into a range centered on zero (nominally `[-pi, pi]`):
/// a parabola `B*x + C*x*|x|` followed by one smoothing correction.
pub fn parabolic_sine(x: u64) -> (r: u64)
    ensures
        r == spec_parabolic_sine(x),
{
    let xa = abs64(x);
    let y = add64(mul64(SINE_B_BITS, x), mul64(mul64(SINE_C_BITS, x), xa));
    let ya = abs64(y);
    add64(mul64(SINE_SMOOTH_BITS, sub64(mul64(y, ya), y)), y)
}

/// The Euclidean remainder of `x` by 1: `r = x % 1.0`, folded up by one
/// when the truncated remainder is negative.
pub open spec fn spec_rem_euclid_one(x: u64) -> u64 {
    let r = rem_bits(x, ONE_BITS);
    if lt_bits(r, ZERO_BITS) {
        add_bits(r, ONE_BITS)
    } else {
        r
    }
}

/// `wrap01` as a composition of binary64 operations: values already in
/// `[0, 1]` pass through untouched, all others take the Euclidean remainder.
pub open spec fn spec_wrap01(x: u64) -> u64 {
    if ge_bits(x, ZERO_BITS) && le_bits(x, ONE_BITS) {
        x
    } else {
        spec_rem_euclid_one(x)
    }
}

/// Maps `x` into the unit interval by a Euclidean remainder, fast-pathed
/// when the value is already in range.
pub fn wrap01(x: u64) -> (r: u64)
    ensures
        r == spec_wrap01(x),
{
    if le64(ZERO_BITS, x) && le64(x, ONE_BITS) {
        x
    } else {
        let rem = rem64(x, ONE_BITS);
        if lt64(rem, ZERO_BITS) {
            add64(rem, ONE_BITS)
        } else {
            rem
        }
    }
}

/// The exponent-field pattern built from the integer part `k` of the input:
/// `k + 1023` (the binary64 exponent bias), kept modulo 2^12 since only the
/// low twelve bits survive the shift, placed into bits 52..63 of the pattern.
pub open spec fn spec_exp2_epart(k: i64) -> u64 {
    (((k + 1023) as u64) & 0xFFF) << 52
}

/// `exp2` as a composition of binary64 operations: split the input at the
/// nearest integer, build the power of two for the integer part directly in
/// the exponent field, and correct by a rational polynomial in the square of
/// the fractional part.
pub open spec fn spec_exp2(x: u64) -> u64 {
    let ipart = floor_bits(add_bits(x, HALF_BITS));
    let fpart = sub_bits(x, ipart);
    let epart = spec_exp2_epart(to_i32_bits(ipart));
    let x2 = mul_bits(fpart, fpart);
    let px1 = add_bits(mul_bits(EXP2_NUM0_BITS, x2), EXP2_NUM1_BITS);
    let qx1 = add_bits(x2, EXP2_DEN0_BITS);
    let px2 = add_bits(mul_bits(px1, x2), EXP2_NUM2_BITS);
    let qx2 = add_bits(mul_bits(qx1, x2), EXP2_DEN1_BITS);
    let pxf = mul_bits(px2, fpart);
    let corr = add_bits(ONE_BITS, mul_bits(TWO_BITS, div_bits(pxf, sub_bits(qx2, pxf))));
    mul_bits(epart, corr)
}

/// Fast approximation of `2^x`: integer/fraction split plus a rational
/// polynomial on the squared fraction, reconstructed by writing the integer
/// part straight into the binary64 exponent field. Accurate only over a
/// moderate input range (several hundred octaves), an accepted limit of the
/// approximation.
pub fn exp2(x: u64) -> (r: u64)
    ensures
        r == spec_exp2(x),
{
    let ipart = floor64(add64(x, HALF_BITS));
    let fpart = sub64(x, ipart);
    let k = to_i32(ipart);
    let epart: u64 = (((k + 1023) as u64) & 0xFFF) << 52;
    assert(epart == spec_exp2_epart(to_i32_bits(ipart)));
    let x2 = mul64(fpart, fpart);
    let px1 = add64(mul64(EXP2_NUM0_BITS, x2), EXP2_NUM1_BITS);
    let qx1 = add64(x2, EXP2_DEN0_BITS);
    let px2 = add64(mul64(px1, x2), EXP2_NUM2_BITS);
    let qx2 = add64(mul64(qx1, x2), EXP2_DEN1_BITS);
    let pxf = mul64(px2, fpart);
    let corr = add64(ONE_BITS, mul64(TWO_BITS, div64(pxf, sub64(qx2, pxf))));
    mul64(epart, corr)
}

} // verus!
