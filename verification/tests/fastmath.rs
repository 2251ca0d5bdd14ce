//! The fast-math kernels against plain double-precision references and
//! against their documented accuracy bounds.

use dsp_perf::fastmath::{exp2, parabolic_sine, wrap01};
use dsp_perf::fastmath::{
    EXP2_DEN0_BITS, EXP2_DEN1_BITS, EXP2_NUM0_BITS, EXP2_NUM1_BITS, EXP2_NUM2_BITS, SINE_B_BITS,
    SINE_C_BITS, SINE_SMOOTH_BITS,
};
use dsp_perf::ieee::{HALF_BITS, ONE_BITS, PI_BITS, QUARTER_BITS, TWELVE_BITS, TWO_BITS, ZERO_BITS};

fn ref_parabolic_sine(x: f64) -> f64 {
    let b = 4.0 / std::f64::consts::PI;
    let c = -4.0 / (std::f64::consts::PI * std::f64::consts::PI);
    let p = 0.225;
    let mut y = b * x + c * x * x.abs();
    y = p * (y * y.abs() - y) + y;
    y
}

fn ref_wrap01(x: f64) -> f64 {
    if x >= 0.0 && x <= 1.0 {
        x
    } else {
        x.rem_euclid(1.0)
    }
}

fn ref_exp2(x: f64) -> f64 {
    let ipart = (x + 0.5).floor();
    let fpart = x - ipart;
    let w = ((ipart as i32).wrapping_add(1023)).wrapping_shl(20);
    let epart = f64::from_bits(((w as u32) as u64) << 32);
    let x2 = fpart * fpart;
    let mut px = 2.30933477057345225087e-2;
    px = px * x2 + 2.02020656693165307700e1;
    let mut qx = x2 + 2.33184211722314911771e2;
    px = px * x2 + 1.51390680115615096133e3;
    qx = qx * x2 + 4.36821166879210612817e3;
    px = px * fpart;
    epart * (1.0 + 2.0 * (px / (qx - px)))
}

#[test]
fn bit_constants_match_their_values() {
    assert_eq!(ZERO_BITS, 0.0f64.to_bits());
    assert_eq!(ONE_BITS, 1.0f64.to_bits());
    assert_eq!(TWO_BITS, 2.0f64.to_bits());
    assert_eq!(HALF_BITS, 0.5f64.to_bits());
    assert_eq!(QUARTER_BITS, 0.25f64.to_bits());
    assert_eq!(TWELVE_BITS, 12.0f64.to_bits());
    assert_eq!(PI_BITS, std::f64::consts::PI.to_bits());
    assert_eq!(SINE_B_BITS, (4.0 / std::f64::consts::PI).to_bits());
    assert_eq!(
        SINE_C_BITS,
        (-4.0 / (std::f64::consts::PI * std::f64::consts::PI)).to_bits()
    );
    assert_eq!(SINE_SMOOTH_BITS, 0.225f64.to_bits());
    assert_eq!(EXP2_NUM0_BITS, 2.30933477057345225087e-2f64.to_bits());
    assert_eq!(EXP2_NUM1_BITS, 2.02020656693165307700e1f64.to_bits());
    assert_eq!(EXP2_NUM2_BITS, 1.51390680115615096133e3f64.to_bits());
    assert_eq!(EXP2_DEN0_BITS, 2.33184211722314911771e2f64.to_bits());
    assert_eq!(EXP2_DEN1_BITS, 4.36821166879210612817e3f64.to_bits());
}

#[test]
fn parabolic_sine_matches_binary64_reference() {
    for i in 0..=4000 {
        let x = -4.0 + (i as f64) * 0.002;
        assert_eq!(
            parabolic_sine(x.to_bits()),
            ref_parabolic_sine(x).to_bits(),
            "at x = {x}"
        );
    }
    for &x in &[0.0, -0.0, 1e9, -1e9, 1e-300, f64::INFINITY, f64::NEG_INFINITY] {
        assert_eq!(parabolic_sine(x.to_bits()), ref_parabolic_sine(x).to_bits());
    }
}

#[test]
fn parabolic_sine_approximates_sine_within_tolerance() {
    // Over a full cycle, the folded angle fed to the polynomial keeps the
    // approximation within 0.005 of the exact sine.
    for i in 0..=20000 {
        let x = (i as f64) / 20000.0 * 2.0 * std::f64::consts::PI;
        let angle = if x <= std::f64::consts::PI {
            x
        } else {
            x - 2.0 * std::f64::consts::PI
        };
        let approx = f64::from_bits(parabolic_sine(angle.to_bits()));
        assert!(
            (approx - x.sin()).abs() <= 0.005,
            "error {} at x = {x}",
            (approx - x.sin()).abs()
        );
    }
}

#[test]
fn wrap01_matches_binary64_reference() {
    for i in 0..=4000 {
        let x = -5.0 + (i as f64) * 0.0025;
        assert_eq!(wrap01(x.to_bits()), ref_wrap01(x).to_bits(), "at x = {x}");
    }
    for &x in &[0.0f64, -0.0, 1.0, 2.0, -1.0, 1e9 + 0.25, -1e9 - 0.25] {
        assert_eq!(wrap01(x.to_bits()), ref_wrap01(x).to_bits());
    }
}

#[test]
fn wrap01_stays_in_unit_interval() {
    // Holds for every finite input except the single point x == 1.0, which
    // the fast path passes through unchanged.
    for i in 0..=4000 {
        let x = -123.456 + (i as f64) * 0.0617;
        let r = f64::from_bits(wrap01(x.to_bits()));
        assert!((0.0..1.0).contains(&r), "wrap01({x}) = {r}");
    }
}

#[test]
fn wrap01_is_periodic_within_rounding() {
    // Exact bit equality cannot hold (the remainder of x + 1 rounds), but
    // the two values agree to within one part in a billion.
    for i in 0..=2000 {
        let x = -10.0 + (i as f64) * 0.01;
        let a = f64::from_bits(wrap01(x.to_bits()));
        let b = f64::from_bits(wrap01((x + 1.0).to_bits()));
        let diff = (a - b).abs();
        let wrapped_diff = diff.min((diff - 1.0).abs());
        assert!(wrapped_diff <= 1e-9, "wrap01({x}) = {a}, wrap01({}) = {b}", x + 1.0);
    }
}

#[test]
fn exp2_matches_binary64_reference() {
    for i in 0..=6000 {
        let x = -300.0 + (i as f64) * 0.1;
        assert_eq!(exp2(x.to_bits()), ref_exp2(x).to_bits(), "at x = {x}");
    }
    for &x in &[0.0f64, -0.0, 0.4999, -0.4999, 511.5, -511.5] {
        assert_eq!(exp2(x.to_bits()), ref_exp2(x).to_bits());
    }
}

#[test]
fn exp2_accuracy_against_exact_power() {
    // Within a moderate range the relative error stays below 1e-5 (it is in
    // fact far smaller).
    for k in -60i32..=60 {
        for i in 0..=20 {
            let f = -0.5 + (i as f64) / 20.0;
            let x = k as f64 + f;
            let approx = f64::from_bits(exp2(x.to_bits()));
            let exact = x.exp2();
            assert!(
                ((approx - exact) / exact).abs() <= 1e-5,
                "relative error at x = {x}"
            );
        }
    }
}
