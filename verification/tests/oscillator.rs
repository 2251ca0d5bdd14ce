//! The phase accumulator and the two oscillator kinds on concrete values.

use dsp_perf::oscillator::{
    BandLimitedOscillator, ModulationInputs, OscillatorHelper, LFO, OSC_MAX_FREQ_BITS,
    OSC_NEG_MAX_FREQ_BITS,
};

fn ref_exp2(x: f64) -> f64 {
    let ipart = (x + 0.5).floor();
    let fpart = x - ipart;
    let w = ((ipart as i32).wrapping_add(1023)).wrapping_shl(20);
    let epart = f64::from_bits(((w as u32) as u64) << 32);
    let x2 = fpart * fpart;
    let mut px = 2.30933477057345225087e-2;
    px = px * x2 + 2.02020656693165307700e1;
    let mut qx = x2 + 2.33184211722314911771e2;
    px = px * x2 + 1.51390680115615096133e3;
    qx = qx * x2 + 4.36821166879210612817e3;
    px = px * fpart;
    epart * (1.0 + 2.0 * (px / (qx - px)))
}

fn ref_parabolic_sine(x: f64) -> f64 {
    let b = 4.0 / std::f64::consts::PI;
    let c = -4.0 / (std::f64::consts::PI * std::f64::consts::PI);
    let p = 0.225;
    let mut y = b * x + c * x * x.abs();
    y = p * (y * y.abs() - y) + y;
    y
}

fn helper_at(sample_rate: f64, frequency: f64, cents: f64) -> OscillatorHelper {
    OscillatorHelper {
        sample_rate: sample_rate.to_bits(),
        input_frequency: frequency.to_bits(),
        octave_offset: 0.0f64.to_bits(),
        semitone_offset: 0.0f64.to_bits(),
        cent_offset: cents.to_bits(),
        amplitude: 1.0f64.to_bits(),
        modulo: 0.0f64.to_bits(),
    }
}

#[test]
fn clamp_constants_match_their_values() {
    assert_eq!(OSC_MAX_FREQ_BITS, 20480.0f64.to_bits());
    assert_eq!(OSC_NEG_MAX_FREQ_BITS, (-20480.0f64).to_bits());
}

#[test]
fn neutral_modulation_values() {
    let m = ModulationInputs::new();
    assert_eq!(m.frequency_mod, 0.0f64.to_bits());
    assert_eq!(m.frequency_mod_ratio, 1.0f64.to_bits());
    assert_eq!(m.phase_mod, 0.0f64.to_bits());
    assert_eq!(m.amplitude_mod, 1.0f64.to_bits());
    let fm = ModulationInputs::with_frequency_mod(3.25f64.to_bits());
    assert_eq!(fm.frequency_mod, 3.25f64.to_bits());
    assert_eq!(fm.amplitude_mod, 1.0f64.to_bits());
}

#[test]
fn phase_increment_matches_reference() {
    let st = helper_at(44100.0, 440.0, 2.5);
    let m = ModulationInputs::new();
    let incr = f64::from_bits(st.update(&m));
    let expected = 440.0 * 1.0 * ref_exp2((0.0 + 0.0 * 12.0 + 0.0 + 2.5 / 100.0) / 12.0) / 44100.0;
    assert_eq!(incr.to_bits(), expected.to_bits());
}

#[test]
fn frequency_clamps_at_positive_bound() {
    // A frequency offset of 100 semitone-equivalents asks for far more than
    // 20480 Hz; the increment must be exactly 20480 / sample_rate.
    let st = helper_at(44100.0, 440.0, 0.0);
    let m = ModulationInputs::with_frequency_mod(100.0f64.to_bits());
    let incr = st.update(&m);
    assert_eq!(incr, (20480.0f64 / 44100.0).to_bits());
}

#[test]
fn frequency_clamps_at_negative_bound() {
    let st = helper_at(44100.0, -440.0, 0.0);
    let m = ModulationInputs::with_frequency_mod(100.0f64.to_bits());
    let incr = st.update(&m);
    assert_eq!(incr, (-20480.0f64 / 44100.0).to_bits());
}

#[test]
fn wrap_folds_high_phase_on_positive_increment() {
    let mut st = helper_at(44100.0, 440.0, 0.0);
    st.modulo = 1.25f64.to_bits();
    let incr = 0.01f64.to_bits();
    let wrapped = st.check_wrap_modulo(incr);
    assert!(wrapped);
    assert_eq!(st.modulo, (1.25f64 - 1.0).to_bits());
}

#[test]
fn wrap_folds_low_phase_on_negative_increment() {
    let mut st = helper_at(44100.0, 440.0, 0.0);
    st.modulo = (-0.25f64).to_bits();
    let incr = (-0.01f64).to_bits();
    let wrapped = st.check_wrap_modulo(incr);
    assert!(wrapped);
    assert_eq!(st.modulo, (-0.25f64 + 1.0).to_bits());
}

#[test]
fn no_wrap_inside_the_unit_interval() {
    let mut st = helper_at(44100.0, 440.0, 0.0);
    st.modulo = 0.5f64.to_bits();
    assert!(!st.check_wrap_modulo(0.01f64.to_bits()));
    assert_eq!(st.modulo, 0.5f64.to_bits());
    assert!(!st.check_wrap_modulo((-0.01f64).to_bits()));
    assert_eq!(st.modulo, 0.5f64.to_bits());
}

#[test]
fn published_phase_stays_in_unit_interval() {
    // The phase read for output — after the wrap check, before the
    // advance — never leaves [0, 1).
    let mut st = helper_at(44100.0, 440.0, 0.0);
    let m = ModulationInputs::new();
    for _ in 0..100000 {
        let incr = st.update(&m);
        st.check_wrap_modulo(incr);
        let published = f64::from_bits(st.modulo);
        assert!((0.0..1.0).contains(&published), "published {published}");
        st.increment_modulo(incr);
    }
}

#[test]
fn tone_oscillator_first_sample_matches_reference() {
    let mut osc = BandLimitedOscillator::new(44100.0f64.to_bits());
    osc.helper.input_frequency = 440.0f64.to_bits();
    let m = ModulationInputs::new();
    let out = osc.render(&m);
    let expected = ref_parabolic_sine(-(0.0 * 2.0 * std::f64::consts::PI - std::f64::consts::PI))
        * 1.0
        * 1.0;
    assert_eq!(out, expected.to_bits());
    let expected_incr = 440.0 * ref_exp2(0.0 / 12.0) / 44100.0;
    assert_eq!(osc.helper.modulo, (0.0 + expected_incr).to_bits());
}

#[test]
fn tone_oscillator_applies_phase_and_amplitude_modulation() {
    let mut osc = BandLimitedOscillator::new(44100.0f64.to_bits());
    osc.helper.input_frequency = 440.0f64.to_bits();
    let m = ModulationInputs {
        frequency_mod: 0.0f64.to_bits(),
        frequency_mod_ratio: 1.0f64.to_bits(),
        phase_mod: 0.125f64.to_bits(),
        amplitude_mod: 0.5f64.to_bits(),
    };
    let out = osc.render(&m);
    let phase: f64 = 0.0 + 0.125;
    let angle = phase * 2.0 * std::f64::consts::PI - std::f64::consts::PI;
    let expected = ref_parabolic_sine(-angle) * 1.0 * 0.5;
    assert_eq!(out, expected.to_bits());
}

#[test]
fn lfo_first_samples_match_reference() {
    let mut lfo = LFO::new(44100.0f64.to_bits());
    lfo.helper.input_frequency = 0.5f64.to_bits();
    let m = ModulationInputs::new();
    let (out, quad) = lfo.render(&m);
    let angle = 0.0 * 2.0 * std::f64::consts::PI - std::f64::consts::PI;
    let expected = ref_parabolic_sine(-angle) * 1.0 * 1.0;
    let quad_angle = (0.0 + 0.25) * 2.0 * std::f64::consts::PI - std::f64::consts::PI;
    let expected_quad = ref_parabolic_sine(-quad_angle) * 1.0 * 1.0;
    assert_eq!(out, expected.to_bits());
    assert_eq!(quad, expected_quad.to_bits());
}

#[test]
fn lfo_quadrature_folds_past_one() {
    let mut lfo = LFO::new(44100.0f64.to_bits());
    lfo.helper.input_frequency = 0.5f64.to_bits();
    lfo.helper.modulo = 0.875f64.to_bits();
    let m = ModulationInputs::new();
    let (_, quad) = lfo.render(&m);
    let folded: f64 = 0.875 + 0.25 - 1.0;
    let quad_angle = folded * 2.0 * std::f64::consts::PI - std::f64::consts::PI;
    let expected_quad = ref_parabolic_sine(-quad_angle) * 1.0 * 1.0;
    assert_eq!(quad, expected_quad.to_bits());
}
