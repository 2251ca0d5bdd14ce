//! The whole graph under all three processing layouts, against a plain
//! double-precision reference simulation and against each other.

use dsp_perf::array_of_structs;
use dsp_perf::fixed_batch_size;
use dsp_perf::graph::{GRAPH_BASE_FREQ_BITS, GRAPH_DETUNE_CENTS_BITS, GRAPH_LFO_FREQ_BITS};
use dsp_perf::one_frame_per_call;

fn ref_exp2(x: f64) -> f64 {
    let ipart = (x + 0.5).floor();
    let fpart = x - ipart;
    let w = ((ipart as i32).wrapping_add(1023)).wrapping_shl(20);
    let epart = f64::from_bits(((w as u32) as u64) << 32);
    let x2 = fpart * fpart;
    let mut px = 2.30933477057345225087e-2;
    px = px * x2 + 2.02020656693165307700e1;
    let mut qx = x2 + 2.33184211722314911771e2;
    px = px * x2 + 1.51390680115615096133e3;
    qx = qx * x2 + 4.36821166879210612817e3;
    px = px * fpart;
    epart * (1.0 + 2.0 * (px / (qx - px)))
}

fn ref_parabolic_sine(x: f64) -> f64 {
    let b = 4.0 / std::f64::consts::PI;
    let c = -4.0 / (std::f64::consts::PI * std::f64::consts::PI);
    let p = 0.225;
    let mut y = b * x + c * x * x.abs();
    y = p * (y * y.abs() - y) + y;
    y
}

fn ref_wrap01(x: f64) -> f64 {
    if x >= 0.0 && x <= 1.0 {
        x
    } else {
        x.rem_euclid(1.0)
    }
}

struct RefOscillator {
    sample_rate: f64,
    input_frequency: f64,
    cent_offset: f64,
    modulo: f64,
}

impl RefOscillator {
    fn new(sample_rate: f64, input_frequency: f64, cent_offset: f64) -> Self {
        RefOscillator {
            sample_rate,
            input_frequency,
            cent_offset,
            modulo: 0.0,
        }
    }

    /// One phase-accumulation step; returns the published phase.
    fn step(&mut self, frequency_mod: f64) -> f64 {
        let offset = 0.0 * 12.0 + 0.0 + self.cent_offset / 100.0;
        let raw = self.input_frequency * 1.0 * ref_exp2((frequency_mod + offset) / 12.0);
        let clamped = if raw > 20480.0 {
            20480.0
        } else if raw < -20480.0 {
            -20480.0
        } else {
            raw
        };
        let incr = clamped / self.sample_rate;
        if incr > 0.0 && self.modulo >= 1.0 {
            self.modulo -= 1.0;
        } else if incr < 0.0 && self.modulo <= 0.0 {
            self.modulo += 1.0;
        }
        let published = self.modulo;
        self.modulo += incr;
        published
    }
}

struct RefSynth {
    osc1: RefOscillator,
    osc2: RefOscillator,
    lfo: RefOscillator,
}

impl RefSynth {
    fn new(sample_rate: f64) -> Self {
        RefSynth {
            osc1: RefOscillator::new(sample_rate, 440.0, 0.0),
            osc2: RefOscillator::new(sample_rate, 440.0, 2.5),
            lfo: RefOscillator::new(sample_rate, 0.5, 0.0),
        }
    }

    fn next_sample(&mut self) -> f64 {
        let lfo_phase = self.lfo.step(0.0);
        let lfo_out =
            ref_parabolic_sine(-(lfo_phase * 2.0 * std::f64::consts::PI - std::f64::consts::PI))
                * 1.0
                * 1.0;
        let p1 = self.osc1.step(lfo_out);
        let p2 = self.osc2.step(lfo_out);
        let s1 = ref_parabolic_sine(
            -(ref_wrap01(p1 + 0.0) * 2.0 * std::f64::consts::PI - std::f64::consts::PI),
        ) * 1.0
            * 1.0;
        let s2 = ref_parabolic_sine(
            -(ref_wrap01(p2 + 0.0) * 2.0 * std::f64::consts::PI - std::f64::consts::PI),
        ) * 1.0
            * 1.0;
        0.5 * s1 + 0.5 * s2
    }
}

fn sr_bits() -> u64 {
    44100.0f64.to_bits()
}

#[test]
fn graph_constants_match_their_values() {
    assert_eq!(GRAPH_BASE_FREQ_BITS, 440.0f64.to_bits());
    assert_eq!(GRAPH_DETUNE_CENTS_BITS, 2.5f64.to_bits());
    assert_eq!(GRAPH_LFO_FREQ_BITS, 0.5f64.to_bits());
}

#[test]
fn one_frame_per_call_matches_reference_simulation() {
    let mut synth = one_frame_per_call::Synth::new(sr_bits());
    let mut buffer = vec![0u64; 4096];
    synth.render(&mut buffer);
    let mut reference = RefSynth::new(44100.0);
    for (i, &sample) in buffer.iter().enumerate() {
        let expected = reference.next_sample();
        assert_eq!(sample, expected.to_bits(), "sample {i}");
    }
}

#[test]
fn first_sample_is_the_golden_value() {
    // At phase 0 both carriers emit the parabolic sine of the angle
    // -(0 - pi) = pi, whose value rounds to exactly 0; the LFO's first
    // output only affects later samples.
    let mut synth = one_frame_per_call::Synth::new(sr_bits());
    let mut buffer = vec![0u64; 1];
    synth.render(&mut buffer);
    let expected = ref_parabolic_sine(std::f64::consts::PI);
    let golden = 0.5 * expected + 0.5 * expected;
    assert_eq!(buffer[0], golden.to_bits());
    assert_eq!(f64::from_bits(buffer[0]), 0.0);
}

#[test]
fn layout_equivalence_over_4096_samples() {
    let mut one = one_frame_per_call::Synth::new(sr_bits());
    let mut soa = fixed_batch_size::Synth::new(sr_bits());
    let mut aos = array_of_structs::Synth::new(sr_bits());

    let mut a = vec![0u64; 4096];
    one.render(&mut a);

    let mut b = vec![0u64; 4096];
    soa.render(&mut b);

    let mut c = vec![0u64; 4096];
    aos.render(&mut c);

    // One sample at a time, same graph, fresh instance.
    let mut single = one_frame_per_call::Synth::new(sr_bits());
    let mut d = vec![0u64; 4096];
    let mut cell = vec![0u64; 1];
    for slot in d.iter_mut() {
        single.render(&mut cell);
        *slot = cell[0];
    }

    // Batches of 64, same graph, fresh instance.
    let mut batched = one_frame_per_call::Synth::new(sr_bits());
    let mut e = vec![0u64; 4096];
    let mut chunk = vec![0u64; 64];
    for start in (0..4096).step_by(64) {
        batched.render(&mut chunk);
        e[start..start + 64].copy_from_slice(&chunk);
    }

    for i in 0..4096 {
        assert_eq!(a[i], b[i], "separate-arrays batch differs at {i}");
        assert_eq!(a[i], c[i], "record batch differs at {i}");
        assert_eq!(a[i], d[i], "one-at-a-time differs at {i}");
        assert_eq!(a[i], e[i], "64-chunks differ at {i}");
    }
}

#[test]
fn streaming_continuity_across_two_calls() {
    let mut whole = one_frame_per_call::Synth::new(sr_bits());
    let mut full = vec![0u64; 4096];
    whole.render(&mut full);

    let mut split = one_frame_per_call::Synth::new(sr_bits());
    let mut first = vec![0u64; 2048];
    let mut second = vec![0u64; 2048];
    split.render(&mut first);
    split.render(&mut second);

    assert_eq!(&full[..2048], &first[..]);
    assert_eq!(&full[2048..], &second[..]);
}

#[test]
fn batch_layouts_leave_partial_batches_untouched() {
    let sentinel = f64::NAN.to_bits() ^ 0x1234;
    let mut soa = fixed_batch_size::Synth::new(sr_bits());
    let mut buffer = vec![sentinel; 100];
    soa.render(&mut buffer);
    let mut reference = RefSynth::new(44100.0);
    for (i, &sample) in buffer.iter().enumerate().take(64) {
        assert_eq!(sample, reference.next_sample().to_bits(), "sample {i}");
    }
    for &sample in buffer.iter().skip(64) {
        assert_eq!(sample, sentinel);
    }

    let mut aos = array_of_structs::Synth::new(sr_bits());
    let mut buffer = vec![sentinel; 100];
    aos.render(&mut buffer);
    let mut reference = RefSynth::new(44100.0);
    for (i, &sample) in buffer.iter().enumerate().take(64) {
        assert_eq!(sample, reference.next_sample().to_bits(), "sample {i}");
    }
    for &sample in buffer.iter().skip(64) {
        assert_eq!(sample, sentinel);
    }
}

#[test]
fn stored_phases_stay_bounded_across_renders() {
    // The stored phase may sit one increment past a cycle bound between
    // samples (the fold happens at the start of the next step), but never
    // drifts further: it always stays within [0, 1 + 20480/44100).
    let bound = 1.0 + 20480.0 / 44100.0;
    let mut synth = one_frame_per_call::Synth::new(sr_bits());
    let mut buffer = vec![0u64; 64];
    for _ in 0..512 {
        synth.render(&mut buffer);
        for phase_bits in [
            synth.osc1.helper.modulo,
            synth.osc2.helper.modulo,
            synth.lfo.helper.modulo,
        ] {
            let phase = f64::from_bits(phase_bits);
            assert!((0.0..bound).contains(&phase), "stored phase {phase}");
        }
    }
}

#[test]
fn lfo_actually_modulates_the_carriers() {
    // With the LFO silenced the stream would be periodic at 440 Hz; the
    // rendered stream must differ from an unmodulated one within a few
    // hundred samples.
    let mut synth = one_frame_per_call::Synth::new(sr_bits());
    let mut modulated = vec![0u64; 1024];
    synth.render(&mut modulated);

    let mut unmodulated = RefSynth::new(44100.0);
    unmodulated.lfo.input_frequency = 0.0;
    let mut same = true;
    for &sample in &modulated {
        if sample != unmodulated.next_sample().to_bits() {
            same = false;
            break;
        }
    }
    assert!(!same);
}
