//! The modulation-aware phase accumulator and the oscillators built on it.
//!
//! An oscillator's persistent state is its configuration plus one running
//! phase (`modulo`) in cycles. Each sample step converts the target frequency
//! (with modulation) into a phase increment, folds the stored phase back into
//! range when it has crossed a cycle boundary, publishes the folded phase for
//! the sample, and then advances the phase by the increment.

use vstd::prelude::*;
use crate::ieee::{
    add_bits, sub_bits, mul_bits, div_bits, lt_bits, le_bits, gt_bits, ge_bits, neg_bits, add64,
    sub64, mul64, div64, lt64, le64, neg64, ZERO_BITS, ONE_BITS, TWO_BITS, QUARTER_BITS,
    TWELVE_BITS, HUNDRED_BITS, PI_BITS,
};
use crate::fastmath::{spec_parabolic_sine, spec_wrap01, spec_exp2, parabolic_sine, wrap01, exp2};

verus! {

/// Frequencies are clamped to this magnitude (20480 Hz as binary64) before
/// conversion to a phase increment, regardless of modulation inputs.
pub const OSC_MAX_FREQ_BITS: u64 = 0x40D4000000000000; // 20480.0
/// The clamp bound with its sign flipped (-20480 Hz as binary64).
pub const OSC_NEG_MAX_FREQ_BITS: u64 = 0xC0D4000000000000; // -20480.0

/// Persistent per-oscillator state: a fixed configuration (sample rate,
/// base frequency, pitch offsets, gain) and the running phase, all binary64
/// bit patterns. Only `modulo` mutates between render calls.
#[derive(Clone, Copy)]
pub struct OscillatorHelper {
    pub sample_rate: u64,
    pub input_frequency: u64,
    pub octave_offset: u64,
    pub semitone_offset: u64,
    pub cent_offset: u64,
    pub amplitude: u64,
    pub modulo: u64,
}

/// Ephemeral modulation, supplied per sample: an additive semitone-equivalent
/// frequency offset, a multiplicative frequency ratio, an additive phase
/// offset in cycles, and a multiplicative gain.
#[derive(Clone, Copy)]
pub struct ModulationInputs {
    pub frequency_mod: u64,
    pub frequency_mod_ratio: u64,
    pub phase_mod: u64,
    pub amplitude_mod: u64,
}

/// The neutral modulation: no frequency shift, ratio 1, no phase offset,
/// gain 1.
pub open spec fn neutral_inputs() -> ModulationInputs {
    ModulationInputs {
        frequency_mod: ZERO_BITS,
        frequency_mod_ratio: ONE_BITS,
        phase_mod: ZERO_BITS,
        amplitude_mod: ONE_BITS,
    }
}

/// Modulation that carries only an additive frequency offset, the shape the
/// synth graph feeds its tone oscillators from the LFO.
pub open spec fn fm_inputs(frequency_mod: u64) -> ModulationInputs {
    ModulationInputs { frequency_mod, ..neutral_inputs() }
}

impl ModulationInputs {
    /// The neutral modulation, as a value.
    pub fn new() -> (m: Self)
        ensures
            m == neutral_inputs(),
    {
        ModulationInputs {
            frequency_mod: ZERO_BITS,
            frequency_mod_ratio: ONE_BITS,
            phase_mod: ZERO_BITS,
            amplitude_mod: ONE_BITS,
        }
    }

    /// Neutral modulation carrying the given additive frequency offset.
    pub fn with_frequency_mod(frequency_mod: u64) -> (m: Self)
        ensures
            m == fm_inputs(frequency_mod),
    {
        ModulationInputs {
            frequency_mod,
            frequency_mod_ratio: ONE_BITS,
            phase_mod: ZERO_BITS,
            amplitude_mod: ONE_BITS,
        }
    }
}

/// The oscillator's fixed pitch offset in semitone-equivalent units:
/// `octaves*12 + semitones + cents/100`.
pub open spec fn pitch_offset_bits(st: OscillatorHelper) -> u64 {
    add_bits(
        add_bits(mul_bits(st.octave_offset, TWELVE_BITS), st.semitone_offset),
        div_bits(st.cent_offset, HUNDRED_BITS),
    )
}

/// The frequency ratio for a semitone-equivalent shift `x`: `2^(x/12)`,
/// computed with the fast `exp2` approximation.
pub open spec fn spec_pitch_shift_multiplier(x: u64) -> u64 {
    spec_exp2(div_bits(x, TWELVE_BITS))
}

/// The ratio `2^(x/12)` for a pitch shift of `x` semitone-equivalent units.
pub fn pitch_shift_multiplier(x: u64) -> (r: u64)
    ensures
        r == spec_pitch_shift_multiplier(x),
{
    exp2(div64(x, TWELVE_BITS))
}

/// The target frequency before clamping: base frequency times the
/// multiplicative ratio times the exponential pitch-shift of the combined
/// semitone-equivalent offset.
pub open spec fn raw_frequency(st: OscillatorHelper, m: ModulationInputs) -> u64 {
    mul_bits(
        mul_bits(st.input_frequency, m.frequency_mod_ratio),
        spec_pitch_shift_multiplier(add_bits(m.frequency_mod, pitch_offset_bits(st))),
    )
}

/// Clamp a frequency to +/-20480 Hz.
pub open spec fn clamp_frequency(f: u64) -> u64 {
    if gt_bits(f, OSC_MAX_FREQ_BITS) {
        OSC_MAX_FREQ_BITS
    } else if lt_bits(f, OSC_NEG_MAX_FREQ_BITS) {
        OSC_NEG_MAX_FREQ_BITS
    } else {
        f
    }
}

/// The instantaneous frequency used for this sample: the modulated target,
/// clamped.
pub open spec fn computed_frequency(st: OscillatorHelper, m: ModulationInputs) -> u64 {
    clamp_frequency(raw_frequency(st, m))
}

/// The per-sample phase increment: clamped frequency over sample rate.
pub open spec fn phase_increment(st: OscillatorHelper, m: ModulationInputs) -> u64 {
    div_bits(computed_frequency(st, m), st.sample_rate)
}

/// Whether the stored phase sits at or beyond the cycle bound consistent
/// with the sign of the increment, so that this step folds it back.
pub open spec fn wraps(modulo: u64, incr: u64) -> bool {
    (gt_bits(incr, ZERO_BITS) && ge_bits(modulo, ONE_BITS)) || (lt_bits(incr, ZERO_BITS)
        && le_bits(modulo, ZERO_BITS))
}

/// The stored phase after wrap detection: folded back by one cycle when it
/// crossed the bound, unchanged otherwise. This is the phase published for
/// the sample, before the increment advances it.
pub open spec fn folded_modulo(modulo: u64, incr: u64) -> u64 {
    if gt_bits(incr, ZERO_BITS) && ge_bits(modulo, ONE_BITS) {
        sub_bits(modulo, ONE_BITS)
    } else if lt_bits(incr, ZERO_BITS) && le_bits(modulo, ZERO_BITS) {
        add_bits(modulo, ONE_BITS)
    } else {
        modulo
    }
}

/// The stored phase after a full step: fold, then advance by the increment.
pub open spec fn stepped_modulo(modulo: u64, incr: u64) -> u64 {
    add_bits(folded_modulo(modulo, incr), incr)
}

/// The phase published for this sample.
pub open spec fn osc_published(st: OscillatorHelper, m: ModulationInputs) -> u64 {
    folded_modulo(st.modulo, phase_increment(st, m))
}

/// Whether this sample's step folds the phase (a wrap event).
pub open spec fn osc_wrapped(st: OscillatorHelper, m: ModulationInputs) -> bool {
    wraps(st.modulo, phase_increment(st, m))
}

/// The oscillator state after one full sample step: the configuration is
/// untouched, the phase folds and advances.
pub open spec fn osc_next(st: OscillatorHelper, m: ModulationInputs) -> OscillatorHelper {
    OscillatorHelper { modulo: stepped_modulo(st.modulo, phase_increment(st, m)), ..st }
}

/// Map a phase in cycles to an angle in radians centered on zero:
/// `phase*2*pi - pi`.
pub open spec fn angle_bits(phase: u64) -> u64 {
    sub_bits(mul_bits(mul_bits(phase, TWO_BITS), PI_BITS), PI_BITS)
}

/// A tone sample from a published phase: add the phase offset, wrap into the
/// unit interval, map to an angle, negate, take the parabolic sine, and
/// scale by the static gain and the per-sample gain.
pub open spec fn tone_sample(published: u64, st: OscillatorHelper, m: ModulationInputs) -> u64 {
    mul_bits(
        mul_bits(
            spec_parabolic_sine(neg_bits(angle_bits(spec_wrap01(add_bits(published, m.phase_mod))))),
            st.amplitude,
        ),
        m.amplitude_mod,
    )
}

/// The in-phase LFO sample: the tone formula, ignoring the phase offset.
pub open spec fn lfo_sample(published: u64, st: OscillatorHelper, m: ModulationInputs) -> u64 {
    mul_bits(
        mul_bits(spec_parabolic_sine(neg_bits(angle_bits(published))), st.amplitude),
        m.amplitude_mod,
    )
}

/// A quarter cycle ahead of the published phase, folded back when it leaves
/// the unit interval.
pub open spec fn quad_phase(published: u64) -> u64 {
    let q = add_bits(published, QUARTER_BITS);
    if ge_bits(q, ONE_BITS) {
        sub_bits(q, ONE_BITS)
    } else {
        q
    }
}

/// The quadrature LFO sample: the in-phase formula, a quarter cycle ahead.
pub open spec fn lfo_quad_sample(published: u64, st: OscillatorHelper, m: ModulationInputs) -> u64 {
    mul_bits(
        mul_bits(spec_parabolic_sine(neg_bits(angle_bits(quad_phase(published)))), st.amplitude),
        m.amplitude_mod,
    )
}

/// The tone oscillator's output for one step from state `st` under `m`.
pub open spec fn osc_tone_out(st: OscillatorHelper, m: ModulationInputs) -> u64 {
    tone_sample(osc_published(st, m), st, m)
}

/// The LFO's in-phase output for one step from state `st` under `m`.
pub open spec fn osc_lfo_out(st: OscillatorHelper, m: ModulationInputs) -> u64 {
    lfo_sample(osc_published(st, m), st, m)
}

/// The LFO's quadrature output for one step from state `st` under `m`.
pub open spec fn osc_lfo_quad_out(st: OscillatorHelper, m: ModulationInputs) -> u64 {
    lfo_quad_sample(osc_published(st, m), st, m)
}

/// A fresh oscillator configuration at the given sample rate: silent base
/// frequency, no pitch offsets, unit gain, phase zero.
pub open spec fn initial_oscillator(sample_rate: u64) -> OscillatorHelper {
    OscillatorHelper {
        sample_rate,
        input_frequency: ZERO_BITS,
        octave_offset: ZERO_BITS,
        semitone_offset: ZERO_BITS,
        cent_offset: ZERO_BITS,
        amplitude: ONE_BITS,
        modulo: ZERO_BITS,
    }
}

impl OscillatorHelper {
    /// A fresh oscillator at the given sample rate (a binary64 pattern;
    /// it must denote a positive rate for the phase increments to be
    /// meaningful).
    pub fn new(sample_rate: u64) -> (st: Self)
        ensures
            st == initial_oscillator(sample_rate),
    {
        OscillatorHelper {
            sample_rate,
            input_frequency: ZERO_BITS,
            octave_offset: ZERO_BITS,
            semitone_offset: ZERO_BITS,
            cent_offset: ZERO_BITS,
            amplitude: ONE_BITS,
            modulo: ZERO_BITS,
        }
    }

    /// Convert the target frequency (with modulation) into this sample's
    /// phase increment: modulate, clamp to +/-20480 Hz, divide by the
    /// sample rate.
    pub fn update(&self, m: &ModulationInputs) -> (incr: u64)
        ensures
            incr == phase_increment(*self, *m),
    {
        let offset = add64(
            add64(mul64(self.octave_offset, TWELVE_BITS), self.semitone_offset),
            div64(self.cent_offset, HUNDRED_BITS),
        );
        let multiplier = pitch_shift_multiplier(add64(m.frequency_mod, offset));
        let raw = mul64(mul64(self.input_frequency, m.frequency_mod_ratio), multiplier);
        let clamped = if lt64(OSC_MAX_FREQ_BITS, raw) {
            OSC_MAX_FREQ_BITS
        } else if lt64(raw, OSC_NEG_MAX_FREQ_BITS) {
            OSC_NEG_MAX_FREQ_BITS
        } else {
            raw
        };
        div64(clamped, self.sample_rate)
    }

    /// Fold the stored phase back into range when the previous step carried
    /// it past the bound consistent with the increment's sign; report
    /// whether it did. The folded value is the phase published for this
    /// sample.
    pub fn check_wrap_modulo(&mut self, incr: u64) -> (wrapped: bool)
        ensures
            *final(self) == (OscillatorHelper {
                modulo: folded_modulo(old(self).modulo, incr),
                ..*old(self)
            }),
            wrapped == wraps(old(self).modulo, incr),
    {
        if lt64(ZERO_BITS, incr) && le64(ONE_BITS, self.modulo) {
            self.modulo = sub64(self.modulo, ONE_BITS);
            true
        } else if lt64(incr, ZERO_BITS) && le64(self.modulo, ZERO_BITS) {
            self.modulo = add64(self.modulo, ONE_BITS);
            true
        } else {
            false
        }
    }

    /// Advance the stored phase by the increment, after the published value
    /// has been read.
    pub fn increment_modulo(&mut self, incr: u64)
        ensures
            *final(self) == (OscillatorHelper {
                modulo: add_bits(old(self).modulo, incr),
                ..*old(self)
            }),
    {
        self.modulo = add64(self.modulo, incr);
    }
}

/// A tone oscillator: consumes its accumulated phase plus per-sample
/// modulation and emits one waveform sample via the parabolic sine.
#[derive(Clone, Copy)]
pub struct BandLimitedOscillator {
    pub helper: OscillatorHelper,
}

impl BandLimitedOscillator {
    /// A fresh tone oscillator at the given sample rate.
    pub fn new(sample_rate: u64) -> (osc: Self)
        ensures
            osc.helper == initial_oscillator(sample_rate),
    {
        BandLimitedOscillator { helper: OscillatorHelper::new(sample_rate) }
    }

    /// One full sample step: wrap-check the phase, emit the sample from the
    /// published phase, then advance the phase.
    pub fn render(&mut self, m: &ModulationInputs) -> (out: u64)
        ensures
            out == osc_tone_out(old(self).helper, *m),
            final(self).helper == osc_next(old(self).helper, *m),
    {
        let incr = self.helper.update(m);
        self.helper.check_wrap_modulo(incr);
        let phase = wrap01(add64(self.helper.modulo, m.phase_mod));
        let angle = sub64(mul64(mul64(phase, TWO_BITS), PI_BITS), PI_BITS);
        let out = parabolic_sine(neg64(angle));
        self.helper.increment_modulo(incr);
        mul64(mul64(out, self.helper.amplitude), m.amplitude_mod)
    }
}

/// A low-frequency oscillator emitting both an in-phase sample and one a
/// quarter cycle ahead, used as a shared modulation source.
#[derive(Clone, Copy)]
pub struct LFO {
    pub helper: OscillatorHelper,
}

impl LFO {
    /// A fresh LFO at the given sample rate.
    pub fn new(sample_rate: u64) -> (osc: Self)
        ensures
            osc.helper == initial_oscillator(sample_rate),
    {
        LFO { helper: OscillatorHelper::new(sample_rate) }
    }

    /// One full sample step: wrap-check the phase, emit the in-phase and
    /// quadrature samples from the published phase, then advance the phase.
    pub fn render(&mut self, m: &ModulationInputs) -> (out: (u64, u64))
        ensures
            out.0 == osc_lfo_out(old(self).helper, *m),
            out.1 == osc_lfo_quad_out(old(self).helper, *m),
            final(self).helper == osc_next(old(self).helper, *m),
    {
        let incr = self.helper.update(m);
        self.helper.check_wrap_modulo(incr);
        let angle = sub64(mul64(mul64(self.helper.modulo, TWO_BITS), PI_BITS), PI_BITS);
        let out = parabolic_sine(neg64(angle));

        let q = add64(self.helper.modulo, QUARTER_BITS);
        let quad_phase_val = if le64(ONE_BITS, q) {
            sub64(q, ONE_BITS)
        } else {
            q
        };
        let quad_angle = sub64(mul64(mul64(quad_phase_val, TWO_BITS), PI_BITS), PI_BITS);
        let quad_out = parabolic_sine(neg64(quad_angle));

        self.helper.increment_modulo(incr);
        (
            mul64(mul64(out, self.helper.amplitude), m.amplitude_mod),
            mul64(mul64(quad_out, self.helper.amplitude), m.amplitude_mod),
        )
    }
}

} // verus!
