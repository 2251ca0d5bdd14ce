//! Fixed-size batch processing with each per-sample quantity stored in its
//! own array (a structure-of-arrays layout): every render call walks the
//! buffer in whole batches of 64 samples, and each oscillator fills its
//! batch of published phases before its batch of outputs.

use vstd::prelude::*;
use vstd::pervasive::VecAdditionalExecFns;
use crate::ieee::{
    add64, sub64, mul64, neg64, le64, ZERO_BITS, ONE_BITS, TWO_BITS, QUARTER_BITS, PI_BITS,
};
use crate::fastmath::{parabolic_sine, wrap01};
use crate::oscillator::{OscillatorHelper as OscillatorState, ModulationInputs};
use crate::graph::{
    GraphState, initial_graph, driven_after, driven_published_at, driven_wrapped_at, driven_out_at,
    lfo_after, lfo_out_at, lfo_quad_out_at, tone_after, tone_inputs, graph_out_at, graph_after,
    mix, lemma_driven_after_config, lemma_lfo_after_config, lemma_driven_zero_is_lfo,
    lemma_lfo_after_add, lemma_lfo_out_shift, lemma_driven_matches_tone, GRAPH_BASE_FREQ_BITS,
    GRAPH_DETUNE_CENTS_BITS, GRAPH_LFO_FREQ_BITS,
};
use crate::oscillator::{
    fm_inputs, neutral_inputs, osc_next, osc_published, osc_wrapped, initial_oscillator,
};

verus! {

/// Samples are processed in fixed batches of this many frames.
pub const BATCH_SIZE: usize = 64;

/// A vector holding `n` copies of `value`.
pub(crate) fn filled_u64(value: u64, n: usize) -> (v: Vec<u64>)
    ensures
        v@.len() == n,
        forall|j: int| 0 <= j < n ==> v@[j] == value,
{
    let mut v: Vec<u64> = Vec::new();
    let mut i: usize = 0;
    while i < n
        invariant
            i <= n,
            v@.len() == i,
            forall|j: int| 0 <= j < i ==> v@[j] == value,
        decreases n - i,
    {
        v.push(value);
        i = i + 1;
    }
    v
}

/// A vector holding `n` copies of `value`.
fn filled_bool(value: bool, n: usize) -> (v: Vec<bool>)
    ensures
        v@.len() == n,
        forall|j: int| 0 <= j < n ==> v@[j] == value,
{
    let mut v: Vec<bool> = Vec::new();
    let mut i: usize = 0;
    while i < n
        invariant
            i <= n,
            v@.len() == i,
            forall|j: int| 0 <= j < i ==> v@[j] == value,
        decreases n - i,
    {
        v.push(value);
        i = i + 1;
    }
    v
}

/// The batch phase accumulator: the scalar oscillator state plus one array
/// per batch quantity — the frequency offsets it is driven by, and the
/// published phase and wrap flag of each frame of the current batch.
pub struct OscillatorHelper {
    pub state: OscillatorState,
    pub frequency_mod: Vec<u64>,
    pub modulo: Vec<u64>,
    pub wrap_modulo: Vec<bool>,
}

impl OscillatorHelper {
    /// The batch arrays hold exactly one batch.
    pub open spec fn wf(&self) -> bool {
        self.frequency_mod@.len() == 64 && self.modulo@.len() == 64 && self.wrap_modulo@.len()
            == 64
    }

    /// A fresh batch accumulator at the given sample rate: neutral driving
    /// offsets, zeroed batch outputs.
    pub fn new(sample_rate: u64) -> (h: Self)
        ensures
            h.wf(),
            h.state == initial_oscillator(sample_rate),
            forall|j: int| 0 <= j < 64 ==> h.frequency_mod@[j] == ZERO_BITS,
    {
        OscillatorHelper {
            state: OscillatorState::new(sample_rate),
            frequency_mod: filled_u64(ZERO_BITS, BATCH_SIZE),
            modulo: filled_u64(ZERO_BITS, BATCH_SIZE),
            wrap_modulo: filled_bool(false, BATCH_SIZE),
        }
    }

    /// Overwrite the driving frequency offsets with one batch of values.
    pub fn set_frequency_mod(&mut self, src: &Vec<u64>)
        requires
            old(self).wf(),
            src@.len() == 64,
        ensures
            final(self).wf(),
            final(self).frequency_mod@ == src@,
            final(self).state == old(self).state,
            final(self).modulo == old(self).modulo,
            final(self).wrap_modulo == old(self).wrap_modulo,
    {
        let mut i: usize = 0;
        while i < BATCH_SIZE
            invariant
                i <= 64,
                src@.len() == 64,
                self.frequency_mod@.len() == 64,
                self.modulo@.len() == 64,
                self.wrap_modulo@.len() == 64,
                self.state == old(self).state,
                self.modulo == old(self).modulo,
                self.wrap_modulo == old(self).wrap_modulo,
                forall|j: int| 0 <= j < i ==> self.frequency_mod@[j] == src@[j],
            decreases 64 - i,
        {
            let x = src[i];
            self.frequency_mod.set(i, x);
            i = i + 1;
        }
        assert(self.frequency_mod@ =~= src@);
    }

    /// Run one whole batch of phase-accumulation steps: for each frame,
    /// convert the driving offset into an increment, fold the phase on a
    /// wrap, publish the folded phase and the wrap flag, and advance.
    pub fn update(&mut self)
        requires
            old(self).wf(),
        ensures
            final(self).wf(),
            final(self).frequency_mod@ == old(self).frequency_mod@,
            final(self).state == driven_after(old(self).state, old(self).frequency_mod@, 64),
            forall|j: int|
                0 <= j < 64 ==> final(self).modulo@[j] == driven_published_at(
                    old(self).state,
                    old(self).frequency_mod@,
                    j as nat,
                ),
            forall|j: int|
                0 <= j < 64 ==> final(self).wrap_modulo@[j] == driven_wrapped_at(
                    old(self).state,
                    old(self).frequency_mod@,
                    j as nat,
                ),
    {
        let ghost s0 = self.state;
        let ghost fm0 = self.frequency_mod@;
        let mut j: usize = 0;
        while j < BATCH_SIZE
            invariant
                j <= 64,
                self.frequency_mod@ == fm0,
                fm0.len() == 64,
                self.modulo@.len() == 64,
                self.wrap_modulo@.len() == 64,
                self.state == driven_after(s0, fm0, j as nat),
                forall|t: int|
                    0 <= t < j ==> self.modulo@[t] == driven_published_at(s0, fm0, t as nat),
                forall|t: int|
                    0 <= t < j ==> self.wrap_modulo@[t] == driven_wrapped_at(s0, fm0, t as nat),
            decreases 64 - j,
        {
            let ghost st_j = self.state;
            let fmj = self.frequency_mod[j];
            let m = ModulationInputs::with_frequency_mod(fmj);
            let incr = self.state.update(&m);
            let wrapped = self.state.check_wrap_modulo(incr);
            let published = self.state.modulo;
            self.modulo.set(j, published);
            self.wrap_modulo.set(j, wrapped);
            self.state.increment_modulo(incr);
            proof {
                assert(published == osc_published(st_j, fm_inputs(fm0[j as int])));
                assert(wrapped == osc_wrapped(st_j, fm_inputs(fm0[j as int])));
                assert(self.state == osc_next(st_j, fm_inputs(fm0[j as int])));
                assert(driven_after(s0, fm0, (j + 1) as nat) == osc_next(
                    driven_after(s0, fm0, j as nat),
                    fm_inputs(fm0[j as int]),
                ));
            }
            j = j + 1;
        }
    }
}

/// The batch tone oscillator: a batch accumulator plus its batch of output
/// samples.
pub struct BandLimitedOscillator {
    pub helper: OscillatorHelper,
    pub output: Vec<u64>,
}

impl BandLimitedOscillator {
    /// The accumulator and the output array hold exactly one batch.
    pub open spec fn wf(&self) -> bool {
        self.helper.wf() && self.output@.len() == 64
    }

    /// A fresh batch tone oscillator at the given sample rate.
    pub fn new(sample_rate: u64) -> (osc: Self)
        ensures
            osc.wf(),
            osc.helper.state == initial_oscillator(sample_rate),
    {
        BandLimitedOscillator {
            helper: OscillatorHelper::new(sample_rate),
            output: filled_u64(ZERO_BITS, BATCH_SIZE),
        }
    }

    /// Render one batch: run the accumulator, then turn each published
    /// phase into a waveform sample scaled by the gains.
    pub fn render(&mut self)
        requires
            old(self).wf(),
        ensures
            final(self).wf(),
            final(self).helper.frequency_mod@ == old(self).helper.frequency_mod@,
            final(self).helper.state == driven_after(
                old(self).helper.state,
                old(self).helper.frequency_mod@,
                64,
            ),
            forall|j: int|
                0 <= j < 64 ==> final(self).output@[j] == driven_out_at(
                    old(self).helper.state,
                    old(self).helper.frequency_mod@,
                    j as nat,
                ),
    {
        let ghost s0 = self.helper.state;
        let ghost fm0 = self.helper.frequency_mod@;
        self.helper.update();
        let mut j: usize = 0;
        while j < BATCH_SIZE
            invariant
                j <= 64,
                self.helper.wf(),
                self.output@.len() == 64,
                self.helper.frequency_mod@ == fm0,
                self.helper.state == driven_after(s0, fm0, 64),
                forall|t: int|
                    0 <= t < 64 ==> self.helper.modulo@[t] == driven_published_at(
                        s0,
                        fm0,
                        t as nat,
                    ),
                forall|t: int| 0 <= t < j ==> self.output@[t] == driven_out_at(s0, fm0, t as nat),
            decreases 64 - j,
        {
            let published = self.helper.modulo[j];
            let phase = wrap01(add64(published, ZERO_BITS));
            let angle = sub64(mul64(mul64(phase, TWO_BITS), PI_BITS), PI_BITS);
            let out = parabolic_sine(neg64(angle));
            let scaled = mul64(mul64(out, self.helper.state.amplitude), ONE_BITS);
            self.output.set(j, scaled);
            proof {
                lemma_driven_after_config(s0, fm0, 64);
                lemma_driven_after_config(s0, fm0, j as nat);
                assert(fm_inputs(fm0[j as int]).phase_mod == ZERO_BITS);
                assert(scaled == driven_out_at(s0, fm0, j as nat));
            }
            j = j + 1;
        }
    }
}

/// The batch LFO: a batch accumulator (always driven by zero offsets) plus
/// its batches of in-phase and quadrature output samples.
pub struct LFO {
    pub helper: OscillatorHelper,
    pub output: Vec<u64>,
    pub quad_output: Vec<u64>,
}

impl LFO {
    /// One batch in every array, and the driving offsets pinned to zero:
    /// the LFO always runs under neutral modulation.
    pub open spec fn wf(&self) -> bool {
        self.helper.wf() && self.output@.len() == 64 && self.quad_output@.len() == 64
            && forall|j: int| 0 <= j < 64 ==> self.helper.frequency_mod@[j] == ZERO_BITS
    }

    /// A fresh batch LFO at the given sample rate.
    pub fn new(sample_rate: u64) -> (osc: Self)
        ensures
            osc.wf(),
            osc.helper.state == initial_oscillator(sample_rate),
    {
        LFO {
            helper: OscillatorHelper::new(sample_rate),
            output: filled_u64(ZERO_BITS, BATCH_SIZE),
            quad_output: filled_u64(ZERO_BITS, BATCH_SIZE),
        }
    }

    /// Render one batch: run the accumulator under neutral modulation, then
    /// turn each published phase into the in-phase sample and the sample a
    /// quarter cycle ahead.
    pub fn render(&mut self)
        requires
            old(self).wf(),
        ensures
            final(self).wf(),
            final(self).helper.state == lfo_after(old(self).helper.state, 64),
            forall|j: int|
                0 <= j < 64 ==> final(self).output@[j] == lfo_out_at(
                    old(self).helper.state,
                    j as nat,
                ),
            forall|j: int|
                0 <= j < 64 ==> final(self).quad_output@[j] == lfo_quad_out_at(
                    old(self).helper.state,
                    j as nat,
                ),
    {
        let ghost s0 = self.helper.state;
        let ghost fm0 = self.helper.frequency_mod@;
        self.helper.update();
        proof {
            lemma_driven_zero_is_lfo(s0, fm0, 64);
        }
        let mut j: usize = 0;
        while j < BATCH_SIZE
            invariant
                j <= 64,
                self.helper.wf(),
                self.output@.len() == 64,
                self.quad_output@.len() == 64,
                self.helper.frequency_mod@ == fm0,
                fm0.len() == 64,
                forall|t: int| 0 <= t < 64 ==> fm0[t] == ZERO_BITS,
                self.helper.state == driven_after(s0, fm0, 64),
                forall|t: int|
                    0 <= t < 64 ==> self.helper.modulo@[t] == driven_published_at(
                        s0,
                        fm0,
                        t as nat,
                    ),
                forall|t: int| 0 <= t < j ==> self.output@[t] == lfo_out_at(s0, t as nat),
                forall|t: int| 0 <= t < j ==> self.quad_output@[t] == lfo_quad_out_at(s0, t as nat),
            decreases 64 - j,
        {
            let published = self.helper.modulo[j];
            let angle = sub64(mul64(mul64(published, TWO_BITS), PI_BITS), PI_BITS);
            let out = parabolic_sine(neg64(angle));
            let amp = self.helper.state.amplitude;
            let scaled = mul64(mul64(out, amp), ONE_BITS);
            self.output.set(j, scaled);

            let q = add64(published, QUARTER_BITS);
            let quad_phase_val = if le64(ONE_BITS, q) {
                sub64(q, ONE_BITS)
            } else {
                q
            };
            let quad_angle = sub64(mul64(mul64(quad_phase_val, TWO_BITS), PI_BITS), PI_BITS);
            let quad_out = parabolic_sine(neg64(quad_angle));
            let quad_scaled = mul64(mul64(quad_out, amp), ONE_BITS);
            self.quad_output.set(j, quad_scaled);
            proof {
                lemma_driven_zero_is_lfo(s0, fm0, j as nat);
                lemma_driven_after_config(s0, fm0, 64);
                lemma_lfo_after_config(s0, j as nat);
                assert(fm_inputs(fm0[j as int]) == neutral_inputs());
                assert(published == osc_published(lfo_after(s0, j as nat), neutral_inputs()));
                assert(scaled == lfo_out_at(s0, j as nat));
                assert(quad_scaled == lfo_quad_out_at(s0, j as nat));
            }
            j = j + 1;
        }
        proof {
            lemma_driven_zero_is_lfo(s0, fm0, 64);
        }
    }
}

/// The synth under the structure-of-arrays batch layout.
pub struct Synth {
    pub osc1: BandLimitedOscillator,
    pub osc2: BandLimitedOscillator,
    pub lfo: LFO,
}

impl Synth {
    /// The batch arrays of every oscillator hold exactly one batch, and
    /// the LFO's driving offsets are pinned to zero.
    pub open spec fn wf(&self) -> bool {
        self.osc1.wf() && self.osc2.wf() && self.lfo.wf()
    }

    /// The graph state carried by this synth.
    pub open spec fn graph(&self) -> GraphState {
        GraphState {
            osc1: self.osc1.helper.state,
            osc2: self.osc2.helper.state,
            lfo: self.lfo.helper.state,
        }
    }

    /// A synth at the given sample rate (a binary64 pattern denoting a
    /// positive rate): both tone oscillators at 440 Hz, the second detuned
    /// by 2.5 cents, the LFO at 0.5 Hz.
    pub fn new(sample_rate: u64) -> (s: Self)
        ensures
            s.wf(),
            s.graph() == initial_graph(sample_rate),
    {
        let mut osc1 = BandLimitedOscillator::new(sample_rate);
        let mut osc2 = BandLimitedOscillator::new(sample_rate);
        let mut lfo = LFO::new(sample_rate);
        osc1.helper.state.input_frequency = GRAPH_BASE_FREQ_BITS;
        osc2.helper.state.input_frequency = GRAPH_BASE_FREQ_BITS;
        osc2.helper.state.cent_offset = GRAPH_DETUNE_CENTS_BITS;
        lfo.helper.state.input_frequency = GRAPH_LFO_FREQ_BITS;
        Synth { osc1, osc2, lfo }
    }

    /// Render whole batches of 64 samples into `buffer`: per batch, the LFO
    /// fills its outputs, both tone oscillators take them as frequency
    /// offsets and fill theirs, and the 50/50 mix lands in the buffer. The
    /// filled prefix equals the graph's mathematical stream; a trailing
    /// partial batch is left untouched.
    pub fn render(&mut self, buffer: &mut Vec<u64>)
        requires
            old(self).wf(),
        ensures
            final(self).wf(),
            final(buffer)@.len() == old(buffer)@.len(),
            forall|t: int|
                0 <= t < 64 * (old(buffer)@.len() as int / 64) ==> final(buffer)@[t]
                    == graph_out_at(old(self).graph(), t as nat),
            forall|t: int|
                64 * (old(buffer)@.len() as int / 64) <= t < old(buffer)@.len()
                    ==> final(buffer)@[t] == old(buffer)@[t],
            final(self).graph() == graph_after(
                old(self).graph(),
                (64 * (old(buffer)@.len() as int / 64)) as nat,
            ),
    {
        let ghost g0 = self.graph();
        let ghost buf0 = buffer@;
        let n = buffer.len();
        let batches = n / BATCH_SIZE;
        let mut b: usize = 0;
        while b < batches
            invariant
                b <= batches,
                batches == n / 64,
                buffer@.len() == n,
                buf0.len() == n,
                self.wf(),
                self.lfo.helper.state == lfo_after(g0.lfo, (64 * b) as nat),
                self.osc1.helper.state == tone_after(g0.osc1, g0.lfo, (64 * b) as nat),
                self.osc2.helper.state == tone_after(g0.osc2, g0.lfo, (64 * b) as nat),
                forall|t: int| 0 <= t < 64 * b ==> buffer@[t] == graph_out_at(g0, t as nat),
                forall|t: int| 64 * b <= t < n ==> buffer@[t] == buf0[t],
            decreases batches - b,
        {
            proof {
                assert(64 * (b + 1) <= 64 * (n as int / 64));
                assert(64 * (n as int / 64) <= n);
            }
            let ghost base = (64 * b) as nat;
            let ghost l_base = self.lfo.helper.state;
            let ghost t1_base = self.osc1.helper.state;
            let ghost t2_base = self.osc2.helper.state;
            self.lfo.render();
            self.osc1.helper.set_frequency_mod(&self.lfo.output);
            self.osc2.helper.set_frequency_mod(&self.lfo.output);
            let ghost fm = self.lfo.output@;
            proof {
                assert forall|j: int| 0 <= j < 64 implies fm[j] == lfo_out_at(
                    g0.lfo,
                    (base + j) as nat,
                ) by {
                    lemma_lfo_out_shift(g0.lfo, base, j as nat);
                }
            }
            self.osc1.render();
            self.osc2.render();
            proof {
                lemma_driven_matches_tone(g0.osc1, g0.lfo, base, fm, 64);
                lemma_driven_matches_tone(g0.osc2, g0.lfo, base, fm, 64);
                lemma_lfo_after_add(g0.lfo, base, 64);
            }
            let offset = b * BATCH_SIZE;
            let mut j: usize = 0;
            while j < BATCH_SIZE
                invariant
                    j <= 64,
                    b < batches,
                    batches == n / 64,
                    offset == 64 * b,
                    64 * b + 64 <= n,
                    base == 64 * b,
                    fm.len() == 64,
                    forall|t: int| 0 <= t < 64 ==> fm[t] == lfo_out_at(g0.lfo, (base + t) as nat),
                    t1_base == tone_after(g0.osc1, g0.lfo, base),
                    t2_base == tone_after(g0.osc2, g0.lfo, base),
                    buffer@.len() == n,
                    buf0.len() == n,
                    self.wf(),
                    self.osc1.output@.len() == 64,
                    self.osc2.output@.len() == 64,
                    forall|t: int|
                        0 <= t < 64 ==> self.osc1.output@[t] == driven_out_at(
                            t1_base,
                            fm,
                            t as nat,
                        ),
                    forall|t: int|
                        0 <= t < 64 ==> self.osc2.output@[t] == driven_out_at(
                            t2_base,
                            fm,
                            t as nat,
                        ),
                    forall|t: int| 0 <= t < 64 * b + j ==> buffer@[t] == graph_out_at(g0, t as nat),
                    forall|t: int| 64 * b + j <= t < n ==> buffer@[t] == buf0[t],
                    self.lfo.helper.state == lfo_after(g0.lfo, (64 * b + 64) as nat),
                    self.osc1.helper.state == tone_after(g0.osc1, g0.lfo, (64 * b + 64) as nat),
                    self.osc2.helper.state == tone_after(g0.osc2, g0.lfo, (64 * b + 64) as nat),
                decreases 64 - j,
            {
                let o1 = self.osc1.output[j];
                let o2 = self.osc2.output[j];
                let sample = mix(o1, o2);
                buffer.set(offset + j, sample);
                proof {
                    lemma_driven_matches_tone(g0.osc1, g0.lfo, base, fm, j as nat);
                    lemma_driven_matches_tone(g0.osc2, g0.lfo, base, fm, j as nat);
                    assert(fm_inputs(fm[j as int]) == tone_inputs(g0.lfo, (base + j) as nat));
                    assert(sample == graph_out_at(g0, (base + j) as nat));
                }
                j = j + 1;
            }
            b = b + 1;
        }
        proof {
            assert(64 * (batches as int) == 64 * (n as int / 64));
        }
    }
}

} // verus!
