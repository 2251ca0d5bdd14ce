//! Fixed-size batch processing with each batch stored as an array of
//! per-sample records (an array-of-structs layout): every render call walks
//! the buffer in whole batches of 64 samples, and each oscillator fills the
//! per-sample fields of its records before its batch of outputs.

use vstd::prelude::*;
use vstd::pervasive::VecAdditionalExecFns;
use crate::ieee::{
    add64, sub64, mul64, neg64, le64, ZERO_BITS, ONE_BITS, TWO_BITS, QUARTER_BITS, PI_BITS,
};
use crate::fastmath::{parabolic_sine, wrap01};
use crate::oscillator::{
    OscillatorHelper as OscillatorState, ModulationInputs, fm_inputs, neutral_inputs, osc_next,
    osc_published, osc_wrapped, initial_oscillator,
};
use crate::graph::{
    GraphState, initial_graph, driven_after, driven_published_at, driven_wrapped_at, driven_out_at,
    lfo_after, lfo_out_at, lfo_quad_out_at, tone_after, tone_inputs, graph_out_at, graph_after,
    mix, lemma_driven_after_config, lemma_lfo_after_config, lemma_driven_zero_is_lfo,
    lemma_lfo_after_add, lemma_lfo_out_shift, lemma_driven_matches_tone, GRAPH_BASE_FREQ_BITS,
    GRAPH_DETUNE_CENTS_BITS, GRAPH_LFO_FREQ_BITS,
};

verus! {

/// Samples are processed in fixed batches of this many frames.
pub const BATCH_SIZE: usize = 64;

/// The audio-rate data of one frame of a batch: the frequency offset the
/// frame is driven by, and the phase and wrap flag it publishes.
#[derive(Clone, Copy)]
pub struct OscillatorAudioRate {
    pub frequency_mod: u64,
    pub modulo: u64,
    pub wrap_modulo: bool,
}

/// A vector holding `n` copies of the neutral audio-rate record.
fn filled_records(n: usize) -> (v: Vec<OscillatorAudioRate>)
    ensures
        v@.len() == n,
        forall|j: int|
            0 <= j < n ==> v@[j] == (OscillatorAudioRate {
                frequency_mod: ZERO_BITS,
                modulo: ZERO_BITS,
                wrap_modulo: false,
            }),
{
    let mut v: Vec<OscillatorAudioRate> = Vec::new();
    let mut i: usize = 0;
    while i < n
        invariant
            i <= n,
            v@.len() == i,
            forall|j: int|
                0 <= j < i ==> v@[j] == (OscillatorAudioRate {
                    frequency_mod: ZERO_BITS,
                    modulo: ZERO_BITS,
                    wrap_modulo: false,
                }),
        decreases n - i,
    {
        v.push(OscillatorAudioRate { frequency_mod: ZERO_BITS, modulo: ZERO_BITS, wrap_modulo: false });
        i = i + 1;
    }
    v
}

/// The batch phase accumulator: the scalar oscillator state plus one record
/// per frame of the current batch.
pub struct OscillatorHelper {
    pub state: OscillatorState,
    pub audio_rate: Vec<OscillatorAudioRate>,
}

impl OscillatorHelper {
    /// The record array holds exactly one batch.
    pub open spec fn wf(&self) -> bool {
        self.audio_rate@.len() == 64
    }

    /// The sequence of driving frequency offsets held by the records.
    pub open spec fn fm_seq(&self) -> Seq<u64> {
        Seq::new(self.audio_rate@.len(), |j: int| self.audio_rate@[j].frequency_mod)
    }

    /// A fresh batch accumulator at the given sample rate, all records
    /// neutral.
    pub fn new(sample_rate: u64) -> (h: Self)
        ensures
            h.wf(),
            h.state == initial_oscillator(sample_rate),
            forall|j: int|
                0 <= j < 64 ==> h.audio_rate@[j] == (OscillatorAudioRate {
                    frequency_mod: ZERO_BITS,
                    modulo: ZERO_BITS,
                    wrap_modulo: false,
                }),
    {
        OscillatorHelper {
            state: OscillatorState::new(sample_rate),
            audio_rate: filled_records(BATCH_SIZE),
        }
    }

    /// Overwrite each record's driving frequency offset with the in-phase
    /// half of the matching source pair.
    pub fn set_frequency_mod(&mut self, src: &Vec<(u64, u64)>)
        requires
            old(self).wf(),
            src@.len() == 64,
        ensures
            final(self).wf(),
            final(self).state == old(self).state,
            forall|j: int| 0 <= j < 64 ==> final(self).fm_seq()[j] == src@[j].0,
            forall|j: int|
                0 <= j < 64 ==> final(self).audio_rate@[j] == (OscillatorAudioRate {
                    frequency_mod: src@[j].0,
                    ..old(self).audio_rate@[j]
                }),
    {
        let mut i: usize = 0;
        while i < BATCH_SIZE
            invariant
                i <= 64,
                src@.len() == 64,
                self.audio_rate@.len() == 64,
                self.state == old(self).state,
                forall|j: int|
                    0 <= j < i ==> self.audio_rate@[j] == (OscillatorAudioRate {
                        frequency_mod: src@[j].0,
                        ..old(self).audio_rate@[j]
                    }),
                forall|j: int| i <= j < 64 ==> self.audio_rate@[j] == old(self).audio_rate@[j],
            decreases 64 - i,
        {
            let rec = self.audio_rate[i];
            let pair = src[i];
            self.audio_rate.set(i, OscillatorAudioRate { frequency_mod: pair.0, ..rec });
            i = i + 1;
        }
    }

    /// Run one whole batch of phase-accumulation steps: for each record,
    /// convert its driving offset into an increment, fold the phase on a
    /// wrap, publish the folded phase and the wrap flag into the record,
    /// and advance.
    pub fn update(&mut self)
        requires
            old(self).wf(),
        ensures
            final(self).wf(),
            final(self).fm_seq() == old(self).fm_seq(),
            final(self).state == driven_after(old(self).state, old(self).fm_seq(), 64),
            forall|j: int|
                0 <= j < 64 ==> final(self).audio_rate@[j] == (OscillatorAudioRate {
                    frequency_mod: old(self).audio_rate@[j].frequency_mod,
                    modulo: driven_published_at(old(self).state, old(self).fm_seq(), j as nat),
                    wrap_modulo: driven_wrapped_at(old(self).state, old(self).fm_seq(), j as nat),
                }),
    {
        let ghost s0 = self.state;
        let ghost fm0 = self.fm_seq();
        let mut j: usize = 0;
        while j < BATCH_SIZE
            invariant
                j <= 64,
                self.audio_rate@.len() == 64,
                fm0.len() == 64,
                forall|t: int| j <= t < 64 ==> self.audio_rate@[t] == old(self).audio_rate@[t],
                forall|t: int| 0 <= t < 64 ==> fm0[t] == old(self).audio_rate@[t].frequency_mod,
                self.state == driven_after(s0, fm0, j as nat),
                forall|t: int|
                    0 <= t < j ==> self.audio_rate@[t] == (OscillatorAudioRate {
                        frequency_mod: fm0[t],
                        modulo: driven_published_at(s0, fm0, t as nat),
                        wrap_modulo: driven_wrapped_at(s0, fm0, t as nat),
                    }),
            decreases 64 - j,
        {
            let ghost st_j = self.state;
            let rec = self.audio_rate[j];
            let m = ModulationInputs::with_frequency_mod(rec.frequency_mod);
            let incr = self.state.update(&m);
            let wrapped = self.state.check_wrap_modulo(incr);
            let published = self.state.modulo;
            self.audio_rate.set(
                j,
                OscillatorAudioRate {
                    frequency_mod: rec.frequency_mod,
                    modulo: published,
                    wrap_modulo: wrapped,
                },
            );
            self.state.increment_modulo(incr);
            proof {
                assert(rec.frequency_mod == fm0[j as int]);
                assert(published == osc_published(st_j, fm_inputs(fm0[j as int])));
                assert(wrapped == osc_wrapped(st_j, fm_inputs(fm0[j as int])));
                assert(self.state == osc_next(st_j, fm_inputs(fm0[j as int])));
                assert(driven_after(s0, fm0, (j + 1) as nat) == osc_next(
                    driven_after(s0, fm0, j as nat),
                    fm_inputs(fm0[j as int]),
                ));
            }
            j = j + 1;
        }
        assert(self.fm_seq() =~= fm0);
    }
}

/// The batch tone oscillator: a record-batch accumulator plus its batch of
/// output samples.
pub struct BandLimitedOscillator {
    pub helper: OscillatorHelper,
    pub output: Vec<u64>,
}

impl BandLimitedOscillator {
    /// The accumulator and the output array hold exactly one batch.
    pub open spec fn wf(&self) -> bool {
        self.helper.wf() && self.output@.len() == 64
    }

    /// A fresh batch tone oscillator at the given sample rate.
    pub fn new(sample_rate: u64) -> (osc: Self)
        ensures
            osc.wf(),
            osc.helper.state == initial_oscillator(sample_rate),
    {
        BandLimitedOscillator {
            helper: OscillatorHelper::new(sample_rate),
            output: crate::fixed_batch_size::filled_u64(ZERO_BITS, BATCH_SIZE),
        }
    }

    /// Render one batch: run the accumulator, then turn each record's
    /// published phase into a waveform sample scaled by the gains.
    pub fn render(&mut self)
        requires
            old(self).wf(),
        ensures
            final(self).wf(),
            final(self).helper.fm_seq() == old(self).helper.fm_seq(),
            final(self).helper.state == driven_after(
                old(self).helper.state,
                old(self).helper.fm_seq(),
                64,
            ),
            forall|j: int|
                0 <= j < 64 ==> final(self).output@[j] == driven_out_at(
                    old(self).helper.state,
                    old(self).helper.fm_seq(),
                    j as nat,
                ),
    {
        let ghost s0 = self.helper.state;
        let ghost fm0 = self.helper.fm_seq();
        self.helper.update();
        let mut j: usize = 0;
        while j < BATCH_SIZE
            invariant
                j <= 64,
                self.helper.wf(),
                self.output@.len() == 64,
                self.helper.fm_seq() == fm0,
                self.helper.state == driven_after(s0, fm0, 64),
                forall|t: int|
                    0 <= t < 64 ==> self.helper.audio_rate@[t].modulo == driven_published_at(
                        s0,
                        fm0,
                        t as nat,
                    ),
                forall|t: int| 0 <= t < j ==> self.output@[t] == driven_out_at(s0, fm0, t as nat),
            decreases 64 - j,
        {
            let published = self.helper.audio_rate[j].modulo;
            let phase = wrap01(add64(published, ZERO_BITS));
            let angle = sub64(mul64(mul64(phase, TWO_BITS), PI_BITS), PI_BITS);
            let out = parabolic_sine(neg64(angle));
            let scaled = mul64(mul64(out, self.helper.state.amplitude), ONE_BITS);
            self.output.set(j, scaled);
            proof {
                lemma_driven_after_config(s0, fm0, 64);
                lemma_driven_after_config(s0, fm0, j as nat);
                assert(fm_inputs(fm0[j as int]).phase_mod == ZERO_BITS);
                assert(scaled == driven_out_at(s0, fm0, j as nat));
            }
            j = j + 1;
        }
    }
}

/// The batch LFO: a record-batch accumulator (always driven by zero
/// offsets) plus its batch of (in-phase, quadrature) output pairs.
pub struct LFO {
    pub helper: OscillatorHelper,
    pub output: Vec<(u64, u64)>,
}

impl LFO {
    /// One batch in every array, and the driving offsets pinned to zero:
    /// the LFO always runs under neutral modulation.
    pub open spec fn wf(&self) -> bool {
        self.helper.wf() && self.output@.len() == 64 && forall|j: int|
            0 <= j < 64 ==> self.helper.audio_rate@[j].frequency_mod == ZERO_BITS
    }

    /// A fresh batch LFO at the given sample rate.
    pub fn new(sample_rate: u64) -> (osc: Self)
        ensures
            osc.wf(),
            osc.helper.state == initial_oscillator(sample_rate),
    {
        let mut output: Vec<(u64, u64)> = Vec::new();
        let mut i: usize = 0;
        while i < BATCH_SIZE
            invariant
                i <= 64,
                output@.len() == i,
            decreases 64 - i,
        {
            output.push((ZERO_BITS, ZERO_BITS));
            i = i + 1;
        }
        LFO { helper: OscillatorHelper::new(sample_rate), output }
    }

    /// Render one batch: run the accumulator under neutral modulation, then
    /// turn each record's published phase into the in-phase sample and the
    /// sample a quarter cycle ahead.
    pub fn render(&mut self)
        requires
            old(self).wf(),
        ensures
            final(self).wf(),
            final(self).helper.state == lfo_after(old(self).helper.state, 64),
            forall|j: int|
                0 <= j < 64 ==> final(self).output@[j].0 == lfo_out_at(
                    old(self).helper.state,
                    j as nat,
                ),
            forall|j: int|
                0 <= j < 64 ==> final(self).output@[j].1 == lfo_quad_out_at(
                    old(self).helper.state,
                    j as nat,
                ),
    {
        let ghost s0 = self.helper.state;
        let ghost fm0 = self.helper.fm_seq();
        proof {
            assert forall|t: int| 0 <= t < 64 implies fm0[t] == ZERO_BITS by {}
        }
        self.helper.update();
        proof {
            lemma_driven_zero_is_lfo(s0, fm0, 64);
        }
        let mut j: usize = 0;
        while j < BATCH_SIZE
            invariant
                j <= 64,
                self.helper.wf(),
                self.output@.len() == 64,
                fm0.len() == 64,
                forall|t: int| 0 <= t < 64 ==> fm0[t] == ZERO_BITS,
                forall|t: int|
                    0 <= t < 64 ==> self.helper.audio_rate@[t].frequency_mod == fm0[t],
                self.helper.state == driven_after(s0, fm0, 64),
                forall|t: int|
                    0 <= t < 64 ==> self.helper.audio_rate@[t].modulo == driven_published_at(
                        s0,
                        fm0,
                        t as nat,
                    ),
                forall|t: int| 0 <= t < j ==> self.output@[t].0 == lfo_out_at(s0, t as nat),
                forall|t: int| 0 <= t < j ==> self.output@[t].1 == lfo_quad_out_at(s0, t as nat),
            decreases 64 - j,
        {
            let published = self.helper.audio_rate[j].modulo;
            let angle = sub64(mul64(mul64(published, TWO_BITS), PI_BITS), PI_BITS);
            let out = parabolic_sine(neg64(angle));
            let amp = self.helper.state.amplitude;
            let scaled = mul64(mul64(out, amp), ONE_BITS);

            let q = add64(published, QUARTER_BITS);
            let quad_phase_val = if le64(ONE_BITS, q) {
                sub64(q, ONE_BITS)
            } else {
                q
            };
            let quad_angle = sub64(mul64(mul64(quad_phase_val, TWO_BITS), PI_BITS), PI_BITS);
            let quad_out = parabolic_sine(neg64(quad_angle));
            let quad_scaled = mul64(mul64(quad_out, amp), ONE_BITS);
            self.output.set(j, (scaled, quad_scaled));
            proof {
                lemma_driven_zero_is_lfo(s0, fm0, j as nat);
                lemma_driven_after_config(s0, fm0, 64);
                lemma_lfo_after_config(s0, j as nat);
                assert(fm_inputs(fm0[j as int]) == neutral_inputs());
                assert(published == osc_published(lfo_after(s0, j as nat), neutral_inputs()));
                assert(scaled == lfo_out_at(s0, j as nat));
                assert(quad_scaled == lfo_quad_out_at(s0, j as nat));
            }
            j = j + 1;
        }
    }
}

/// The synth under the array-of-structs batch layout.
pub struct Synth {
    pub osc1: BandLimitedOscillator,
    pub osc2: BandLimitedOscillator,
    pub lfo: LFO,
}

impl Synth {
    /// The record arrays of every oscillator hold exactly one batch, and
    /// the LFO's driving offsets are pinned to zero.
    pub open spec fn wf(&self) -> bool {
        self.osc1.wf() && self.osc2.wf() && self.lfo.wf()
    }

    /// The graph state carried by this synth.
    pub open spec fn graph(&self) -> GraphState {
        GraphState {
            osc1: self.osc1.helper.state,
            osc2: self.osc2.helper.state,
            lfo: self.lfo.helper.state,
        }
    }

    /// A synth at the given sample rate (a binary64 pattern denoting a
    /// positive rate): both tone oscillators at 440 Hz, the second detuned
    /// by 2.5 cents, the LFO at 0.5 Hz.
    pub fn new(sample_rate: u64) -> (s: Self)
        ensures
            s.wf(),
            s.graph() == initial_graph(sample_rate),
    {
        let mut osc1 = BandLimitedOscillator::new(sample_rate);
        let mut osc2 = BandLimitedOscillator::new(sample_rate);
        let mut lfo = LFO::new(sample_rate);
        osc1.helper.state.input_frequency = GRAPH_BASE_FREQ_BITS;
        osc2.helper.state.input_frequency = GRAPH_BASE_FREQ_BITS;
        osc2.helper.state.cent_offset = GRAPH_DETUNE_CENTS_BITS;
        lfo.helper.state.input_frequency = GRAPH_LFO_FREQ_BITS;
        Synth { osc1, osc2, lfo }
    }

    /// Render whole batches of 64 samples into `buffer`: per batch, the LFO
    /// fills its output pairs, both tone oscillators take the in-phase
    /// halves as frequency offsets and fill theirs, and the 50/50 mix lands
    /// in the buffer. The filled prefix equals the graph's mathematical
    /// stream; a trailing partial batch is left untouched.
    pub fn render(&mut self, buffer: &mut Vec<u64>)
        requires
            old(self).wf(),
        ensures
            final(self).wf(),
            final(buffer)@.len() == old(buffer)@.len(),
            forall|t: int|
                0 <= t < 64 * (old(buffer)@.len() as int / 64) ==> final(buffer)@[t]
                    == graph_out_at(old(self).graph(), t as nat),
            forall|t: int|
                64 * (old(buffer)@.len() as int / 64) <= t < old(buffer)@.len()
                    ==> final(buffer)@[t] == old(buffer)@[t],
            final(self).graph() == graph_after(
                old(self).graph(),
                (64 * (old(buffer)@.len() as int / 64)) as nat,
            ),
    {
        let ghost g0 = self.graph();
        let ghost buf0 = buffer@;
        let n = buffer.len();
        let batches = n / BATCH_SIZE;
        let mut b: usize = 0;
        while b < batches
            invariant
                b <= batches,
                batches == n / 64,
                buffer@.len() == n,
                buf0.len() == n,
                self.wf(),
                self.lfo.helper.state == lfo_after(g0.lfo, (64 * b) as nat),
                self.osc1.helper.state == tone_after(g0.osc1, g0.lfo, (64 * b) as nat),
                self.osc2.helper.state == tone_after(g0.osc2, g0.lfo, (64 * b) as nat),
                forall|t: int| 0 <= t < 64 * b ==> buffer@[t] == graph_out_at(g0, t as nat),
                forall|t: int| 64 * b <= t < n ==> buffer@[t] == buf0[t],
            decreases batches - b,
        {
            proof {
                assert(64 * (b + 1) <= 64 * (n as int / 64));
                assert(64 * (n as int / 64) <= n);
            }
            let ghost base = (64 * b) as nat;
            let ghost t1_base = self.osc1.helper.state;
            let ghost t2_base = self.osc2.helper.state;
            self.lfo.render();
            self.osc1.helper.set_frequency_mod(&self.lfo.output);
            self.osc2.helper.set_frequency_mod(&self.lfo.output);
            let ghost fm = self.osc1.helper.fm_seq();
            proof {
                assert(self.osc2.helper.fm_seq() =~= fm);
                assert forall|j: int| 0 <= j < 64 implies fm[j] == lfo_out_at(
                    g0.lfo,
                    (base + j) as nat,
                ) by {
                    lemma_lfo_out_shift(g0.lfo, base, j as nat);
                }
            }
            self.osc1.render();
            self.osc2.render();
            proof {
                lemma_driven_matches_tone(g0.osc1, g0.lfo, base, fm, 64);
                lemma_driven_matches_tone(g0.osc2, g0.lfo, base, fm, 64);
                lemma_lfo_after_add(g0.lfo, base, 64);
            }
            let offset = b * BATCH_SIZE;
            let mut j: usize = 0;
            while j < BATCH_SIZE
                invariant
                    j <= 64,
                    b < batches,
                    batches == n / 64,
                    offset == 64 * b,
                    64 * b + 64 <= n,
                    base == 64 * b,
                    fm.len() == 64,
                    forall|t: int| 0 <= t < 64 ==> fm[t] == lfo_out_at(g0.lfo, (base + t) as nat),
                    t1_base == tone_after(g0.osc1, g0.lfo, base),
                    t2_base == tone_after(g0.osc2, g0.lfo, base),
                    buffer@.len() == n,
                    buf0.len() == n,
                    self.wf(),
                    self.osc1.output@.len() == 64,
                    self.osc2.output@.len() == 64,
                    forall|t: int|
                        0 <= t < 64 ==> self.osc1.output@[t] == driven_out_at(
                            t1_base,
                            fm,
                            t as nat,
                        ),
                    forall|t: int|
                        0 <= t < 64 ==> self.osc2.output@[t] == driven_out_at(
                            t2_base,
                            fm,
                            t as nat,
                        ),
                    forall|t: int| 0 <= t < 64 * b + j ==> buffer@[t] == graph_out_at(g0, t as nat),
                    forall|t: int| 64 * b + j <= t < n ==> buffer@[t] == buf0[t],
                    self.lfo.helper.state == lfo_after(g0.lfo, (64 * b + 64) as nat),
                    self.osc1.helper.state == tone_after(g0.osc1, g0.lfo, (64 * b + 64) as nat),
                    self.osc2.helper.state == tone_after(g0.osc2, g0.lfo, (64 * b + 64) as nat),
                decreases 64 - j,
            {
                let o1 = self.osc1.output[j];
                let o2 = self.osc2.output[j];
                let sample = mix(o1, o2);
                buffer.set(offset + j, sample);
                proof {
                    lemma_driven_matches_tone(g0.osc1, g0.lfo, base, fm, j as nat);
                    lemma_driven_matches_tone(g0.osc2, g0.lfo, base, fm, j as nat);
                    assert(fm_inputs(fm[j as int]) == tone_inputs(g0.lfo, (base + j) as nat));
                    assert(sample == graph_out_at(g0, (base + j) as nat));
                }
                j = j + 1;
            }
            b = b + 1;
        }
    }
}

} // verus!
