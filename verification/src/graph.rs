//! The synth graph's mathematical stream: one LFO whose in-phase output
//! drives the frequency modulation of two detuned tone oscillators, mixed
//! 50/50.
//!
//! These spec functions define, sample by sample, the exact bit-level output
//! stream and state evolution that every processing layout must produce.

use vstd::prelude::*;
use crate::ieee::{add_bits, mul_bits, add64, mul64, HALF_BITS, ZERO_BITS};
use crate::oscillator::{
    OscillatorHelper, ModulationInputs, neutral_inputs, fm_inputs, osc_next, osc_published,
    osc_wrapped, osc_tone_out, osc_lfo_out, osc_lfo_quad_out, initial_oscillator,
};

verus! {

/// The reference base frequency of both tone oscillators (440 Hz).
pub const GRAPH_BASE_FREQ_BITS: u64 = 0x407B800000000000; // 440.0
/// The fixed detune of the second tone oscillator (2.5 cents).
pub const GRAPH_DETUNE_CENTS_BITS: u64 = 0x4004000000000000; // 2.5
/// The LFO's base frequency (0.5 Hz).
pub const GRAPH_LFO_FREQ_BITS: u64 = 0x3FE0000000000000; // 0.5

/// The persistent state of the whole graph: two tone oscillators and the
/// LFO that modulates them.
#[derive(Clone, Copy)]
pub struct GraphState {
    pub osc1: OscillatorHelper,
    pub osc2: OscillatorHelper,
    pub lfo: OscillatorHelper,
}

/// The graph at construction: both tone oscillators at 440 Hz, the second
/// detuned by 2.5 cents, the LFO at 0.5 Hz, all phases zero.
pub open spec fn initial_graph(sample_rate: u64) -> GraphState {
    GraphState {
        osc1: OscillatorHelper {
            input_frequency: GRAPH_BASE_FREQ_BITS,
            ..initial_oscillator(sample_rate)
        },
        osc2: OscillatorHelper {
            input_frequency: GRAPH_BASE_FREQ_BITS,
            cent_offset: GRAPH_DETUNE_CENTS_BITS,
            ..initial_oscillator(sample_rate)
        },
        lfo: OscillatorHelper {
            input_frequency: GRAPH_LFO_FREQ_BITS,
            ..initial_oscillator(sample_rate)
        },
    }
}

/// The LFO's state after `n` sample steps (it always runs under neutral
/// modulation).
pub open spec fn lfo_after(l: OscillatorHelper, n: nat) -> OscillatorHelper
    decreases n,
{
    if n == 0 {
        l
    } else {
        osc_next(lfo_after(l, (n - 1) as nat), neutral_inputs())
    }
}

/// The LFO's in-phase output at sample `j`.
pub open spec fn lfo_out_at(l: OscillatorHelper, j: nat) -> u64 {
    osc_lfo_out(lfo_after(l, j), neutral_inputs())
}

/// The LFO's quadrature output at sample `j`.
pub open spec fn lfo_quad_out_at(l: OscillatorHelper, j: nat) -> u64 {
    osc_lfo_quad_out(lfo_after(l, j), neutral_inputs())
}

/// The modulation a tone oscillator receives at sample `j`: the LFO's
/// in-phase output as an additive frequency offset, everything else neutral.
pub open spec fn tone_inputs(l: OscillatorHelper, j: nat) -> ModulationInputs {
    fm_inputs(lfo_out_at(l, j))
}

/// A tone oscillator's state after `n` samples driven by the LFO stream
/// that starts at `l`.
pub open spec fn tone_after(o: OscillatorHelper, l: OscillatorHelper, n: nat) -> OscillatorHelper
    decreases n,
{
    if n == 0 {
        o
    } else {
        osc_next(tone_after(o, l, (n - 1) as nat), tone_inputs(l, (n - 1) as nat))
    }
}

/// A tone oscillator's output at sample `j`, driven by the LFO stream that
/// starts at `l`.
pub open spec fn tone_out_at(o: OscillatorHelper, l: OscillatorHelper, j: nat) -> u64 {
    osc_tone_out(tone_after(o, l, j), tone_inputs(l, j))
}

/// The equal-weight mix of the two tone samples: `0.5*a + 0.5*b`.
pub open spec fn mix_bits(a: u64, b: u64) -> u64 {
    add_bits(mul_bits(HALF_BITS, a), mul_bits(HALF_BITS, b))
}

/// The graph's mono output at sample `j`.
pub open spec fn graph_out_at(g: GraphState, j: nat) -> u64 {
    mix_bits(tone_out_at(g.osc1, g.lfo, j), tone_out_at(g.osc2, g.lfo, j))
}

/// The graph's state after `n` samples.
pub open spec fn graph_after(g: GraphState, n: nat) -> GraphState {
    GraphState {
        osc1: tone_after(g.osc1, g.lfo, n),
        osc2: tone_after(g.osc2, g.lfo, n),
        lfo: lfo_after(g.lfo, n),
    }
}

/// The graph's output stream: the first `n` samples from state `g`.
pub open spec fn render_seq(g: GraphState, n: nat) -> Seq<u64> {
    Seq::new(n, |j: int| graph_out_at(g, j as nat))
}

/// The mix of two tone samples, as a value.
pub fn mix(a: u64, b: u64) -> (r: u64)
    ensures
        r == mix_bits(a, b),
{
    add64(mul64(HALF_BITS, a), mul64(HALF_BITS, b))
}

/// A tone oscillator's state after `n` samples driven by an explicit
/// sequence of frequency offsets (one per sample), the shape in which the
/// batch layouts consume the LFO output.
pub open spec fn driven_after(o: OscillatorHelper, fm: Seq<u64>, n: nat) -> OscillatorHelper
    decreases n,
{
    if n == 0 {
        o
    } else {
        osc_next(driven_after(o, fm, (n - 1) as nat), fm_inputs(fm[n - 1]))
    }
}

/// The phase published at sample `j` of a driven run.
pub open spec fn driven_published_at(o: OscillatorHelper, fm: Seq<u64>, j: nat) -> u64 {
    osc_published(driven_after(o, fm, j), fm_inputs(fm[j as int]))
}

/// The wrap flag at sample `j` of a driven run.
pub open spec fn driven_wrapped_at(o: OscillatorHelper, fm: Seq<u64>, j: nat) -> bool {
    osc_wrapped(driven_after(o, fm, j), fm_inputs(fm[j as int]))
}

/// A tone oscillator's output at sample `j` of a driven run.
pub open spec fn driven_out_at(o: OscillatorHelper, fm: Seq<u64>, j: nat) -> u64 {
    osc_tone_out(driven_after(o, fm, j), fm_inputs(fm[j as int]))
}

/// A sample step never touches an oscillator's configuration: only the
/// phase evolves along a driven run.
pub proof fn lemma_driven_after_config(o: OscillatorHelper, fm: Seq<u64>, n: nat)
    ensures
        driven_after(o, fm, n) == (OscillatorHelper {
            modulo: driven_after(o, fm, n).modulo,
            ..o
        }),
    decreases n,
{
    if n > 0 {
        lemma_driven_after_config(o, fm, (n - 1) as nat);
    }
}

/// The LFO's configuration is likewise untouched along its run.
pub proof fn lemma_lfo_after_config(l: OscillatorHelper, n: nat)
    ensures
        lfo_after(l, n) == (OscillatorHelper { modulo: lfo_after(l, n).modulo, ..l }),
    decreases n,
{
    if n > 0 {
        lemma_lfo_after_config(l, (n - 1) as nat);
    }
}

/// A tone oscillator's configuration is untouched along the LFO-driven run.
pub proof fn lemma_tone_after_config(o: OscillatorHelper, l: OscillatorHelper, n: nat)
    ensures
        tone_after(o, l, n) == (OscillatorHelper { modulo: tone_after(o, l, n).modulo, ..o }),
    decreases n,
{
    if n > 0 {
        lemma_tone_after_config(o, l, (n - 1) as nat);
    }
}

/// A run driven by all-zero frequency offsets is exactly the LFO's own
/// (neutral) run.
pub proof fn lemma_driven_zero_is_lfo(l: OscillatorHelper, fm: Seq<u64>, n: nat)
    requires
        forall|j: int| 0 <= j < n ==> fm[j] == ZERO_BITS,
    ensures
        driven_after(l, fm, n) == lfo_after(l, n),
    decreases n,
{
    if n > 0 {
        lemma_driven_zero_is_lfo(l, fm, (n - 1) as nat);
        assert(fm_inputs(fm[n - 1]) == neutral_inputs());
    }
}

/// Advancing the LFO `a + b` steps is advancing it `a` steps and then `b`.
pub proof fn lemma_lfo_after_add(l: OscillatorHelper, a: nat, b: nat)
    ensures
        lfo_after(l, a + b) == lfo_after(lfo_after(l, a), b),
    decreases b,
{
    if b > 0 {
        lemma_lfo_after_add(l, a, (b - 1) as nat);
        assert(lfo_after(l, a + b) == osc_next(lfo_after(l, (a + b - 1) as nat), neutral_inputs()));
    }
}

/// The LFO's output stream shifts with its state: sample `a + j` of the
/// original run is sample `j` of the run that starts `a` steps later.
pub proof fn lemma_lfo_out_shift(l: OscillatorHelper, a: nat, j: nat)
    ensures
        lfo_out_at(l, a + j) == lfo_out_at(lfo_after(l, a), j),
{
    lemma_lfo_after_add(l, a, j);
}

/// A run driven by the LFO's outputs from sample `base` on is the tail of
/// the LFO-driven tone run: state after `base + k` samples.
pub proof fn lemma_driven_matches_tone(
    o: OscillatorHelper,
    l: OscillatorHelper,
    base: nat,
    fm: Seq<u64>,
    k: nat,
)
    requires
        forall|j: int| 0 <= j < k ==> fm[j] == lfo_out_at(l, (base + j) as nat),
    ensures
        driven_after(tone_after(o, l, base), fm, k) == tone_after(o, l, base + k),
    decreases k,
{
    if k > 0 {
        lemma_driven_matches_tone(o, l, base, fm, (k - 1) as nat);
        assert(fm_inputs(fm[k - 1]) == tone_inputs(l, (base + k - 1) as nat));
        assert(tone_after(o, l, base + k) == osc_next(
            tone_after(o, l, (base + k - 1) as nat),
            tone_inputs(l, (base + k - 1) as nat),
        ));
    }
}

} // verus!
