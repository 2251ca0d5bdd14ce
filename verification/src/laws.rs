//! Laws of the rendering stream.
//!
//! Every layout's `render` contract pins its output to the one stream
//! `render_seq` and its state change to `graph_after`, so the layouts agree
//! with each other by contract alone. The lemmas here add what chunking
//! means: the stream composes across calls, so any split of a request into
//! chunks — one sample at a time, batches of 64, or one large call — yields
//! the same samples and the same final state.

use vstd::prelude::*;
use crate::ieee::{div_bits, lt_bits, gt_bits};
use crate::oscillator::{
    OscillatorHelper, ModulationInputs, raw_frequency, phase_increment, osc_next,
    OSC_MAX_FREQ_BITS, OSC_NEG_MAX_FREQ_BITS,
};
use crate::graph::{
    GraphState, lfo_after, tone_inputs, tone_after, tone_out_at, graph_after, render_seq,
    lemma_lfo_after_add, lemma_lfo_out_shift, lemma_lfo_after_config, lemma_tone_after_config,
};

verus! {

/// Advancing a tone oscillator `a + b` samples along the LFO stream is
/// advancing it `a` samples and then `b` more, with the LFO carried
/// forward by `a` steps.
pub proof fn lemma_tone_after_add(o: OscillatorHelper, l: OscillatorHelper, a: nat, b: nat)
    ensures
        tone_after(o, l, a + b) == tone_after(tone_after(o, l, a), lfo_after(l, a), b),
    decreases b,
{
    if b > 0 {
        lemma_tone_after_add(o, l, a, (b - 1) as nat);
        lemma_lfo_out_shift(l, a, (b - 1) as nat);
        assert(tone_inputs(lfo_after(l, a), (b - 1) as nat) == tone_inputs(
            l,
            (a + b - 1) as nat,
        ));
        assert(tone_after(o, l, a + b) == osc_next(
            tone_after(o, l, (a + b - 1) as nat),
            tone_inputs(l, (a + b - 1) as nat),
        ));
    }
}

/// A tone oscillator's output stream shifts with the carried state: sample
/// `a + j` of the original run is sample `j` of the run that starts after
/// `a` steps.
pub proof fn lemma_tone_out_shift(o: OscillatorHelper, l: OscillatorHelper, a: nat, j: nat)
    ensures
        tone_out_at(o, l, a + j) == tone_out_at(tone_after(o, l, a), lfo_after(l, a), j),
{
    lemma_tone_after_add(o, l, a, j);
    lemma_lfo_out_shift(l, a, j);
}

/// Streaming continuity: rendering `a + b` samples in one call gives the
/// same samples and the same final state as rendering `a` samples and then
/// `b` more with the graph state carried across the calls. Applied
/// repeatedly, any chunking of a request yields the same output stream.
pub proof fn lemma_streaming_continuity(g: GraphState, a: nat, b: nat)
    ensures
        graph_after(g, a + b) == graph_after(graph_after(g, a), b),
        render_seq(g, a + b) == render_seq(g, a) + render_seq(graph_after(g, a), b),
{
    lemma_lfo_after_add(g.lfo, a, b);
    lemma_tone_after_add(g.osc1, g.lfo, a, b);
    lemma_tone_after_add(g.osc2, g.lfo, a, b);
    let split = render_seq(g, a) + render_seq(graph_after(g, a), b);
    assert forall|t: int| 0 <= t < a + b implies render_seq(g, a + b)[t] == split[t] by {
        if a <= t {
            lemma_tone_out_shift(g.osc1, g.lfo, a, (t - a) as nat);
            lemma_tone_out_shift(g.osc2, g.lfo, a, (t - a) as nat);
        }
    }
    assert(render_seq(g, a + b) =~= split);
}

/// Rendering touches only the stored phases: after any number of samples,
/// every configuration field — sample rate, base frequency, pitch offsets,
/// gain — of every oscillator in the graph is exactly what it was.
pub proof fn lemma_render_preserves_configuration(g: GraphState, n: nat)
    ensures
        graph_after(g, n).osc1 == (OscillatorHelper {
            modulo: graph_after(g, n).osc1.modulo,
            ..g.osc1
        }),
        graph_after(g, n).osc2 == (OscillatorHelper {
            modulo: graph_after(g, n).osc2.modulo,
            ..g.osc2
        }),
        graph_after(g, n).lfo == (OscillatorHelper {
            modulo: graph_after(g, n).lfo.modulo,
            ..g.lfo
        }),
{
    lemma_tone_after_config(g.osc1, g.lfo, n);
    lemma_tone_after_config(g.osc2, g.lfo, n);
    lemma_lfo_after_config(g.lfo, n);
}

/// Frequency clamp: however large the modulation drives the target
/// frequency, past +20480 Hz the phase increment is exactly
/// `20480 / sample_rate`, and past -20480 Hz exactly its negation's
/// counterpart.
pub proof fn lemma_frequency_clamp(st: OscillatorHelper, m: ModulationInputs)
    ensures
        gt_bits(raw_frequency(st, m), OSC_MAX_FREQ_BITS) ==> phase_increment(st, m) == div_bits(
            OSC_MAX_FREQ_BITS,
            st.sample_rate,
        ),
        (!gt_bits(raw_frequency(st, m), OSC_MAX_FREQ_BITS) && lt_bits(
            raw_frequency(st, m),
            OSC_NEG_MAX_FREQ_BITS,
        )) ==> phase_increment(st, m) == div_bits(OSC_NEG_MAX_FREQ_BITS, st.sample_rate),
{
}

} // verus!
