//! Sample-at-a-time processing: the graph advances one frame per loop
//! iteration, writing each mixed sample straight into the output buffer.

use vstd::prelude::*;
use vstd::pervasive::VecAdditionalExecFns;
use crate::oscillator::{ModulationInputs, BandLimitedOscillator, LFO, neutral_inputs, osc_next};
use crate::graph::{
    GraphState, initial_graph, lfo_after, lfo_out_at, tone_inputs, tone_after, graph_out_at,
    graph_after, render_seq, mix, GRAPH_BASE_FREQ_BITS, GRAPH_DETUNE_CENTS_BITS,
    GRAPH_LFO_FREQ_BITS,
};

verus! {

/// The synth under the sample-at-a-time layout: two detuned tone
/// oscillators and the LFO that modulates them, no auxiliary buffers.
pub struct Synth {
    pub osc1: BandLimitedOscillator,
    pub osc2: BandLimitedOscillator,
    pub lfo: LFO,
}

impl Synth {
    /// The graph state carried by this synth.
    pub open spec fn graph(&self) -> GraphState {
        GraphState { osc1: self.osc1.helper, osc2: self.osc2.helper, lfo: self.lfo.helper }
    }

    /// A synth at the given sample rate (a binary64 pattern denoting a
    /// positive rate): both tone oscillators at 440 Hz, the second detuned
    /// by 2.5 cents, the LFO at 0.5 Hz.
    pub fn new(sample_rate: u64) -> (s: Self)
        ensures
            s.graph() == initial_graph(sample_rate),
    {
        let mut osc1 = BandLimitedOscillator::new(sample_rate);
        let mut osc2 = BandLimitedOscillator::new(sample_rate);
        let mut lfo = LFO::new(sample_rate);
        osc1.helper.input_frequency = GRAPH_BASE_FREQ_BITS;
        osc2.helper.input_frequency = GRAPH_BASE_FREQ_BITS;
        osc2.helper.cent_offset = GRAPH_DETUNE_CENTS_BITS;
        lfo.helper.input_frequency = GRAPH_LFO_FREQ_BITS;
        Synth { osc1, osc2, lfo }
    }

    /// Render one sample into every position of `buffer`, advancing the
    /// LFO, feeding its in-phase output to both tone oscillators, and
    /// mixing their outputs 50/50. The output equals the graph's
    /// mathematical stream and the state advances by exactly the buffer's
    /// length, whatever chunking a caller picks.
    pub fn render(&mut self, buffer: &mut Vec<u64>)
        ensures
            final(buffer)@ == render_seq(old(self).graph(), old(buffer)@.len() as nat),
            final(self).graph() == graph_after(old(self).graph(), old(buffer)@.len() as nat),
    {
        let ghost g0 = self.graph();
        let n = buffer.len();
        let mut i: usize = 0;
        while i < n
            invariant
                i <= n,
                buffer@.len() == n,
                self.lfo.helper == lfo_after(g0.lfo, i as nat),
                self.osc1.helper == tone_after(g0.osc1, g0.lfo, i as nat),
                self.osc2.helper == tone_after(g0.osc2, g0.lfo, i as nat),
                forall|j: int| 0 <= j < i ==> buffer@[j] == graph_out_at(g0, j as nat),
            decreases n - i,
        {
            let neutral = ModulationInputs::new();
            let (lfo_out, _quad_out) = self.lfo.render(&neutral);
            proof {
                assert(lfo_after(g0.lfo, (i + 1) as nat) == osc_next(
                    lfo_after(g0.lfo, i as nat),
                    neutral_inputs(),
                ));
                assert(lfo_out == lfo_out_at(g0.lfo, i as nat));
            }
            let m = ModulationInputs::with_frequency_mod(lfo_out);
            let osc1_out = self.osc1.render(&m);
            let osc2_out = self.osc2.render(&m);
            proof {
                assert(m == tone_inputs(g0.lfo, i as nat));
                assert(tone_after(g0.osc1, g0.lfo, (i + 1) as nat) == osc_next(
                    tone_after(g0.osc1, g0.lfo, i as nat),
                    tone_inputs(g0.lfo, i as nat),
                ));
                assert(tone_after(g0.osc2, g0.lfo, (i + 1) as nat) == osc_next(
                    tone_after(g0.osc2, g0.lfo, i as nat),
                    tone_inputs(g0.lfo, i as nat),
                ));
            }
            let sample = mix(osc1_out, osc2_out);
            buffer.set(i, sample);
            assert(buffer@[i as int] == graph_out_at(g0, i as nat));
            i = i + 1;
        }
        assert(buffer@ =~= render_seq(g0, n as nat));
    }
}

} // verus!
