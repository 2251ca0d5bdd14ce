//! A small frequency-modulation synthesizer: two detuned tone oscillators,
//! pitch-modulated by a low-frequency oscillator, summed into a mono stream.
//!
//! Every sample is an IEEE-754 binary64 value carried by its 64-bit pattern,
//! so that the whole signal path — phase accumulation with wrap detection,
//! exponential pitch-shift routing, and the fast polynomial sine — is ordinary
//! verified code over `u64`. The handful of primitive binary64 operations
//! (add, multiply, compare, ...) are performed by the `rustc_apfloat`
//! software-float crate behind trusted wrappers in [`ieee`]; everything built
//! from them carries an exact contract.
//!
//! The same per-sample algorithm is offered under three processing layouts —
//! one frame per call, fixed-size batches as separate arrays, and batches of
//! per-sample records — and all three render contracts pin the output to one
//! shared mathematical stream, so their equivalence is proved, not sampled.

pub mod ieee;
pub mod fastmath;
pub mod oscillator;
pub mod graph;
pub mod one_frame_per_call;
pub mod fixed_batch_size;
pub mod array_of_structs;
pub mod laws;
