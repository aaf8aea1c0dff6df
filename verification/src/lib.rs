//! A real-time signal-degradation pipeline: bit-depth quantization ("crush"),
//! sample-and-hold decimation ("redux"), a stochastic per-buffer modulation of
//! the crush depth ("entropy"), and a dynamic amplitude clipper ("clip") whose
//! thresholds come from the buffer's own peaks.
//!
//! Samples travel through the library as raw 32-bit IEEE 754 bit patterns
//! (`u32`); the library compares, selects, holds and moves them, and proves
//! exactly which pattern ends up at every buffer position. The few operations
//! that round — the quantization remainder and the threshold products — are
//! plain per-sample arithmetic that the caller performs on the numeric values
//! and hands back in as patterns.

use vstd::prelude::*;

pub mod bits;
pub mod buffer;
pub mod clip;
pub mod decimate;
pub mod params;
pub mod pipeline;
pub mod rng;

verus! {

use crate::rng::{draw_in_range, rng_from_entropy};

/// The status a processing call reports back to its host. The pipeline
/// defines no failure outcome: every call completes normally.
#[derive(Clone, Copy, Debug, PartialEq, Eq, Structural)]
pub enum ProcessStatus {
    Normal,
}

/// The processor a host instantiates once per plugin: the only state it
/// carries across processing calls is the entropy stage's generator.
pub struct EntropeRust {
    gen: rand::rngs::StdRng,
}

impl EntropeRust {
    /// A fresh processor, its generator seeded once from the system's
    /// entropy source.
    pub fn default() -> EntropeRust {
        EntropeRust { gen: rng_from_entropy() }
    }

    /// Host-driven setup; the pipeline keeps no state worth preparing, so
    /// the call only reports readiness.
    pub fn initialize(&mut self) -> (r: bool)
        ensures
            r,
            *final(self) == *old(self),
    {
        true
    }

    /// Host-driven reset; the pipeline is stateless between buffers apart
    /// from the generator, which deliberately keeps its stream.
    pub fn reset(&mut self)
        ensures
            *final(self) == *old(self),
    {
    }

    /// The entropy stage's one decision per buffer: the divisor the caller
    /// applies to the raw crush depth. With `entropy` at one no draw occurs —
    /// the generator is not advanced, the empty range is never sampled — and
    /// the divisor is one, so the effective crush depth is the raw crush
    /// parameter. Above one, a single uniform draw from [1, entropy) is
    /// taken.
    pub fn crush_divisor(&mut self, entropy: i32) -> (n: i32)
        requires
            1 <= entropy,
        ensures
            entropy == 1 ==> n == 1 && *final(self) == *old(self),
            1 <= n,
            entropy > 1 ==> n < entropy,
    {
        if entropy > 1 {
            draw_in_range(&mut self.gen, entropy)
        } else {
            1
        }
    }
}

} // verus!
