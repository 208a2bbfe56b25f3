//! The explicitly seeded pseudo-random source used for spawn trials.
//!
//! Chunk generation draws one value per spawn rule per cell from a generator
//! that the chunk builder seeds itself, so the draw sequence — and with it the
//! object layout of a chunk — is a pure function of the world seed and the
//! chunk coordinate. The generator is an additive-counter design: each step
//! advances the state by an odd constant and the output is the finalizing mix
//! of the new state.

use vstd::prelude::*;
use crate::fixed::FIXED_ONE;
use crate::noise_field::{mix64, spec_mix64};

verus! {

/// The odd step constant (the 64-bit golden-ratio increment).
pub const STEP_INCREMENT: u64 = 0x9E3779B97F4A7C15;

/// State after one step.
pub open spec fn spec_step(s: u64) -> u64 {
    vstd::wrapping::u64_specs::wrapping_add(s, STEP_INCREMENT)
}

/// The unit-interval draw produced by one step from state `s`: a fixed-point
/// value in [0, 1).
pub open spec fn spec_draw(s: u64) -> int {
    (spec_mix64(spec_step(s)) as int) % (FIXED_ONE as int)
}

/// Every draw lies in [0, `FIXED_ONE`).
pub proof fn lemma_draw_bounds(s: u64)
    ensures
        0 <= spec_draw(s) < FIXED_ONE,
{
}

/// A deterministic pseudo-random generator for spawn trials.
pub struct SpawnRng {
    state: u64,
}

impl SpawnRng {
    /// The current generator state.
    pub closed spec fn state(&self) -> u64 {
        self.state
    }

    pub fn new(seed: u64) -> (r: SpawnRng)
        ensures
            r.state() == seed,
    {
        SpawnRng { state: seed }
    }

    /// Draw one uniform fixed-point value in [0, `FIXED_ONE`) and advance.
    pub fn draw_unit(&mut self) -> (r: i64)
        ensures
            final(self).state() == spec_step(old(self).state()),
            r == spec_draw(old(self).state()),
            0 <= r < FIXED_ONE,
    {
        self.state = self.state.wrapping_add(STEP_INCREMENT);
        (mix64(self.state) % 1_000_000) as i64
    }
}

} // verus!
