//! Fixed-point scalars and the per-cell environment sample.
//!
//! Noise channels and spawn probabilities are rationals in [0, 1] stored as
//! integers scaled by [`FIXED_ONE`]: the value `v` stands for `v / FIXED_ONE`.

use vstd::prelude::*;

verus! {

/// The fixed-point representation of 1.0.
pub const FIXED_ONE: i64 = 1_000_000;

/// One sample of the noise field at a world coordinate: the three
/// environment channels, each a fixed-point scalar in [0, `FIXED_ONE`].
#[derive(Clone, Copy, Debug, PartialEq, Eq, Structural)]
pub struct EnvironmentSample {
    pub height: i64,
    pub moisture: i64,
    pub temperature: i64,
}

/// The sample with the given channels, for use in contracts.
pub open spec fn env(height: i64, moisture: i64, temperature: i64) -> EnvironmentSample {
    EnvironmentSample { height, moisture, temperature }
}

impl EnvironmentSample {
    /// All three channels lie in [0, 1] (fixed-point).
    pub open spec fn wf(self) -> bool {
        &&& 0 <= self.height <= FIXED_ONE
        &&& 0 <= self.moisture <= FIXED_ONE
        &&& 0 <= self.temperature <= FIXED_ONE
    }

    pub fn new(height: i64, moisture: i64, temperature: i64) -> (s: EnvironmentSample)
        ensures
            s == (EnvironmentSample { height, moisture, temperature }),
    {
        EnvironmentSample { height, moisture, temperature }
    }
}

} // verus!
