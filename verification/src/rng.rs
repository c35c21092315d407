//! Injected source of pseudo-random numbers.
//!
//! Every random draw in the library flows through a [`RandomSource`] that the
//! caller constructs from a seed, so a simulation run is reproducible given a
//! fixed seed and a fixed draw order, and the samplers built on top are
//! independently testable.

use vstd::prelude::*;

verus! {

#[verifier::external_type_specification]
#[verifier::external_body]
pub struct ExStdRng(rand::rngs::StdRng);

/// A seeded pseudo-random generator. The contracts of its methods state only
/// what holds of every outcome; nothing is promised about which value comes
/// back, so everything proved downstream holds for every draw sequence.
pub struct RandomSource {
    rng: rand::rngs::StdRng,
}

impl RandomSource {
    /// Relies on rand's `SeedableRng::seed_from_u64` to build a deterministic
    /// generator from the given seed.
    #[verifier::external_body]
    pub fn from_seed(seed: u64) -> (r: RandomSource) {
        RandomSource { rng: <rand::rngs::StdRng as rand::SeedableRng>::seed_from_u64(seed) }
    }

    /// Relies on rand's `Rng::gen_range` over `lo..=hi`, which returns a value
    /// of that inclusive range and panics only when the range is empty; the
    /// precondition rules the empty range out.
    #[verifier::external_body]
    pub fn next_in(&mut self, lo: u64, hi: u64) -> (r: u64)
        requires
            lo <= hi,
        ensures
            lo <= r <= hi,
    {
        rand::Rng::gen_range(&mut self.rng, lo..=hi)
    }
}

} // verus!
