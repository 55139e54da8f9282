//! The random source that drives generation.
//!
//! A `RandomSource` wraps a small, seedable generator and is passed by
//! mutable reference through the whole generation call chain: no global
//! random state, so seeded runs are reproducible.

use vstd::prelude::*;
use rand::Rng;
use rand::SeedableRng;

verus! {

#[verifier::external_type_specification]
#[verifier::external_body]
pub struct ExSmallRng(rand::rngs::SmallRng);

pub struct RandomSource {
    rng: rand::rngs::SmallRng,
}

impl RandomSource {
    /// Relies on rand's `SmallRng::seed_from_u64`: builds a generator from
    /// the given seed. Nothing is claimed of the stream it will produce:
    /// rand documents the algorithm as deterministic per process but not
    /// reproducible across platforms or library versions, so same-seed
    /// equality is observed by tests, never stated.
    #[verifier::external_body]
    pub fn seeded(seed: u64) -> (r: RandomSource) {
        RandomSource { rng: rand::rngs::SmallRng::seed_from_u64(seed) }
    }

    /// Relies on rand's `SmallRng::from_entropy`: builds a generator from
    /// system entropy. Nothing is claimed of the stream it will produce.
    /// The call aborts if the operating system's entropy source fails, an
    /// environmental condition no precondition can exclude.
    #[verifier::external_body]
    pub fn unseeded() -> (r: RandomSource) {
        RandomSource { rng: rand::rngs::SmallRng::from_entropy() }
    }

    /// Relies on rand's `Rng::gen_range`: a uniform draw from `0..bound`,
    /// which panics on an empty range and otherwise returns a value below
    /// its upper bound.
    #[verifier::external_body]
    pub fn next_below(&mut self, bound: u32) -> (r: u32)
        requires
            bound > 0,
        ensures
            r < bound,
    {
        self.rng.gen_range(0..bound)
    }
}

} // verus!
