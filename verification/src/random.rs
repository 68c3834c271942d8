//! The injectable random source used to pick spawn positions.
//!
//! The game core never reaches for ambient randomness: it owns a
//! `Sampler`, seeded by the host, so that spawn positions are
//! reproducible under a fixed seed.

use vstd::prelude::*;

verus! {

#[verifier::external_type_specification]
#[verifier::external_body]
pub struct ExStdRng(rand::rngs::StdRng);

/// A seedable source of uniformly distributed coordinates.
pub struct Sampler {
    rng: rand::rngs::StdRng,
}

/// Relies on rand's `SeedableRng::seed_from_u64` to build a `StdRng`
/// from a 64-bit seed. Nothing is assumed of the generator's output.
#[verifier::external_body]
fn seeded_rng(seed: u64) -> rand::rngs::StdRng {
    rand::SeedableRng::seed_from_u64(seed)
}

impl Sampler {
    /// A sampler seeded with the given value.
    pub fn seeded(seed: u64) -> Sampler {
        Sampler { rng: seeded_rng(seed) }
    }

    /// Relies on rand's `Rng::gen_range` over the inclusive range
    /// `lo..=hi`: it panics only when the range is empty, which the
    /// precondition rules out, and returns a value inside the range.
    #[verifier::external_body]
    pub(crate) fn sample_inclusive(&mut self, lo: i64, hi: i64) -> (r: i64)
        requires
            lo <= hi,
        ensures
            lo <= r <= hi,
    {
        rand::Rng::gen_range(&mut self.rng, lo..=hi)
    }
}

} // verus!
