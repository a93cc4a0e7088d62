//! The engine's random source.
//!
//! Each round owns one seeded generator, so that a round is exactly
//! reproducible from its seed.  The generator is opaque to the proofs:
//! nothing is assumed of a draw except the range it falls in, and every
//! caller is verified for every value a draw could take.
use vstd::prelude::*;
use rand::Rng;
use rand::SeedableRng;
use rand_chacha::ChaCha12Rng;

verus! {

#[verifier::external_type_specification]
#[verifier::external_body]
pub struct ExChaCha12Rng(ChaCha12Rng);

/// The random-number generator used for generating obstacles and fruit.
pub struct GameRng {
    inner: ChaCha12Rng,
}

impl GameRng {
    /// Relies on rand_chacha's `ChaCha12Rng` and rand_core's
    /// `SeedableRng::seed_from_u64`, which build a generator from the seed
    /// alone.
    #[verifier::external_body]
    pub fn from_seed(seed: u64) -> GameRng {
        GameRng { inner: ChaCha12Rng::seed_from_u64(seed) }
    }

    /// Relies on rand's `Rng::random_range` over `0..n`: it panics only on
    /// an empty range, and otherwise draws a value from the range, which
    /// is therefore below `n`.
    #[verifier::external_body]
    pub fn random_below(&mut self, n: u64) -> (r: u64)
        requires
            n >= 1,
        ensures
            r < n,
    {
        self.inner.random_range(0..n)
    }
}

} // verus!
