//! Injected random-number capability.
//!
//! Every draw the renderer makes goes through one `RandomSource`, so a whole
//! render is a function of the source and the fixed design constants. A
//! seeded source replays the same draws, which makes renders reproducible in
//! tests; a source seeded from the operating system gives each render its
//! own pose and coloring.

use vstd::prelude::*;

use rand::Rng;
use rand::SeedableRng;

verus! {

#[verifier::external_type_specification]
#[verifier::external_body]
pub struct ExStdRng(rand::rngs::StdRng);

/// A uniform random source. Wraps the standard generator of the `rand`
/// crate; nothing is assumed about the values it yields beyond the ranges
/// the drawing methods promise.
pub struct RandomSource {
    rng: rand::rngs::StdRng,
}

impl RandomSource {
    /// Relies on rand's `SeedableRng::seed_from_u64`: builds a generator
    /// whose draws depend only on the seed within one build of the library.
    #[verifier::external_body]
    pub fn from_seed(seed: u64) -> RandomSource {
        RandomSource { rng: rand::rngs::StdRng::seed_from_u64(seed) }
    }

    /// Relies on rand's `SeedableRng::from_entropy`: builds a generator
    /// seeded from the operating system.
    #[verifier::external_body]
    pub fn from_entropy() -> RandomSource {
        RandomSource { rng: rand::rngs::StdRng::from_entropy() }
    }

    /// Relies on rand's `Rng::gen_range` on an integer range, which panics
    /// on an empty range and otherwise samples uniformly from `[lo, hi)`.
    #[verifier::external_body]
    pub fn range_i64(&mut self, lo: i64, hi: i64) -> (r: i64)
        requires
            lo < hi,
        ensures
            lo <= r < hi,
    {
        self.rng.gen_range(lo..hi)
    }

    /// Relies on rand's `Rng::gen` for `bool`: a fair coin flip. Nothing is
    /// promised of the outcome.
    #[verifier::external_body]
    pub fn flip(&mut self) -> bool {
        self.rng.gen::<bool>()
    }

    /// Relies on rand's `Rng::gen_ratio`: true with probability
    /// `numerator / denominator`. Panics when the denominator is zero or
    /// smaller than the numerator; nothing is promised of the outcome.
    #[verifier::external_body]
    pub fn ratio(&mut self, numerator: u32, denominator: u32) -> bool
        requires
            0 < denominator,
            numerator <= denominator,
    {
        self.rng.gen_ratio(numerator, denominator)
    }
}

} // verus!
