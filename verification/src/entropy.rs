//! The randomness source that generation threads top-down.
//!
//! An [`Entropy`] owns a seedable generator. Its state is modelled by the
//! abstract sequence `bits()`: every trusted draw wrapper states its result
//! and the successor state as a pure function of the state before the call,
//! which is what makes seeded generation reproducible and lets the callers'
//! contracts pin each generated value down.

use vstd::prelude::*;

use rand::Rng;
use rand::SeedableRng;

verus! {

// rand's standard generator is declared so that a field can hold one; Verus
// treats its values as opaque.
#[verifier::external_type_specification]
#[verifier::external_body]
pub struct ExStdRng(rand::rngs::StdRng);

/// The abstract state a generator holds. Nothing is known of it beyond what
/// the trusted draw wrappers state.
pub uninterp spec fn rng_bits(r: rand::rngs::StdRng) -> Seq<u64>;

/// The state a generator holds right after being seeded with `seed`.
pub uninterp spec fn seeded_bits(seed: u64) -> Seq<u64>;

/// The (value, successor state) pair that one uniform draw from the
/// half-open range `lo..hi` produces out of a given generator state.
pub uninterp spec fn range_draw(lo: u64, hi: u64, s: Seq<u64>) -> (u64, Seq<u64>);

/// An owned source of randomness. Every generation operation consumes draws
/// from exactly one such source, handed down by mutable reference.
pub struct Entropy {
    pub(crate) rng: rand::rngs::StdRng,
}

impl Entropy {
    /// The abstract state of this source.
    pub closed spec fn bits(&self) -> Seq<u64> {
        rng_bits(self.rng)
    }

    /// Relies on `StdRng::seed_from_u64`: `SeedableRng` seeding is a pure,
    /// reproducible function of the seed.
    #[verifier::external_body]
    fn seeded_rng(seed: u64) -> (r: rand::rngs::StdRng)
        ensures
            rng_bits(r) == seeded_bits(seed),
    {
        rand::rngs::StdRng::seed_from_u64(seed)
    }

    /// A reproducible source: equal seeds always yield equal states, and so
    /// equal sequences of draws.
    pub fn from_seed(seed: u64) -> (r: Entropy)
        ensures
            r.bits() == seeded_bits(seed),
    {
        Entropy { rng: Self::seeded_rng(seed) }
    }

    /// Relies on `Rng::gen_range` over `lo..hi`: the draw lies in the
    /// half-open range and, with the successor state, is a pure function of
    /// the generator state before the call.
    #[verifier::external_body]
    pub(crate) fn draw_range(&mut self, lo: u64, hi: u64) -> (r: u64)
        requires
            lo < hi,
        ensures
            r == range_draw(lo, hi, old(self).bits()).0,
            final(self).bits() == range_draw(lo, hi, old(self).bits()).1,
            lo <= r < hi,
    {
        self.rng.gen_range(lo..hi)
    }
}

} // verus!
