//! The source of random numbers, which is the generator of the `rand` crate.
//! What this module claims of that crate is believed, not proved.

use rand::rngs::StdRng;
use rand::Rng;
use rand::SeedableRng;
use vstd::prelude::*;

verus! {

/// The generator of the `rand` crate behind a `RandomSource`. Nothing of its
/// inner state is visible to proofs.
#[verifier::external_type_specification]
#[verifier::external_body]
pub struct ExStdRng(StdRng);

/// The generator that `SeedableRng::seed_from_u64` of `rand` makes of `seed`.
pub uninterp spec fn generator_of(seed: u64) -> StdRng;

/// Calls `SeedableRng::seed_from_u64` of `rand` for `StdRng`, which computes
/// the generator from the seed and from nothing else: it spreads the seed
/// over a key and sets up the cipher with that key. The generator that comes
/// back therefore has a name, `generator_of(seed)`; what it holds is not
/// claimed.
#[verifier::external_body]
fn seeded_generator(seed: u64) -> (generator: StdRng)
    ensures
        generator == generator_of(seed),
{
    StdRng::seed_from_u64(seed)
}

/// Calls `Rng::gen_range(0, bound)` of `rand`, which panics on an empty range
/// and otherwise gives a number of the half-open range: at least zero and
/// less than `bound`. Which number comes is not claimed.
#[verifier::external_body]
fn draw_below(generator: &mut StdRng, bound: u64) -> (r: u64)
    requires
        bound > 0,
    ensures
        r < bound,
{
    generator.gen_range(0, bound)
}

/// The source of the game's random choices. A game owns one source for its
/// whole life. Contracts say in which range a number lies, never which
/// number comes.
pub struct RandomSource {
    generator: StdRng,
}

impl RandomSource {
    /// The source whose generator is the one that `seed` gives. The seed
    /// alone decides which source this is.
    pub closed spec fn seeded(seed: u64) -> RandomSource {
        RandomSource { generator: generator_of(seed) }
    }

    /// A source that starts from `seed`. Equal seeds give equal sources.
    pub fn from_seed(seed: u64) -> (source: RandomSource)
        ensures
            source == RandomSource::seeded(seed),
    {
        RandomSource { generator: seeded_generator(seed) }
    }

    /// A number chosen uniformly among `0..bound`, or `None` when there is
    /// nothing to choose from.
    pub fn below(&mut self, bound: u64) -> (r: Option<u64>)
        ensures
            r is None <==> bound == 0,
            r matches Some(k) ==> k < bound,
    {
        if bound == 0 {
            None
        } else {
            Some(draw_below(&mut self.generator, bound))
        }
    }
}

} // verus!
