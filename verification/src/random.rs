//! Where the simulation gets its random numbers.

use rand::distributions::{Distribution, Uniform};
use rand::rngs::SmallRng;
use rand::{Rng, SeedableRng};
use vstd::prelude::*;

verus! {

/// A source of random numbers. The simulation asks it for nothing but
/// bounded integers, and relies on nothing but the bounds.
pub trait RandomSource {
    /// A number from `0` up to, but not including, `bound`.
    fn index_below(&mut self, bound: usize) -> (r: usize)
        requires
            bound > 0,
        ensures
            r < bound,
    ;

    /// A number from `low` to `high`, both included.
    fn in_range(&mut self, low: usize, high: usize) -> (r: usize)
        requires
            low <= high,
        ensures
            low <= r <= high,
    ;
}

/// `SmallRng` of `rand`, the generator that a sandbox has unless it is given
/// another. Nothing of its state is known here.
#[verifier::external_type_specification]
#[verifier::external_body]
pub struct ExSmallRng(SmallRng);

/// Calls `Uniform::new(0, bound)` of `rand` and samples it once with `rng`.
/// `Uniform::new` panics unless its range is non-empty, hence the
/// precondition; a sample of the half-open range lies below `bound`. Which
/// number comes back is up to the generator.
#[verifier::external_body]
fn sample_below(rng: &mut SmallRng, bound: usize) -> (r: usize)
    requires
        bound > 0,
    ensures
        r < bound,
{
    Uniform::new(0, bound).sample(rng)
}

/// Calls `Rng::gen_range` of `rand` with the inclusive range `low..=high`.
/// It panics on an empty range, hence the precondition; the number it
/// returns lies within the range. Which one is up to the generator.
#[verifier::external_body]
fn sample_between(rng: &mut SmallRng, low: usize, high: usize) -> (r: usize)
    requires
        low <= high,
    ensures
        low <= r <= high,
{
    rng.gen_range(low..=high)
}

/// Calls `SmallRng::seed_from_u64` of `rand`: a generator whose stream is
/// fixed by `seed`. Nothing is claimed of the generator that comes back.
#[verifier::external_body]
pub(crate) fn seeded_rng(seed: u64) -> (rng: SmallRng) {
    SmallRng::seed_from_u64(seed)
}

impl RandomSource for SmallRng {
    fn index_below(&mut self, bound: usize) -> (r: usize) {
        sample_below(self, bound)
    }

    fn in_range(&mut self, low: usize, high: usize) -> (r: usize) {
        sample_between(self, low, high)
    }
}

} // verus!
