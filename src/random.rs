//! The pseudo-random generator and the draws that the engine and the
//! optimizer take from it. Every item here relies on `rand`.
use crate::tetromino::Color;
use rand::distributions::{Distribution, WeightedError, WeightedIndex};
use rand::rngs::SmallRng;
use rand::seq::SliceRandom;
use rand::{Rng, SeedableRng};
use vstd::prelude::*;

verus! {

#[verifier::external_type_specification]
#[verifier::external_body]
pub struct ExSmallRng(SmallRng);

/// A weighted distribution over indices, built by `rand`'s `WeightedIndex`.
#[verifier::external_body]
pub struct Roulette {
    dist: WeightedIndex<u32>,
}

#[verifier::external_type_specification]
pub struct ExWeightedError(WeightedError);

/// The sum of a sequence of weights.
pub open spec fn total(s: Seq<u32>) -> int
    decreases s.len(),
{
    if s.len() == 0 {
        0
    } else {
        total(s.drop_last()) + s.last() as int
    }
}

/// The weights that a roulette was built from.
pub uninterp spec fn weights_of(d: Roulette) -> Seq<u32>;

/// Relies on `SeedableRng::seed_from_u64` for `SmallRng`: a generator whose
/// stream is fixed by the seed.
#[verifier::external_body]
pub(crate) fn rng_from_seed(seed: u64) -> SmallRng {
    SmallRng::seed_from_u64(seed)
}

/// Relies on `SeedableRng::from_entropy` for `SmallRng`: a generator seeded
/// by the operating system.
#[verifier::external_body]
pub(crate) fn rng_from_entropy() -> SmallRng {
    SmallRng::from_entropy()
}

/// Relies on the derived `Clone` of `SmallRng`: a copy of the generator's state.
#[verifier::external_body]
pub(crate) fn clone_rng(rng: &SmallRng) -> SmallRng {
    rng.clone()
}

/// Relies on `Rng::gen_range(0, n)`: a value in `[0, n)`; it panics on `n == 0`.
#[verifier::external_body]
pub(crate) fn random_below(rng: &mut SmallRng, n: usize) -> (r: usize)
    requires
        n > 0,
    ensures
        r < n,
{
    rng.gen_range(0, n)
}

/// Relies on `SliceRandom::choose`: one element of the slice, or nothing
/// when the slice is empty.
#[verifier::external_body]
pub(crate) fn pick_color(rng: &mut SmallRng, palette: &[Color]) -> (r: Option<Color>)
    ensures
        r is Some <==> palette@.len() > 0,
        r matches Some(c) ==> palette@.contains(c),
{
    palette.choose(rng).copied()
}

/// Relies on `WeightedIndex::new`: an error when there is no weight
/// (`NoItem`) or when all of them are zero (`AllWeightsZero`); unsigned
/// weights are never invalid. The running total is a `u32`, so it must not
/// overflow.
#[verifier::external_body]
pub(crate) fn weighted_index(weights: &Vec<u32>) -> (r: Result<Roulette, WeightedError>)
    requires
        total(weights@) <= u32::MAX,
    ensures
        match r {
            Ok(d) => weights_of(d) == weights@ && weights@.len() > 0 && total(weights@) > 0,
            Err(e) => (e == WeightedError::NoItem && weights@.len() == 0) || (e
                == WeightedError::AllWeightsZero && weights@.len() > 0 && total(weights@) == 0),
        },
{
    WeightedIndex::new(weights.iter()).map(|dist| Roulette { dist })
}

/// Relies on `Distribution::sample` for `WeightedIndex`: the index of one
/// of the weights, drawn with a chance proportional to it, so never one of
/// weight zero.
#[verifier::external_body]
pub(crate) fn sample_index(d: &Roulette, rng: &mut SmallRng) -> (r: usize)
    ensures
        r < weights_of(*d).len(),
        weights_of(*d)[r as int] > 0,
{
    d.dist.sample(rng)
}

} // verus!
