use crate::allele::Allele;
use rand::Rng;
use rand::seq::SliceRandom;
use vstd::prelude::*;

verus! {

/// Uniformly shuffle the pool in place.
///
/// Relies on rand's `SliceRandom::shuffle` (Fisher-Yates on the slice): it
/// rearranges the elements by swaps only, so the result is a permutation of
/// the input and keeps its length and multiset of alleles.
#[verifier::external_body]
pub(crate) fn shuffle_alleles(pool: &mut Vec<Allele>)
    ensures
        final(pool)@.len() == old(pool)@.len(),
        final(pool)@.to_multiset() == old(pool)@.to_multiset(),
{
    pool.shuffle(&mut rand::thread_rng());
}

/// Draw a uniformly random value below 100.
///
/// Relies on rand's `Rng::gen_range`: for the non-empty range `0..100` it
/// returns a value of the range and panics only on an empty range. Nothing
/// more is promised of the draw: callers must hold for every outcome.
#[verifier::external_body]
pub(crate) fn random_percent() -> (r: u32)
    ensures
        r < 100,
{
    rand::thread_rng().gen_range(0..100u32)
}

/// Draw a fair random boolean.
///
/// Relies on `rand::random::<bool>`. Nothing can be promised of the draw:
/// callers must hold for either outcome.
#[verifier::external_body]
pub(crate) fn random_coin() -> bool {
    rand::random()
}

} // verus!
