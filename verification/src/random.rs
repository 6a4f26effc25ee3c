use vstd::prelude::*;

use rand::distr::weighted::WeightedIndex;
use rand::distr::Distribution;
use rand::Rng;

verus! {

/// The sum of a list of weights.
pub open spec fn weight_total(weights: Seq<u32>) -> int
    decreases weights.len(),
{
    if weights.len() == 0 {
        0
    } else {
        weight_total(weights.drop_last()) + weights.last()
    }
}

/// Calls rand's `Rng::random_range` on `0..len` with the thread-local generator
/// (`rand::rng()`). rand documents a value inside the range, drawn uniformly, and a
/// panic on an empty range, which `requires` rules out. Which value comes out is
/// left open.
#[verifier::external_body]
pub(crate) fn random_index(len: usize) -> (r: usize)
    requires
        len > 0,
    ensures
        r < len,
{
    rand::rng().random_range(0..len)
}

/// Builds rand's `WeightedIndex` from the weights and samples it once with the
/// thread-local generator. rand documents that the index of an element comes out,
/// with a chance proportional to its weight, and that an element of weight zero is
/// never picked; `WeightedIndex::new` fails when every weight is zero or their sum
/// overflows, which `requires` rules out. Which index comes out is left open.
#[verifier::external_body]
pub(crate) fn weighted_pick(weights: &Vec<u32>) -> (r: usize)
    requires
        exists|i: int| 0 <= i < weights.len() && weights[i] > 0,
        weight_total(weights@) <= u32::MAX,
    ensures
        r < weights.len(),
        weights[r as int] > 0,
{
    let dist = WeightedIndex::new(weights).unwrap();
    dist.sample(&mut rand::rng())
}

/// The total of weights that are each at most `bound` is at most `bound` times
/// their number.
pub proof fn lemma_weight_total_bound(weights: Seq<u32>, bound: int)
    requires
        forall|i: int| 0 <= i < weights.len() ==> weights[i] <= bound,
    ensures
        weight_total(weights) <= bound * weights.len(),
    decreases weights.len(),
{
    if weights.len() > 0 {
        lemma_weight_total_bound(weights.drop_last(), bound);
        assert(weights.last() <= bound);
        assert(bound * weights.len() == bound * (weights.len() - 1) + bound) by (nonlinear_arith);
    }
}

} // verus!
