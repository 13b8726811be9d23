//! Weighted discrete sampling: the cumulative-probability draw that picks
//! an index of a weight vector from one uniform random value, and the
//! trusted random sources behind it.

use vstd::prelude::*;
use rand::Rng;
use rand::seq::SliceRandom;
use crate::weights::{sum_prefix, lemma_sum_prefix_mono};

verus! {

/// Relies on rand's `Rng::gen_range` over the half-open range `0..n`: the
/// result is a uniform draw from that range, so it is always below `n`
/// (the call panics only on an empty range, which `n >= 1` rules out).
#[verifier::external_body]
pub(crate) fn rand_below(n: u64) -> (r: u64)
    requires
        n >= 1,
    ensures
        r < n,
{
    rand::thread_rng().gen_range(0..n)
}

/// Relies on rand's `SliceRandom::choose_multiple`: it draws `amount`
/// elements of the slice "without repetition", that is from pairwise
/// distinct positions, so each returned value occurs in the slice, and
/// the returned values are pairwise distinct whenever the slice's values
/// are.
#[verifier::external_body]
pub(crate) fn choose_distinct(pool: &Vec<usize>, amount: usize) -> (r: Vec<usize>)
    requires
        amount <= pool@.len(),
    ensures
        r@.len() == amount,
        forall|a: int| 0 <= a < r@.len() ==> pool@.contains(#[trigger] r@[a]),
        (forall|a: int, b: int| 0 <= a < b < pool@.len() ==> pool@[a] != pool@[b])
            ==> (forall|a: int, b: int| 0 <= a < b < r@.len() ==> r@[a] != r@[b]),
{
    pool.choose_multiple(&mut rand::thread_rng(), amount).cloned().collect()
}

/// The cumulative-probability draw: from one uniform value `r` below the
/// total weight, pick the unique index whose cumulative bucket contains
/// `r`. An index with zero weight has an empty bucket and is never picked.
pub fn sample_index(weights: &Vec<u32>, r: u64) -> (i: usize)
    requires
        sum_prefix(weights@, weights@.len() as int) <= u64::MAX,
        (r as int) < sum_prefix(weights@, weights@.len() as int),
    ensures
        (i as int) < weights@.len(),
        sum_prefix(weights@, i as int) <= r as int,
        (r as int) < sum_prefix(weights@, i as int + 1),
        weights@[i as int] > 0,
{
    let n = weights.len();
    proof {
        if weights@.len() == 0 {
            assert(sum_prefix(weights@, 0) == 0);
        }
    }
    let mut acc: u64 = 0;
    let mut i: usize = 0;
    while i + 1 < n
        invariant
            n == weights@.len(),
            i < n,
            acc == sum_prefix(weights@, i as int),
            acc <= r,
            sum_prefix(weights@, weights@.len() as int) <= u64::MAX,
            (r as int) < sum_prefix(weights@, weights@.len() as int),
        decreases n - i,
    {
        let w = weights[i];
        proof {
            lemma_sum_prefix_mono(weights@, i as int + 1, n as int);
        }
        if r < acc + (w as u64) {
            return i;
        }
        acc = acc + (w as u64);
        i = i + 1;
    }
    proof {
        lemma_sum_prefix_mono(weights@, i as int + 1, n as int);
    }
    i
}

} // verus!
