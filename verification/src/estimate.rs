//! The probability estimator: from the total trial count and the number
//! of qualifying trials, the expected number of attempts to reach one
//! qualifying result (rounded up), and the chance of at least one success
//! within a window of `n` attempts. Probabilities are parts-per-million
//! fixed-point integers, with floor division at each step.

use vstd::prelude::*;
use vstd::arithmetic::div_mod::{
    lemma_div_is_ordered, lemma_div_multiples_vanish, lemma_fundamental_div_mod,
    lemma_fundamental_div_mod_converse,
};

verus! {

/// `trials / count`, rounded up.
pub open spec fn div_ceil_spec(t: int, c: int) -> int {
    (t + c - 1) / c
}

/// The per-trial failure chance `q` (ppm) taken to the `n`-th power, in
/// ppm, flooring after each multiplication.
pub open spec fn pow_frac_ppm(q: int, n: int) -> int
    decreases n,
{
    if n <= 0 {
        1000000
    } else {
        pow_frac_ppm(q, n - 1) * q / 1000000
    }
}

/// Average number of attempts to reach one qualifying result: the total
/// trial count divided by the qualifying count, rounded up; not
/// computable when no trial qualified.
pub fn average_attempts(trials: u64, count: u64) -> (r: Option<u64>)
    requires
        count <= trials,
    ensures
        count == 0 <==> r is None,
        count > 0 ==> (r matches Some(v) && v as int == div_ceil_spec(
            trials as int,
            count as int,
        )),
{
    if count == 0 {
        None
    } else {
        let q = trials / count;
        let rem = trials % count;
        proof {
            let t = trials as int;
            let c = count as int;
            lemma_fundamental_div_mod(t, c);
            assert(t == c * (q as int) + rem);
            if rem == 0 {
                assert(t + c - 1 == (q as int) * c + (c - 1)) by (nonlinear_arith)
                    requires
                        t == c * (q as int) + rem,
                        rem == 0,
                ;
                lemma_fundamental_div_mod_converse(t + c - 1, c, q as int, c - 1);
            } else {
                assert(t + c - 1 == (q as int + 1) * c + (rem - 1)) by (nonlinear_arith)
                    requires
                        t == c * (q as int) + rem,
                ;
                lemma_fundamental_div_mod_converse(t + c - 1, c, q as int + 1, rem - 1);
            }
            assert(c * (q as int) >= q as int) by (nonlinear_arith)
                requires
                    c >= 1,
                    q >= 0,
            ;
        }
        if rem == 0 {
            Some(q)
        } else {
            Some(q + 1)
        }
    }
}

/// Chance, in ppm, of at least one qualifying result within `n` attempts
/// when `count` of `trials` submitted trials qualified: one minus the
/// failure chance taken to the `n`-th power. Not computable for an empty
/// batch.
pub fn chance_within_ppm(count: u64, trials: u64, n: u64) -> (r: Option<u64>)
    requires
        count <= trials,
    ensures
        trials == 0 <==> r is None,
        trials > 0 ==> (r matches Some(v) && v as int == 1000000 - pow_frac_ppm(
            1000000 - (count as int) * 1000000 / (trials as int),
            n as int,
        )),
        trials > 0 ==> (r matches Some(v) && v <= 1000000),
{
    if trials == 0 {
        return None;
    }
    let filled_wide: u128 = (count as u128) * 1000000 / (trials as u128);
    proof {
        lemma_div_is_ordered(
            (count as int) * 1000000,
            (trials as int) * 1000000,
            trials as int,
        );
        lemma_div_multiples_vanish(1000000, trials as int);
    }
    let filled: u64 = filled_wide as u64;
    let q: u64 = 1000000 - filled;
    let ghost qi = 1000000 - (count as int) * 1000000 / (trials as int);
    let mut acc: u64 = 1000000;
    let mut i: u64 = 0;
    while i < n
        invariant
            i <= n,
            q == qi,
            q <= 1000000,
            acc <= 1000000,
            acc == pow_frac_ppm(qi, i as int),
        decreases n - i,
    {
        proof {
            assert((acc as int) * (q as int) <= 1000000int * 1000000) by (nonlinear_arith)
                requires
                    acc <= 1000000,
                    q <= 1000000,
            ;
            lemma_div_is_ordered(
                (acc as int) * (q as int),
                1000000int * 1000000,
                1000000,
            );
        }
        let wide: u128 = (acc as u128) * (q as u128) / 1000000;
        acc = wide as u64;
        i = i + 1;
    }
    Some(1000000 - acc)
}

} // verus!
