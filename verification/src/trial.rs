//! The trial generator: one trial draws a set of distinct lines uniformly
//! from the 19-entry catalog (4 lines in boss mode, 1 to 4 lines in
//! no-boss mode by the fixed line-count distribution), samples a tier for
//! each by the active tier weights, and accumulates the tier values into
//! a stat vector. The stat vector is an exact function of the draws;
//! only the draws themselves are random.

use vstd::prelude::*;
use crate::catalog::OptionCatalog;
use crate::sample::{choose_distinct, rand_below, sample_index};
use crate::stats::{apply_line_spec, lemma_apply_line_bounded, StatVector};
use crate::tags::FlameType;
use crate::weights::{
    active_tier_weights, active_weight, lemma_active_weights_sum, lemma_line_count_weights_sum,
    line_count_weight, line_count_weights, sum_prefix,
};

verus! {

/// One draw: a catalog line index and a tier index.
pub type Draw = (usize, usize);

/// Every draw indexes a real line (0..19) and a real tier (0..7).
pub open spec fn draws_ok(draws: Seq<Draw>) -> bool {
    forall|a: int| 0 <= a < draws.len() ==>
        (#[trigger] draws[a]).0 < 19 && draws[a].1 < 7
}

/// No two draws touch the same catalog line.
pub open spec fn draws_distinct(draws: Seq<Draw>) -> bool {
    forall|a: int, b: int| 0 <= a < b < draws.len() ==>
        (#[trigger] draws[a]).0 != (#[trigger] draws[b]).0
}

/// The stat vector a sequence of draws accumulates: the sum, draw by
/// draw, of each drawn line's sampled tier value into the line's slots.
pub open spec fn trial_spec(cat: OptionCatalog, draws: Seq<Draw>) -> StatVector
    decreases draws.len(),
{
    if draws.len() == 0 {
        StatVector::zero_spec()
    } else {
        let d = draws.last();
        apply_line_spec(
            trial_spec(cat, draws.drop_last()),
            cat.lines@[d.0 as int].name,
            cat.lines@[d.0 as int].tiers@[d.1 as int],
        )
    }
}

/// Accumulate a given sequence of draws into a stat vector: the
/// deterministic half of trial generation, exact for every input.
pub fn trial_from_draws(cat: &OptionCatalog, draws: &Vec<Draw>) -> (sv: StatVector)
    requires
        cat.wf(),
        draws_ok(draws@),
        draws@.len() <= 19,
    ensures
        sv == trial_spec(*cat, draws@),
        sv.bounded(4900 * (draws@.len() as int)),
{
    let mut sv = StatVector::zero();
    let mut a: usize = 0;
    while a < draws.len()
        invariant
            cat.wf(),
            draws_ok(draws@),
            draws@.len() <= 19,
            a <= draws@.len(),
            sv == trial_spec(*cat, draws@.take(a as int)),
            sv.bounded(4900 * a),
        decreases draws@.len() - a,
    {
        let d = draws[a];
        let line = &cat.lines[d.0];
        let val = line.tiers[d.1];
        proof {
            let base = crate::catalog::base_value(cat.bracket, crate::catalog::catalog_tag(d.0 as int));
            crate::catalog::lemma_base_value_bounds(cat.bracket, crate::catalog::catalog_tag(d.0 as int));
            assert(base * (d.1 + 1) <= 4900) by (nonlinear_arith)
                requires
                    base <= 700,
                    0 <= d.1 < 7,
            ;
        }
        sv.apply_line(line.name, val);
        proof {
            assert(draws@.take(a + 1).drop_last() =~= draws@.take(a as int));
            assert(draws@.take(a + 1).last() == draws@[a as int]);
        }
        a = a + 1;
    }
    proof {
        assert(draws@.take(draws@.len() as int) =~= draws@);
    }
    sv
}

/// Generate one trial: random draws, then their exact accumulation. The
/// returned stat vector is pinned to the returned draws; the draws hit
/// pairwise distinct catalog lines, number 4 in boss mode and 1 to 4 in
/// no-boss mode, and every sampled tier has positive active weight.
pub fn generate_trial(cat: &OptionCatalog, ft: FlameType, noboss: bool) -> (r: (
    StatVector,
    Vec<Draw>,
))
    requires
        cat.wf(),
    ensures
        r.0 == trial_spec(*cat, r.1@),
        r.0.bounded(4900 * (r.1@.len() as int)),
        draws_ok(r.1@),
        draws_distinct(r.1@),
        !noboss ==> r.1@.len() == 4,
        noboss ==> 1 <= r.1@.len() <= 4,
        forall|a: int| 0 <= a < r.1@.len() ==>
            active_weight(ft, noboss, (#[trigger] r.1@[a]).1 as int) > 0,
{
    let line_count: usize = if noboss {
        let lcw = line_count_weights();
        proof {
            lemma_line_count_weights_sum();
            assert(lcw@ =~= Seq::new(4, |i: int| line_count_weight(i)));
        }
        let rv = rand_below(1000);
        let idx = sample_index(&lcw, rv);
        idx + 1
    } else {
        4
    };

    let mut pool: Vec<usize> = Vec::new();
    let mut j: usize = 0;
    while j < 19
        invariant
            j <= 19,
            pool@.len() == j,
            forall|a: int| 0 <= a < j ==> (#[trigger] pool@[a]) == a,
        decreases 19 - j,
    {
        pool.push(j);
        j = j + 1;
    }
    let lines = choose_distinct(&pool, line_count);
    proof {
        assert forall|a: int| 0 <= a < lines@.len() implies (#[trigger] lines@[a]) < 19 by {
            let b = choose|b: int| 0 <= b < pool@.len() && pool@[b] == lines@[a];
        }
    }

    let active = active_tier_weights(ft, noboss);
    proof {
        lemma_active_weights_sum(ft, noboss, active@);
    }

    let mut draws: Vec<Draw> = Vec::new();
    let mut a: usize = 0;
    while a < lines.len()
        invariant
            active@.len() == 7,
            forall|i: int| 0 <= i < 7 ==> active@[i] == active_weight(ft, noboss, i),
            sum_prefix(active@, 7) == 1000,
            a <= lines@.len(),
            lines@.len() == line_count,
            forall|i: int| 0 <= i < lines@.len() ==> (#[trigger] lines@[i]) < 19,
            forall|i: int, b: int| 0 <= i < b < lines@.len() ==> lines@[i] != lines@[b],
            draws@.len() == a,
            forall|i: int| 0 <= i < a ==> (#[trigger] draws@[i]).0 == lines@[i],
            draws_ok(draws@),
            forall|i: int| 0 <= i < a ==>
                active_weight(ft, noboss, (#[trigger] draws@[i]).1 as int) > 0,
        decreases lines@.len() - a,
    {
        let rv = rand_below(1000);
        let t = sample_index(&active, rv);
        draws.push((lines[a], t));
        a = a + 1;
    }
    let sv = trial_from_draws(cat, &draws);
    (sv, draws)
}

} // verus!
