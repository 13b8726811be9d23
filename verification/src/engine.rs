//! The batch driver: runs many independent trials against one catalog and
//! one configuration, scores each, and feeds them to the aggregator.

use vstd::prelude::*;
use crate::aggregate::{count_ge, Aggregator, TrialResult};
use crate::catalog::OptionCatalog;
use crate::score::{
    lemma_score_bounded, score, score_bound, score_spec, ScoreCoeffs, MAX_TRIAL_SLOT,
};
use crate::tags::{FlameType, LevelBracket, TargetStat};
use crate::trial::{
    draws_distinct, draws_ok, generate_trial, trial_spec, Draw,
};
use crate::weights::active_weight;

verus! {

/// Read-only parameters of one simulation run.
#[derive(Clone, Copy, PartialEq, Eq, Structural, Debug)]
pub struct SimulationConfig {
    /// The stat the run optimizes for.
    pub target: TargetStat,
    /// The equipment level bracket.
    pub bracket: LevelBracket,
    /// The flame type used.
    pub flame: FlameType,
    /// Simulate non-boss flames.
    pub noboss: bool,
    /// Keep threshold on the per-mille score.
    pub keep: u64,
    /// Number of trials to run.
    pub trials: u64,
    /// Leaderboard capacity.
    pub top_k: usize,
    /// Scoring coefficients.
    pub coeffs: ScoreCoeffs,
}

impl SimulationConfig {
    /// The coefficients must be usable.
    pub open spec fn wf(self) -> bool {
        self.coeffs.wf()
    }
}

/// Run one trial: generate random draws, accumulate them, and score the
/// result. The score is pinned to the stat vector, and the stat vector to
/// the returned draws; only the draws are random.
pub fn run_trial(cat: &OptionCatalog, cfg: &SimulationConfig) -> (r: (TrialResult, Vec<Draw>))
    requires
        cat.wf(),
        cfg.wf(),
    ensures
        r.0.stats == trial_spec(*cat, r.1@),
        r.0.score as int == score_spec(r.0.stats, cfg.target, cfg.coeffs),
        r.0.score as int <= score_bound(cfg.coeffs),
        draws_ok(r.1@),
        draws_distinct(r.1@),
        !cfg.noboss ==> r.1@.len() == 4,
        cfg.noboss ==> 1 <= r.1@.len() <= 4,
        forall|a: int| 0 <= a < r.1@.len() ==>
            active_weight(cfg.flame, cfg.noboss, (#[trigger] r.1@[a]).1 as int) > 0,
{
    let (sv, draws) = generate_trial(cat, cfg.flame, cfg.noboss);
    proof {
        assert(sv.bounded(MAX_TRIAL_SLOT as int));
        lemma_score_bounded(sv, cfg.target, cfg.coeffs);
    }
    let s = score(&sv, cfg.target, &cfg.coeffs);
    (TrialResult { stats: sv, score: s }, draws)
}

/// Run the whole batch: `cfg.trials` independent trials against the given
/// catalog, aggregated into a threshold count and a top-K leaderboard.
/// The aggregator's invariant then delivers the batch guarantee: the
/// counter equals the exact number of qualifying trials, and the board
/// holds the highest-scoring `min(top_k, trials)` results in
/// non-increasing order. An empty batch yields a zero counter and an
/// empty board.
pub fn run_batch(cat: &OptionCatalog, cfg: &SimulationConfig) -> (agg: Aggregator)
    requires
        cat.wf(),
        cfg.wf(),
    ensures
        agg.wf(),
        agg.k == cfg.top_k,
        agg.keep == cfg.keep,
        agg.history@.len() == cfg.trials,
        agg.count as int == count_ge(agg.history@, cfg.keep),
        cfg.trials == 0 ==> agg.count == 0 && agg.top@.len() == 0,
        forall|i: int| 0 <= i < agg.history@.len() ==>
            (#[trigger] agg.history@[i]) as int <= score_bound(cfg.coeffs),
        cfg.keep > score_bound(cfg.coeffs) ==> agg.count == 0,
{
    let mut agg = Aggregator::new(cfg.top_k, cfg.keep);
    let mut i: u64 = 0;
    while i < cfg.trials
        invariant
            cat.wf(),
            cfg.wf(),
            agg.wf(),
            agg.k == cfg.top_k,
            agg.keep == cfg.keep,
            agg.history@.len() == i,
            i <= cfg.trials,
            forall|j: int| 0 <= j < agg.history@.len() ==>
                (#[trigger] agg.history@[j]) as int <= score_bound(cfg.coeffs),
        decreases cfg.trials - i,
    {
        let tr = run_trial(cat, cfg);
        agg.submit(tr.0);
        i = i + 1;
    }
    proof {
        if cfg.keep > score_bound(cfg.coeffs) {
            agg.lemma_count_zero_when_unreachable();
        }
    }
    agg
}

} // verus!
