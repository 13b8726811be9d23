use flamesim::catalog::OptionCatalog;
use flamesim::engine::{run_batch, run_trial, SimulationConfig};
use flamesim::score::{score, ScoreCoeffs};
use flamesim::tags::{FlameType, LevelBracket, TargetStat};

fn config(trials: u64, keep: u64, top_k: usize, noboss: bool) -> SimulationConfig {
    SimulationConfig {
        target: TargetStat::Str,
        bracket: LevelBracket::Lv140,
        flame: FlameType::Pflame,
        noboss,
        keep,
        trials,
        top_k,
        coeffs: ScoreCoeffs { allstat: 8000, substat: 100, att: 3000, hpmp: 120000 },
    }
}

#[test]
fn empty_batch_reports_nothing() {
    let cfg = config(0, 100000, 5, false);
    let cat = OptionCatalog::build(cfg.bracket);
    let agg = run_batch(&cat, &cfg);
    assert_eq!(agg.threshold_count(), 0);
    assert_eq!(agg.leaderboard().len(), 0);
}

#[test]
fn zero_threshold_counts_every_trial() {
    let cfg = config(300, 0, 3, false);
    let cat = OptionCatalog::build(cfg.bracket);
    let agg = run_batch(&cat, &cfg);
    assert_eq!(agg.threshold_count(), 300);
    assert_eq!(agg.leaderboard().len(), 3);
}

#[test]
fn unreachable_threshold_counts_nothing() {
    // Far above any achievable per-mille score for this bracket.
    let cfg = config(300, u64::MAX, 3, false);
    let cat = OptionCatalog::build(cfg.bracket);
    let agg = run_batch(&cat, &cfg);
    assert_eq!(agg.threshold_count(), 0);
    assert_eq!(agg.leaderboard().len(), 3);
}

#[test]
fn threshold_just_above_score_bound_counts_nothing() {
    // The proven bound for the default coefficients:
    // 19600*8000 + 19600*3000 + 3*19600*1000 + 2*19600*100
    //   + 2*(19600*1000000/120000) = 278_646_666 per-mille.
    let mut cfg = config(500, 278_646_667, 3, false);
    let cat = OptionCatalog::build(cfg.bracket);
    let agg = run_batch(&cat, &cfg);
    assert_eq!(agg.threshold_count(), 0);
    // One per-mille below the bound is still unreachable in practice,
    // but the guarantee we rely on is the proven bound above.
    cfg.keep = u64::MAX;
    let agg2 = run_batch(&cat, &cfg);
    assert_eq!(agg2.threshold_count(), 0);
}

#[test]
fn leaderboard_sorted_and_bounded_after_batch() {
    let cfg = config(500, 50000, 10, true);
    let cat = OptionCatalog::build(cfg.bracket);
    let agg = run_batch(&cat, &cfg);
    let board = agg.leaderboard();
    assert!(board.len() <= 10);
    for i in 1..board.len() {
        assert!(board[i - 1].score >= board[i].score);
    }
}

#[test]
fn run_trial_score_matches_rescoring() {
    let cfg = config(0, 0, 1, false);
    let cat = OptionCatalog::build(cfg.bracket);
    for _ in 0..200 {
        let (tr, _draws) = run_trial(&cat, &cfg);
        assert_eq!(tr.score, score(&tr.stats, cfg.target, &cfg.coeffs));
    }
}
