use flamesim::aggregate::{Aggregator, TrialResult};
use flamesim::stats::StatVector;

fn result(score: u64) -> TrialResult {
    TrialResult { stats: StatVector::zero(), score }
}

#[test]
fn leaderboard_keeps_k_highest_sorted() {
    let mut agg = Aggregator::new(3, 5000);
    for s in [5000u64, 1000, 9000, 7000, 3000] {
        agg.submit(result(s));
    }
    let board: Vec<u64> = agg.leaderboard().iter().map(|t| t.score).collect();
    assert_eq!(board, vec![9000, 7000, 5000]);
}

#[test]
fn threshold_counter_counts_exactly() {
    let scores = [5000u64, 1000, 9000, 7000, 3000, 5000, 4999];
    let mut agg = Aggregator::new(3, 5000);
    for s in scores {
        agg.submit(result(s));
    }
    // Recount independently of the aggregator.
    let expected = scores.iter().filter(|s| **s >= 5000).count() as u64;
    assert_eq!(agg.threshold_count(), expected);
    assert_eq!(agg.threshold_count(), 4);
}

#[test]
fn leaderboard_shorter_than_k_holds_everything() {
    let mut agg = Aggregator::new(10, 0);
    for s in [3u64, 1, 2] {
        agg.submit(result(s));
    }
    let board: Vec<u64> = agg.leaderboard().iter().map(|t| t.score).collect();
    assert_eq!(board, vec![3, 2, 1]);
}

#[test]
fn equal_scores_keep_arrival_order() {
    let mut agg = Aggregator::new(2, 0);
    let mut a = result(500);
    a.stats.strength = 1;
    let mut b = result(500);
    b.stats.strength = 2;
    let mut c = result(500);
    c.stats.strength = 3;
    agg.submit(a);
    agg.submit(b);
    // A tie with the board's last entry does not displace it.
    agg.submit(c);
    let board = agg.leaderboard();
    assert_eq!(board.len(), 2);
    assert_eq!(board[0].stats.strength, 1);
    assert_eq!(board[1].stats.strength, 2);
}

#[test]
fn threshold_above_all_scores_counts_nothing() {
    let mut agg = Aggregator::new(5, u64::MAX);
    for s in [0u64, 1, 1000000, u64::MAX - 1] {
        agg.submit(result(s));
    }
    assert_eq!(agg.threshold_count(), 0);
    assert_eq!(agg.leaderboard().len(), 4);
}

#[test]
fn zero_capacity_board_stays_empty() {
    let mut agg = Aggregator::new(0, 100);
    for s in [5u64, 500, 50] {
        agg.submit(result(s));
    }
    assert_eq!(agg.leaderboard().len(), 0);
    assert_eq!(agg.threshold_count(), 1);
}

#[test]
fn aggregation_is_order_independent() {
    let forward = [100u64, 2500, 900, 7700, 4100, 60, 5200];
    let mut backward = forward;
    backward.reverse();
    let mut agg1 = Aggregator::new(3, 1000);
    let mut agg2 = Aggregator::new(3, 1000);
    for s in forward {
        agg1.submit(result(s));
    }
    for s in backward {
        agg2.submit(result(s));
    }
    assert_eq!(agg1.threshold_count(), agg2.threshold_count());
    let b1: Vec<u64> = agg1.leaderboard().iter().map(|t| t.score).collect();
    let b2: Vec<u64> = agg2.leaderboard().iter().map(|t| t.score).collect();
    assert_eq!(b1, b2);
    assert_eq!(b1, vec![7700, 5200, 4100]);
}

#[test]
fn board_is_sorted_after_many_mixed_submissions() {
    let mut agg = Aggregator::new(8, 0);
    let mut s: u64 = 12345;
    for _ in 0..500 {
        // A small deterministic pseudo-random walk.
        s = s.wrapping_mul(6364136223846793005).wrapping_add(1442695040888963407);
        agg.submit(result(s % 100000));
    }
    let board = agg.leaderboard();
    assert_eq!(board.len(), 8);
    for i in 1..board.len() {
        assert!(board[i - 1].score >= board[i].score);
    }
}
