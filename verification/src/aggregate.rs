//! The aggregation engine: consumes a stream of trial results and
//! maintains a threshold counter and a bounded top-K leaderboard. A ghost
//! history of all submitted scores models the stream; the invariant pins
//! the counter to the exact number of qualifying submissions and the
//! leaderboard to the K highest scores seen so far (up to the order of
//! equal scores), sorted by non-increasing score.

use vstd::prelude::*;
use crate::stats::StatVector;

verus! {

broadcast use
    vstd::seq_lib::group_to_multiset_ensures,
    vstd::multiset::group_multiset_axioms,
;

/// The outcome of one trial: its stat vector and its per-mille score.
#[derive(Clone, Copy, PartialEq, Eq, Structural, Debug)]
pub struct TrialResult {
    pub stats: StatVector,
    pub score: u64,
}

/// The scores of a sequence of trial results, in order.
pub open spec fn scores_of(s: Seq<TrialResult>) -> Seq<u64> {
    s.map_values(|t: TrialResult| t.score)
}

/// Sorted by non-increasing score.
pub open spec fn sorted_desc(s: Seq<u64>) -> bool {
    forall|i: int, j: int| 0 <= i <= j < s.len() ==> s[i] >= s[j]
}

/// Number of entries of `s` that reach the threshold `t`.
pub open spec fn count_ge(s: Seq<u64>, t: u64) -> int
    decreases s.len(),
{
    if s.len() == 0 {
        0
    } else {
        count_ge(s.drop_last(), t) + if s.last() >= t { 1int } else { 0 }
    }
}

/// The threshold count lies between 0 and the number of entries.
pub proof fn lemma_count_ge_le_len(s: Seq<u64>, t: u64)
    ensures
        0 <= count_ge(s, t) <= s.len(),
    decreases s.len(),
{
    if s.len() > 0 {
        lemma_count_ge_le_len(s.drop_last(), t);
    }
}

/// Appending one score raises the threshold count by one exactly when the
/// score reaches the threshold.
pub proof fn lemma_count_ge_push(s: Seq<u64>, t: u64, v: u64)
    ensures
        count_ge(s.push(v), t) == count_ge(s, t) + if v >= t { 1int } else { 0 },
{
    assert(s.push(v).drop_last() =~= s);
}

/// Removing the entry at any index lowers the threshold count by exactly
/// that entry's contribution.
proof fn lemma_count_ge_remove(s: Seq<u64>, t: u64, i: int)
    requires
        0 <= i < s.len(),
    ensures
        count_ge(s.remove(i), t) == count_ge(s, t) - if s[i] >= t { 1int } else { 0 },
    decreases s.len(),
{
    if i == s.len() - 1 {
        assert(s.remove(i) =~= s.drop_last());
    } else {
        assert(s.remove(i).drop_last() =~= s.drop_last().remove(i));
        assert(s.remove(i).last() == s.last());
        lemma_count_ge_remove(s.drop_last(), t, i);
    }
}

/// The threshold count is a commutative reduction: it depends only on
/// the multiset of submitted scores, never on their order, so trials may
/// be aggregated in any interleaving.
pub proof fn lemma_count_ge_permutation(s1: Seq<u64>, s2: Seq<u64>, t: u64)
    requires
        s1.to_multiset() == s2.to_multiset(),
    ensures
        count_ge(s1, t) == count_ge(s2, t),
    decreases s1.len(),
{
    if s1.len() == 0 {
        assert(s1.to_multiset().len() == s1.len());
        assert(s2.to_multiset().len() == s2.len());
        assert(s2.len() == 0);
    } else {
        let v = s1.last();
        assert(s1[s1.len() - 1] == v);
        assert(s1.contains(v));
        assert(s2.to_multiset().count(v) > 0);
        assert(s2.contains(v));
        let j = choose|j: int| 0 <= j < s2.len() && s2[j] == v;
        assert(s1.drop_last() =~= s1.remove(s1.len() - 1));
        assert(s1.drop_last().to_multiset() == s2.remove(j).to_multiset());
        lemma_count_ge_remove(s2, t, j);
        lemma_count_ge_permutation(s1.drop_last(), s2.remove(j), t);
    }
}

/// If no entry reaches the threshold, the threshold count is zero.
pub proof fn lemma_count_ge_none(s: Seq<u64>, t: u64)
    requires
        forall|i: int| 0 <= i < s.len() ==> s[i] < t,
    ensures
        count_ge(s, t) == 0,
    decreases s.len(),
{
    if s.len() > 0 {
        assert(forall|i: int| 0 <= i < s.drop_last().len() ==> s.drop_last()[i] == s[i]);
        lemma_count_ge_none(s.drop_last(), t);
    }
}

/// Mapping to scores commutes with inserting one result.
proof fn lemma_scores_insert(s: Seq<TrialResult>, i: int, t: TrialResult)
    requires
        0 <= i <= s.len(),
    ensures
        scores_of(s.insert(i, t)) =~= scores_of(s).insert(i, t.score),
{
    s.insert_ensures(i, t);
    scores_of(s).insert_ensures(i, t.score);
}

/// Mapping to scores commutes with dropping the last result.
proof fn lemma_scores_drop_last(s: Seq<TrialResult>)
    requires
        s.len() > 0,
    ensures
        scores_of(s.drop_last()) =~= scores_of(s).drop_last(),
{
}

/// Inserting at the position the sorted order dictates keeps the sequence
/// sorted.
proof fn lemma_sorted_insert(s: Seq<u64>, i: int, v: u64)
    requires
        sorted_desc(s),
        0 <= i <= s.len(),
        forall|j: int| 0 <= j < i ==> s[j] >= v,
        i < s.len() ==> s[i] < v,
    ensures
        sorted_desc(s.insert(i, v)),
{
    s.insert_ensures(i, v);
    let r = s.insert(i, v);
    assert forall|a: int, b: int| 0 <= a <= b < r.len() implies r[a] >= r[b] by {
        if a < i {
            assert(r[a] == s[a]);
        }
        if b < i {
            assert(r[b] == s[b]);
        }
        if a > i {
            assert(r[a] == s[a - 1]);
        }
        if b > i {
            assert(r[b] == s[b - 1]);
        }
    }
}

/// A sorted sequence stays sorted when its last entry is dropped.
proof fn lemma_sorted_drop_last(s: Seq<u64>)
    requires
        sorted_desc(s),
        s.len() > 0,
    ensures
        sorted_desc(s.drop_last()),
{
    assert(forall|i: int| 0 <= i < s.len() - 1 ==> s.drop_last()[i] == s[i]);
}

/// Dropping the last entry takes one occurrence of it out of the multiset.
proof fn lemma_multiset_drop_last(s: Seq<u64>)
    requires
        s.len() > 0,
    ensures
        s.drop_last().to_multiset() == s.to_multiset().remove(s.last()),
{
    assert(s.drop_last() =~= s.remove(s.len() - 1));
}

/// The aggregator: threshold counter and bounded top-K leaderboard over a
/// (ghost) history of submitted scores.
pub struct Aggregator {
    /// Leaderboard capacity.
    pub k: usize,
    /// The keep threshold, per-mille.
    pub keep: u64,
    /// Number of submitted trials whose score reached `keep`.
    pub count: u64,
    /// The leaderboard: up to `k` results, sorted by non-increasing score.
    pub top: Vec<TrialResult>,
    /// All scores ever submitted, in submission order.
    pub history: Ghost<Seq<u64>>,
}

impl Aggregator {
    /// The aggregator's invariant:
    /// - `count` is exactly the number of submitted scores at or above
    ///   `keep`;
    /// - the leaderboard holds `min(k, submissions)` results, sorted by
    ///   non-increasing score;
    /// - its scores are drawn from the submitted scores;
    /// - and it misses nothing above its last (lowest) score: every
    ///   submitted score above that bound is on the board, with its
    ///   multiplicity.
    pub open spec fn wf(self) -> bool {
        let ts = scores_of(self.top@).to_multiset();
        let hs = self.history@.to_multiset();
        &&& self.count as int == count_ge(self.history@, self.keep)
        &&& self.top@.len() == if self.history@.len() <= self.k as int {
                self.history@.len() as int
            } else {
                self.k as int
            }
        &&& sorted_desc(scores_of(self.top@))
        &&& forall|v: u64| #[trigger] ts.count(v) <= hs.count(v)
        &&& self.top@.len() < self.k ==> forall|v: u64| #[trigger] ts.count(v) == hs.count(v)
        &&& (self.top@.len() == self.k && self.k > 0) ==> forall|v: u64|
                v > scores_of(self.top@).last() ==> #[trigger] ts.count(v) == hs.count(v)
    }

    /// A fresh aggregator with leaderboard capacity `k` and threshold
    /// `keep`: no submissions, count zero, empty board.
    pub fn new(k: usize, keep: u64) -> (a: Aggregator)
        ensures
            a.wf(),
            a.k == k,
            a.keep == keep,
            a.count == 0,
            a.top@.len() == 0,
            a.history@ == Seq::<u64>::empty(),
    {
        let a = Aggregator {
            k,
            keep,
            count: 0,
            top: Vec::new(),
            history: Ghost(Seq::empty()),
        };
        proof {
            assert(scores_of(a.top@) =~= Seq::<u64>::empty());
            assert forall|v: u64|
                #[trigger] scores_of(a.top@).to_multiset().count(v)
                    == a.history@.to_multiset().count(v) by {
                if scores_of(a.top@).to_multiset().count(v) > 0 {
                    assert(scores_of(a.top@).contains(v));
                }
                if a.history@.to_multiset().count(v) > 0 {
                    assert(a.history@.contains(v));
                }
            }
        }
        a
    }

    /// Submit one trial result: count it if its score reaches the
    /// threshold, and put it on the leaderboard if the board is not full
    /// or the score beats the board's last entry.
    pub fn submit(&mut self, t: TrialResult)
        requires
            old(self).wf(),
            old(self).history@.len() < u64::MAX,
        ensures
            final(self).wf(),
            final(self).k == old(self).k,
            final(self).keep == old(self).keep,
            final(self).history@ == old(self).history@.push(t.score),
            final(self).count == old(self).count as int
                + if t.score >= old(self).keep { 1int } else { 0 },
    {
        proof {
            lemma_count_ge_le_len(self.history@, self.keep);
            lemma_count_ge_push(self.history@, self.keep, t.score);
        }
        if t.score >= self.keep {
            self.count = self.count + 1;
        }
        proof {
            self.history@ = self.history@.push(t.score);
        }
        let ghost old_top = self.top@;
        if self.top.len() < self.k {
            let i = insert_pos(&self.top, t.score);
            self.top.insert(i, t);
            proof {
                lemma_scores_insert(old_top, i as int, t);
                lemma_sorted_insert(scores_of(old_top), i as int, t.score);
            }
        } else if self.k > 0 && t.score > self.top[self.k - 1].score {
            let ghost old_last = scores_of(old_top).last();
            let i = insert_pos(&self.top, t.score);
            proof {
                if i as int == old_top.len() {
                    assert(scores_of(old_top)[old_top.len() - 1] >= t.score);
                }
            }
            self.top.insert(i, t);
            let ghost mid = self.top@;
            self.top.pop();
            proof {
                lemma_scores_insert(old_top, i as int, t);
                lemma_sorted_insert(scores_of(old_top), i as int, t.score);
                old_top.insert_ensures(i as int, t);
                scores_of(old_top).insert_ensures(i as int, t.score);
                assert(self.top@ =~= mid.drop_last());
                lemma_scores_drop_last(mid);
                lemma_sorted_drop_last(scores_of(mid));
                lemma_multiset_drop_last(scores_of(mid));
                // The dropped entry is the board's old last (lowest) score.
                assert(mid.last() == old_top[old_top.len() - 1]);
                assert(scores_of(mid).last() == old_last);
                // The old last score really occurs on the old board.
                assert(scores_of(old_top)[old_top.len() - 1] == old_last);
                assert(scores_of(old_top).contains(old_last));
                // The new last entry is at least the old last score.
                let ns = scores_of(self.top@);
                let kk = self.k as int;
                assert(ns.len() == kk);
                assert forall|j: int| 0 <= j < kk implies ns[j] >= old_last by {
                    assert(ns[j] == scores_of(mid)[j]);
                    if j < i as int {
                        assert(scores_of(mid)[j] == scores_of(old_top)[j]);
                    } else if j == i as int {
                        assert(scores_of(mid)[j] == t.score);
                    } else {
                        assert(scores_of(mid)[j] == scores_of(old_top)[j - 1]);
                    }
                }
            }
        }
    }

    /// The number of submitted trials whose score reached the threshold.
    pub fn threshold_count(&self) -> (c: u64)
        ensures
            c == self.count,
    {
        self.count
    }

    /// The leaderboard, best first.
    pub fn leaderboard(&self) -> (r: &Vec<TrialResult>)
        ensures
            r@ == self.top@,
    {
        &self.top
    }

    /// After any number of submissions the leaderboard holds at most `k`
    /// results, sorted by non-increasing score.
    pub proof fn lemma_leaderboard_bounded_sorted(self)
        requires
            self.wf(),
        ensures
            self.top@.len() <= self.k,
            sorted_desc(scores_of(self.top@)),
    {
    }

    /// If every submitted score lies strictly below the threshold, the
    /// counter is zero — in particular when the threshold exceeds the
    /// highest achievable score.
    pub proof fn lemma_count_zero_when_unreachable(self)
        requires
            self.wf(),
            forall|i: int| 0 <= i < self.history@.len() ==> self.history@[i] < self.keep,
        ensures
            self.count == 0,
    {
        lemma_count_ge_none(self.history@, self.keep);
    }
}

/// First position on the sorted board whose score is below `s`: the place
/// where a result of score `s` is inserted, after all entries of equal or
/// higher score.
fn insert_pos(top: &Vec<TrialResult>, s: u64) -> (i: usize)
    requires
        sorted_desc(scores_of(top@)),
    ensures
        i <= top@.len(),
        forall|j: int| 0 <= j < i ==> scores_of(top@)[j] >= s,
        i < top@.len() ==> scores_of(top@)[i as int] < s,
{
    let mut i: usize = 0;
    while i < top.len()
        invariant
            i <= top@.len(),
            forall|j: int| 0 <= j < i ==> scores_of(top@)[j] >= s,
        decreases top@.len() - i,
    {
        if top[i].score < s {
            return i;
        }
        i = i + 1;
    }
    i
}

} // verus!
