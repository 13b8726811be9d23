//! Tier weight tables: for each flame type, a 9-slot probability vector
//! over tier indices, and the fixed 4-slot line-count distribution used in
//! no-boss mode. All weights are exact per-mille integers: each vector
//! sums to exactly 1000.

use vstd::prelude::*;
use crate::tags::FlameType;

verus! {

/// Weight of tier index `i` (0..9) for flame type `ft`, in per-mille.
pub open spec fn tier_weight(ft: FlameType, i: int) -> u32 {
    match ft {
        FlameType::Abyss => {
            if i == 4 { 630 } else if i == 5 { 340 } else if i == 6 { 30 } else { 0 }
        },
        FlameType::Totem => {
            if i == 2 { 558 } else if i == 3 { 325 } else if i == 4 { 65 }
            else if i == 5 { 32 } else if i == 6 { 20 } else { 0 }
        },
        FlameType::Drop => {
            if i == 2 { 250 } else if i == 3 { 300 } else if i == 4 { 300 }
            else if i == 5 { 140 } else if i == 6 { 10 } else { 0 }
        },
        FlameType::Pflame => {
            if i == 2 { 200 } else if i == 3 { 300 } else if i == 4 { 360 }
            else if i == 5 { 140 } else { 0 }
        },
        FlameType::Eflame => {
            if i == 3 { 290 } else if i == 4 { 450 } else if i == 5 { 250 }
            else if i == 6 { 10 } else { 0 }
        },
        FlameType::Regcraft => {
            if i == 2 { 500 } else if i == 3 { 400 } else if i == 4 { 100 } else { 0 }
        },
        FlameType::Mastercraft => {
            if i == 2 { 150 } else if i == 3 { 300 } else if i == 4 { 400 }
            else if i == 5 { 140 } else if i == 6 { 10 } else { 0 }
        },
        FlameType::Meistercraft => {
            if i == 3 { 190 } else if i == 4 { 500 } else if i == 5 { 300 }
            else if i == 6 { 10 } else { 0 }
        },
        FlameType::Masterfuse => {
            if i == 2 { 250 } else if i == 3 { 350 } else if i == 4 { 300 }
            else if i == 5 { 100 } else { 0 }
        },
        FlameType::Meisterfuse => {
            if i == 3 { 400 } else if i == 4 { 450 } else if i == 5 { 140 }
            else if i == 6 { 10 } else { 0 }
        },
    }
}

/// The full 9-slot weight vector of a flame type.
pub open spec fn full_weights(ft: FlameType) -> Seq<u32> {
    Seq::new(9, |i: int| tier_weight(ft, i))
}

/// Weight of drawing `i + 1` lines (i in 0..4) in no-boss mode, per-mille:
/// the fixed distribution [0.39, 0.39, 0.18, 0.04] over 1..=4 lines.
pub open spec fn line_count_weight(i: int) -> u32 {
    if i == 0 { 390 } else if i == 1 { 390 } else if i == 2 { 180 }
    else if i == 3 { 40 } else { 0 }
}

/// Weight of the active 7-slot tier slice at position `i` (0..7): boss mode
/// uses tier weights 0..7, no-boss mode shifts by two and uses 2..9.
pub open spec fn active_weight(ft: FlameType, noboss: bool, i: int) -> u32 {
    if noboss { tier_weight(ft, i + 2) } else { tier_weight(ft, i) }
}

/// Sum of the first `n` entries of a weight vector.
pub open spec fn sum_prefix(s: Seq<u32>, n: int) -> int
    decreases n,
{
    if n <= 0 {
        0
    } else {
        sum_prefix(s, n - 1) + s[n - 1]
    }
}

/// A prefix sum of non-negative entries is non-negative and monotone in
/// the prefix length.
pub proof fn lemma_sum_prefix_mono(s: Seq<u32>, a: int, b: int)
    requires
        0 <= a <= b,
    ensures
        0 <= sum_prefix(s, a) <= sum_prefix(s, b),
    decreases b,
{
    if b > 0 {
        if a == b {
            lemma_sum_prefix_mono(s, a - 1, b - 1);
        } else {
            lemma_sum_prefix_mono(s, a, b - 1);
        }
    }
}

/// Every 9-slot tier weight vector sums to exactly one (1000 per-mille).
pub proof fn lemma_tier_weights_sum(ft: FlameType)
    ensures
        sum_prefix(full_weights(ft), 9) == 1000,
{
    reveal_with_fuel(sum_prefix, 10);
}

/// The no-boss line-count distribution sums to exactly one.
pub proof fn lemma_line_count_weights_sum()
    ensures
        sum_prefix(Seq::new(4, |i: int| line_count_weight(i)), 4) == 1000,
{
    reveal_with_fuel(sum_prefix, 5);
}

/// Tier indices 0, 1, 7 and 8 carry no mass for any flame type, so both
/// the boss slice (0..7) and the no-boss slice (2..9) keep the whole mass.
pub proof fn lemma_edge_weights_zero(ft: FlameType)
    ensures
        tier_weight(ft, 0) == 0,
        tier_weight(ft, 1) == 0,
        tier_weight(ft, 7) == 0,
        tier_weight(ft, 8) == 0,
{
}

/// Any sequence that agrees with the active 7-slot weight slice on its
/// first seven entries has prefix sum exactly 1000 there.
pub proof fn lemma_active_weights_sum(ft: FlameType, noboss: bool, s: Seq<u32>)
    requires
        forall|i: int| 0 <= i < 7 ==> s[i] == active_weight(ft, noboss, i),
    ensures
        sum_prefix(s, 7) == 1000,
{
    reveal_with_fuel(sum_prefix, 8);
}

/// The executable 9-slot weight vector for a flame type.
pub fn tier_weights(ft: FlameType) -> (v: Vec<u32>)
    ensures
        v@.len() == 9,
        forall|i: int| 0 <= i < 9 ==> v@[i] == tier_weight(ft, i),
{
    let mut v: Vec<u32> = Vec::new();
    let mut i: usize = 0;
    while i < 9
        invariant
            i <= 9,
            v@.len() == i,
            forall|j: int| 0 <= j < i ==> v@[j] == tier_weight(ft, j),
        decreases 9 - i,
    {
        v.push(tier_weight_at(ft, i));
        i = i + 1;
    }
    v
}

/// The executable weight of one tier index.
pub fn tier_weight_at(ft: FlameType, i: usize) -> (w: u32)
    requires
        i < 9,
    ensures
        w == tier_weight(ft, i as int),
{
    match ft {
        FlameType::Abyss => {
            if i == 4 { 630 } else if i == 5 { 340 } else if i == 6 { 30 } else { 0 }
        },
        FlameType::Totem => {
            if i == 2 { 558 } else if i == 3 { 325 } else if i == 4 { 65 }
            else if i == 5 { 32 } else if i == 6 { 20 } else { 0 }
        },
        FlameType::Drop => {
            if i == 2 { 250 } else if i == 3 { 300 } else if i == 4 { 300 }
            else if i == 5 { 140 } else if i == 6 { 10 } else { 0 }
        },
        FlameType::Pflame => {
            if i == 2 { 200 } else if i == 3 { 300 } else if i == 4 { 360 }
            else if i == 5 { 140 } else { 0 }
        },
        FlameType::Eflame => {
            if i == 3 { 290 } else if i == 4 { 450 } else if i == 5 { 250 }
            else if i == 6 { 10 } else { 0 }
        },
        FlameType::Regcraft => {
            if i == 2 { 500 } else if i == 3 { 400 } else if i == 4 { 100 } else { 0 }
        },
        FlameType::Mastercraft => {
            if i == 2 { 150 } else if i == 3 { 300 } else if i == 4 { 400 }
            else if i == 5 { 140 } else if i == 6 { 10 } else { 0 }
        },
        FlameType::Meistercraft => {
            if i == 3 { 190 } else if i == 4 { 500 } else if i == 5 { 300 }
            else if i == 6 { 10 } else { 0 }
        },
        FlameType::Masterfuse => {
            if i == 2 { 250 } else if i == 3 { 350 } else if i == 4 { 300 }
            else if i == 5 { 100 } else { 0 }
        },
        FlameType::Meisterfuse => {
            if i == 3 { 400 } else if i == 4 { 450 } else if i == 5 { 140 }
            else if i == 6 { 10 } else { 0 }
        },
    }
}

/// The executable active 7-slot weight slice for a flame type and mode.
pub fn active_tier_weights(ft: FlameType, noboss: bool) -> (v: Vec<u32>)
    ensures
        v@.len() == 7,
        forall|i: int| 0 <= i < 7 ==> v@[i] == active_weight(ft, noboss, i),
{
    let mut v: Vec<u32> = Vec::new();
    let mut i: usize = 0;
    while i < 7
        invariant
            i <= 7,
            v@.len() == i,
            forall|j: int| 0 <= j < i ==> v@[j] == active_weight(ft, noboss, j),
        decreases 7 - i,
    {
        let idx: usize = if noboss { i + 2 } else { i };
        v.push(tier_weight_at(ft, idx));
        i = i + 1;
    }
    v
}

/// The executable no-boss line-count weight vector.
pub fn line_count_weights() -> (v: Vec<u32>)
    ensures
        v@.len() == 4,
        forall|i: int| 0 <= i < 4 ==> v@[i] == line_count_weight(i),
{
    let mut v: Vec<u32> = Vec::new();
    v.push(390);
    v.push(390);
    v.push(180);
    v.push(40);
    v
}

} // verus!
