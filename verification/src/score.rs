//! The scorer: reduces a stat vector to one comparable per-mille score.
//! The formula is selected by the target stat and is a fixed linear
//! combination of slots: the all-stat slot times the all-stat coefficient,
//! an attack slot times the attack coefficient, the primary slot at weight
//! one, and sub-stat slots at the sub-stat coefficient; the hybrid formula
//! additionally adds HP and MP divided by the HP/MP normalization
//! constant (a floor division in per-mille fixed point).

use vstd::prelude::*;
use vstd::arithmetic::div_mod::{lemma_div_is_ordered, lemma_div_pos_is_pos};
use vstd::arithmetic::mul::lemma_mul_inequality;
use crate::stats::StatVector;
use crate::tags::TargetStat;

verus! {

/// Largest slot value the scorer accepts; trials stay far below it.
pub const MAX_SLOT: u32 = 1000000;

/// Scoring coefficients, all in per-mille units (1000 = 1.0).
#[derive(Clone, Copy, PartialEq, Eq, Structural, Debug)]
pub struct ScoreCoeffs {
    /// Weight of the all-stat% slot.
    pub allstat: u32,
    /// Weight of the secondary-stat slot.
    pub substat: u32,
    /// Weight of the attack (or magic attack) slot.
    pub att: u32,
    /// Divisor applied to the HP and MP slots in the hybrid formula.
    pub hpmp: u32,
}

impl ScoreCoeffs {
    /// The HP/MP divisor must be positive.
    pub open spec fn wf(self) -> bool {
        self.hpmp >= 1
    }
}

/// The per-mille score of a stat vector under a target stat's formula.
pub open spec fn score_spec(sv: StatVector, target: TargetStat, c: ScoreCoeffs) -> int {
    match target {
        TargetStat::Str =>
            sv.all_stat * c.allstat + sv.attack * c.att + sv.strength * 1000
                + sv.dexterity * c.substat,
        TargetStat::Luk =>
            sv.all_stat * c.allstat + sv.attack * c.att + sv.luck * 1000
                + sv.dexterity * c.substat,
        TargetStat::Dex =>
            sv.all_stat * c.allstat + sv.attack * c.att + sv.dexterity * 1000
                + sv.strength * c.substat,
        TargetStat::Int =>
            sv.all_stat * c.allstat + sv.magic_attack * c.att + sv.intelligence * 1000
                + sv.luck * c.substat,
        TargetStat::Kanna =>
            sv.all_stat * c.allstat + sv.magic_attack * c.att + sv.intelligence * 1000
                + sv.luck * c.substat + sv.hp * 1000000 / (c.hpmp as int)
                + sv.mp * 1000000 / (c.hpmp as int),
        TargetStat::Da =>
            sv.all_stat * c.allstat + sv.attack * c.att + sv.hp * 1000
                + sv.strength * c.substat,
        TargetStat::AltThief =>
            sv.all_stat * c.allstat + sv.attack * c.att + sv.luck * 1000
                + sv.strength * c.substat + sv.dexterity * c.substat,
        TargetStat::Xenon =>
            sv.all_stat * c.allstat + sv.attack * c.att + sv.strength * 1000
                + sv.dexterity * 1000 + sv.luck * 1000,
    }
}

/// Largest slot value one trial can accumulate: at most 4 draws of at
/// most 4900 each.
pub const MAX_TRIAL_SLOT: u32 = 19600;

/// An upper bound on the score of any stat vector a trial can produce:
/// every formula spends at most one all-stat term, one attack term, three
/// primary-weight slots, two sub-stat slots and two HP/MP terms.
pub open spec fn score_bound(c: ScoreCoeffs) -> int {
    19600 * c.allstat + 19600 * c.att + 3 * 19600 * 1000 + 2 * 19600 * c.substat + 2 * (19600int
        * 1000000 / (c.hpmp as int))
}

/// No trial-bounded stat vector scores above `score_bound`, whatever the
/// target stat: the maximum achievable score is bounded.
pub proof fn lemma_score_bounded(sv: StatVector, target: TargetStat, c: ScoreCoeffs)
    requires
        sv.bounded(MAX_TRIAL_SLOT as int),
        c.wf(),
    ensures
        score_spec(sv, target, c) <= score_bound(c),
{
    lemma_mul_inequality(sv.all_stat as int, 19600, c.allstat as int);
    lemma_mul_inequality(sv.attack as int, 19600, c.att as int);
    lemma_mul_inequality(sv.magic_attack as int, 19600, c.att as int);
    lemma_mul_inequality(sv.strength as int, 19600, c.substat as int);
    lemma_mul_inequality(sv.dexterity as int, 19600, c.substat as int);
    lemma_mul_inequality(sv.luck as int, 19600, c.substat as int);
    lemma_div_is_ordered(sv.hp as int * 1000000, 19600int * 1000000, c.hpmp as int);
    lemma_div_is_ordered(sv.mp as int * 1000000, 19600int * 1000000, c.hpmp as int);
    lemma_div_pos_is_pos(19600int * 1000000, c.hpmp as int);
    assert(2 * 19600 * c.substat == 19600 * c.substat + 19600 * c.substat) by (nonlinear_arith);
    assert(2 * (19600int * 1000000 / (c.hpmp as int)) == (19600int * 1000000 / (c.hpmp as int))
        + (19600int * 1000000 / (c.hpmp as int)));
}

/// One slot times one coefficient, with its overflow bound.
fn mul_coeff(slot: u32, coeff: u32) -> (r: u64)
    requires
        slot <= MAX_SLOT,
    ensures
        r == slot * coeff,
        r <= 1000000 * 0xFFFF_FFFFu64,
{
    proof {
        assert((slot as int) * (coeff as int) <= 1000000 * 0xFFFF_FFFF) by (nonlinear_arith)
            requires
                slot <= 1000000,
                coeff <= 0xFFFF_FFFFu32,
        ;
    }
    (slot as u64) * (coeff as u64)
}

/// One HP or MP slot divided by the HP/MP constant, in per-mille.
fn div_hpmp(slot: u32, hpmp: u32) -> (r: u64)
    requires
        slot <= MAX_SLOT,
        hpmp >= 1,
    ensures
        r == slot * 1000000 / (hpmp as int),
        r <= 1000000 * 1000000u64,
{
    let n: u64 = (slot as u64) * 1000000;
    proof {
        assert((n as int) / (hpmp as int) <= n as int) by (nonlinear_arith)
            requires
                hpmp >= 1,
                n >= 0,
        ;
    }
    n / (hpmp as u64)
}

/// Reduce a stat vector to its per-mille score. The result is a pure
/// function of the stat vector, the target stat and the coefficients, so
/// re-scoring the same inputs always yields the identical score.
pub fn score(sv: &StatVector, target: TargetStat, c: &ScoreCoeffs) -> (s: u64)
    requires
        sv.bounded(MAX_SLOT as int),
        c.wf(),
    ensures
        s as int == score_spec(*sv, target, *c),
{
    match target {
        TargetStat::Str => {
            mul_coeff(sv.all_stat, c.allstat) + mul_coeff(sv.attack, c.att)
                + mul_coeff(sv.strength, 1000) + mul_coeff(sv.dexterity, c.substat)
        },
        TargetStat::Luk => {
            mul_coeff(sv.all_stat, c.allstat) + mul_coeff(sv.attack, c.att)
                + mul_coeff(sv.luck, 1000) + mul_coeff(sv.dexterity, c.substat)
        },
        TargetStat::Dex => {
            mul_coeff(sv.all_stat, c.allstat) + mul_coeff(sv.attack, c.att)
                + mul_coeff(sv.dexterity, 1000) + mul_coeff(sv.strength, c.substat)
        },
        TargetStat::Int => {
            mul_coeff(sv.all_stat, c.allstat) + mul_coeff(sv.magic_attack, c.att)
                + mul_coeff(sv.intelligence, 1000) + mul_coeff(sv.luck, c.substat)
        },
        TargetStat::Kanna => {
            mul_coeff(sv.all_stat, c.allstat) + mul_coeff(sv.magic_attack, c.att)
                + mul_coeff(sv.intelligence, 1000) + mul_coeff(sv.luck, c.substat)
                + div_hpmp(sv.hp, c.hpmp) + div_hpmp(sv.mp, c.hpmp)
        },
        TargetStat::Da => {
            mul_coeff(sv.all_stat, c.allstat) + mul_coeff(sv.attack, c.att)
                + mul_coeff(sv.hp, 1000) + mul_coeff(sv.strength, c.substat)
        },
        TargetStat::AltThief => {
            mul_coeff(sv.all_stat, c.allstat) + mul_coeff(sv.attack, c.att)
                + mul_coeff(sv.luck, 1000) + mul_coeff(sv.strength, c.substat)
                + mul_coeff(sv.dexterity, c.substat)
        },
        TargetStat::Xenon => {
            mul_coeff(sv.all_stat, c.allstat) + mul_coeff(sv.attack, c.att)
                + mul_coeff(sv.strength, 1000) + mul_coeff(sv.dexterity, 1000)
                + mul_coeff(sv.luck, 1000)
        },
    }
}

} // verus!
