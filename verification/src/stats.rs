//! The stat vector a trial accumulates: 11 named slots, and the exact
//! effect of adding one drawn line to it. Single-stat lines add to one
//! slot, paired-stat combos add the same value to both their slots, HP,
//! MP and the basic-effect lines add to their one dedicated slot, and the
//! defense and level-reduction lines touch no slot.

use vstd::prelude::*;
use crate::tags::StatTag;

verus! {

/// Accumulated stat bonuses of one trial.
#[derive(Clone, Copy, PartialEq, Eq, Structural, Debug)]
pub struct StatVector {
    pub strength: u32,
    pub dexterity: u32,
    pub intelligence: u32,
    pub luck: u32,
    pub attack: u32,
    pub magic_attack: u32,
    pub hp: u32,
    pub mp: u32,
    pub jump: u32,
    pub speed: u32,
    pub all_stat: u32,
}

impl StatVector {
    /// Every slot is at most `b`.
    pub open spec fn bounded(self, b: int) -> bool {
        &&& self.strength <= b
        &&& self.dexterity <= b
        &&& self.intelligence <= b
        &&& self.luck <= b
        &&& self.attack <= b
        &&& self.magic_attack <= b
        &&& self.hp <= b
        &&& self.mp <= b
        &&& self.jump <= b
        &&& self.speed <= b
        &&& self.all_stat <= b
    }

    /// The all-zero stat vector.
    pub open spec fn zero_spec() -> StatVector {
        StatVector {
            strength: 0,
            dexterity: 0,
            intelligence: 0,
            luck: 0,
            attack: 0,
            magic_attack: 0,
            hp: 0,
            mp: 0,
            jump: 0,
            speed: 0,
            all_stat: 0,
        }
    }

    /// Build the all-zero stat vector.
    pub fn zero() -> (sv: StatVector)
        ensures
            sv == StatVector::zero_spec(),
    {
        StatVector {
            strength: 0,
            dexterity: 0,
            intelligence: 0,
            luck: 0,
            attack: 0,
            magic_attack: 0,
            hp: 0,
            mp: 0,
            jump: 0,
            speed: 0,
            all_stat: 0,
        }
    }

    /// Add one line's sampled value to the slots the line affects.
    pub fn apply_line(&mut self, tag: StatTag, val: u32)
        requires
            old(self).bounded(u32::MAX - val),
        ensures
            *final(self) == apply_line_spec(*old(self), tag, val),
    {
        match tag {
            StatTag::Str => { self.strength = self.strength + val; },
            StatTag::Dex => { self.dexterity = self.dexterity + val; },
            StatTag::Int => { self.intelligence = self.intelligence + val; },
            StatTag::Luk => { self.luck = self.luck + val; },
            StatTag::StrDex => {
                self.strength = self.strength + val;
                self.dexterity = self.dexterity + val;
            },
            StatTag::StrInt => {
                self.strength = self.strength + val;
                self.intelligence = self.intelligence + val;
            },
            StatTag::StrLuk => {
                self.strength = self.strength + val;
                self.luck = self.luck + val;
            },
            StatTag::DexInt => {
                self.dexterity = self.dexterity + val;
                self.intelligence = self.intelligence + val;
            },
            StatTag::DexLuk => {
                self.dexterity = self.dexterity + val;
                self.luck = self.luck + val;
            },
            StatTag::LukInt => {
                self.luck = self.luck + val;
                self.intelligence = self.intelligence + val;
            },
            StatTag::Hp => { self.hp = self.hp + val; },
            StatTag::Mp => { self.mp = self.mp + val; },
            StatTag::Def => {},
            StatTag::LvlRed => {},
            StatTag::Att => { self.attack = self.attack + val; },
            StatTag::Matt => { self.magic_attack = self.magic_attack + val; },
            StatTag::Spd => { self.speed = self.speed + val; },
            StatTag::Jmp => { self.jump = self.jump + val; },
            StatTag::AllStat => { self.all_stat = self.all_stat + val; },
        }
    }
}

/// The stat vector after one line of name `tag` with value `val` is added.
pub open spec fn apply_line_spec(sv: StatVector, tag: StatTag, val: u32) -> StatVector {
    match tag {
        StatTag::Str => StatVector { strength: (sv.strength + val) as u32, ..sv },
        StatTag::Dex => StatVector { dexterity: (sv.dexterity + val) as u32, ..sv },
        StatTag::Int => StatVector { intelligence: (sv.intelligence + val) as u32, ..sv },
        StatTag::Luk => StatVector { luck: (sv.luck + val) as u32, ..sv },
        StatTag::StrDex => StatVector {
            strength: (sv.strength + val) as u32,
            dexterity: (sv.dexterity + val) as u32,
            ..sv
        },
        StatTag::StrInt => StatVector {
            strength: (sv.strength + val) as u32,
            intelligence: (sv.intelligence + val) as u32,
            ..sv
        },
        StatTag::StrLuk => StatVector {
            strength: (sv.strength + val) as u32,
            luck: (sv.luck + val) as u32,
            ..sv
        },
        StatTag::DexInt => StatVector {
            dexterity: (sv.dexterity + val) as u32,
            intelligence: (sv.intelligence + val) as u32,
            ..sv
        },
        StatTag::DexLuk => StatVector {
            dexterity: (sv.dexterity + val) as u32,
            luck: (sv.luck + val) as u32,
            ..sv
        },
        StatTag::LukInt => StatVector {
            luck: (sv.luck + val) as u32,
            intelligence: (sv.intelligence + val) as u32,
            ..sv
        },
        StatTag::Hp => StatVector { hp: (sv.hp + val) as u32, ..sv },
        StatTag::Mp => StatVector { mp: (sv.mp + val) as u32, ..sv },
        StatTag::Def => sv,
        StatTag::LvlRed => sv,
        StatTag::Att => StatVector { attack: (sv.attack + val) as u32, ..sv },
        StatTag::Matt => StatVector { magic_attack: (sv.magic_attack + val) as u32, ..sv },
        StatTag::Spd => StatVector { speed: (sv.speed + val) as u32, ..sv },
        StatTag::Jmp => StatVector { jump: (sv.jump + val) as u32, ..sv },
        StatTag::AllStat => StatVector { all_stat: (sv.all_stat + val) as u32, ..sv },
    }
}

/// Adding one line of value `val` raises no slot by more than `val`.
pub proof fn lemma_apply_line_bounded(sv: StatVector, tag: StatTag, val: u32, b: int)
    requires
        sv.bounded(b),
        b + val <= u32::MAX,
    ensures
        apply_line_spec(sv, tag, val).bounded(b + val),
{
}

} // verus!
