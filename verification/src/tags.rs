//! Closed enumerations for the names that drive the simulator: the stat
//! line names of the option catalog, the flame (enchantment) types, the
//! target stats that select a scoring formula, and the level brackets.

use vstd::prelude::*;

verus! {

/// Name of one stat line the catalog can grant: a single stat, a
/// paired-stat combo, HP/MP, or a basic effect.
#[derive(Clone, Copy, PartialEq, Eq, Structural, Debug)]
pub enum StatTag {
    Str,
    Dex,
    Int,
    Luk,
    StrDex,
    StrInt,
    StrLuk,
    DexInt,
    DexLuk,
    LukInt,
    Hp,
    Mp,
    Def,
    LvlRed,
    Att,
    Matt,
    Spd,
    Jmp,
    AllStat,
}

/// The flame (enchantment) type: selects the tier weight vector.
#[derive(Clone, Copy, PartialEq, Eq, Structural, Debug)]
pub enum FlameType {
    Abyss,
    Totem,
    Drop,
    Pflame,
    Eflame,
    Regcraft,
    Mastercraft,
    Meistercraft,
    Masterfuse,
    Meisterfuse,
}

/// The stat a run optimizes for: selects the scoring formula.
#[derive(Clone, Copy, PartialEq, Eq, Structural, Debug)]
pub enum TargetStat {
    Str,
    Dex,
    Int,
    Luk,
    Kanna,
    Da,
    AltThief,
    Xenon,
}

/// Equipment level bracket: selects the tier value scaling.
#[derive(Clone, Copy, PartialEq, Eq, Structural, Debug)]
pub enum LevelBracket {
    Lv100,
    Lv110,
    Lv120,
    Lv130,
    Lv140,
    Lv150,
    Lv160,
    Lv170,
    Lv180,
    Lv190,
    Lv200,
    Lv250,
}

} // verus!
