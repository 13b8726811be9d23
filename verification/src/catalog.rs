//! The option catalog: for a level bracket, the fixed list of 19 stat
//! lines a flame can grant, each with its 7 strictly increasing tier
//! values. Tier `i` of a line is `base * (i + 1)`, where the base depends
//! only on the bracket and on the line's family (single stat, paired-stat
//! combo, HP/MP, or basic effect).

use vstd::prelude::*;
use crate::tags::{LevelBracket, StatTag};

verus! {

/// Base tier value of a single-stat line for a bracket.
pub open spec fn flat_base(b: LevelBracket) -> u32 {
    match b {
        LevelBracket::Lv100 => 6,
        LevelBracket::Lv110 => 6,
        LevelBracket::Lv120 => 7,
        LevelBracket::Lv130 => 7,
        LevelBracket::Lv140 => 8,
        LevelBracket::Lv150 => 8,
        LevelBracket::Lv160 => 9,
        LevelBracket::Lv170 => 9,
        LevelBracket::Lv180 => 10,
        LevelBracket::Lv190 => 10,
        LevelBracket::Lv200 => 11,
        LevelBracket::Lv250 => 12,
    }
}

/// Base tier value of a paired-stat combo line for a bracket.
pub open spec fn combo_base(b: LevelBracket) -> u32 {
    match b {
        LevelBracket::Lv100 => 3,
        LevelBracket::Lv110 => 3,
        LevelBracket::Lv120 => 4,
        LevelBracket::Lv130 => 4,
        LevelBracket::Lv140 => 4,
        LevelBracket::Lv150 => 4,
        LevelBracket::Lv160 => 5,
        LevelBracket::Lv170 => 5,
        LevelBracket::Lv180 => 5,
        LevelBracket::Lv190 => 5,
        LevelBracket::Lv200 => 6,
        LevelBracket::Lv250 => 7,
    }
}

/// Base tier value of an HP or MP line for a bracket.
pub open spec fn hpmp_base(b: LevelBracket) -> u32 {
    match b {
        LevelBracket::Lv100 => 300,
        LevelBracket::Lv110 => 330,
        LevelBracket::Lv120 => 360,
        LevelBracket::Lv130 => 390,
        LevelBracket::Lv140 => 420,
        LevelBracket::Lv150 => 450,
        LevelBracket::Lv160 => 480,
        LevelBracket::Lv170 => 510,
        LevelBracket::Lv180 => 540,
        LevelBracket::Lv190 => 570,
        LevelBracket::Lv200 => 600,
        LevelBracket::Lv250 => 700,
    }
}

/// The line name at each catalog position.
pub open spec fn catalog_tag(j: int) -> StatTag {
    if j == 0 { StatTag::Str }
    else if j == 1 { StatTag::Dex }
    else if j == 2 { StatTag::Int }
    else if j == 3 { StatTag::Luk }
    else if j == 4 { StatTag::StrDex }
    else if j == 5 { StatTag::StrInt }
    else if j == 6 { StatTag::StrLuk }
    else if j == 7 { StatTag::DexInt }
    else if j == 8 { StatTag::DexLuk }
    else if j == 9 { StatTag::LukInt }
    else if j == 10 { StatTag::Hp }
    else if j == 11 { StatTag::Mp }
    else if j == 12 { StatTag::Def }
    else if j == 13 { StatTag::LvlRed }
    else if j == 14 { StatTag::Att }
    else if j == 15 { StatTag::Matt }
    else if j == 16 { StatTag::Spd }
    else if j == 17 { StatTag::Jmp }
    else { StatTag::AllStat }
}

/// Base tier value of a line by its tag, for a bracket: single stats scale
/// with `flat_base`, combos with `combo_base`, HP/MP with `hpmp_base`, and
/// the basic-effect lines use base 1.
pub open spec fn base_value(b: LevelBracket, t: StatTag) -> u32 {
    match t {
        StatTag::Str | StatTag::Dex | StatTag::Int | StatTag::Luk => flat_base(b),
        StatTag::StrDex | StatTag::StrInt | StatTag::StrLuk | StatTag::DexInt
            | StatTag::DexLuk | StatTag::LukInt => combo_base(b),
        StatTag::Hp | StatTag::Mp => hpmp_base(b),
        StatTag::Def | StatTag::LvlRed | StatTag::Att | StatTag::Matt
            | StatTag::Spd | StatTag::Jmp | StatTag::AllStat => 1,
    }
}

/// One stat line: its name and its 7 tier values.
pub struct LineOption {
    pub name: StatTag,
    pub tiers: Vec<u32>,
}

/// The catalog for one level bracket.
pub struct OptionCatalog {
    pub bracket: LevelBracket,
    pub lines: Vec<LineOption>,
}

impl OptionCatalog {
    /// Well-formedness: exactly 19 lines, in the canonical order, each with
    /// its 7 tier values pinned to `base * (tier index + 1)`.
    pub open spec fn wf(self) -> bool {
        &&& self.lines@.len() == 19
        &&& forall|j: int| 0 <= j < 19 ==> (#[trigger] self.lines@[j]).name == catalog_tag(j)
        &&& forall|j: int| 0 <= j < 19 ==> (#[trigger] self.lines@[j]).tiers@.len() == 7
        &&& forall|j: int, i: int| 0 <= j < 19 && 0 <= i < 7 ==>
                (#[trigger] self.lines@[j].tiers@[i]) ==
                    base_value(self.bracket, catalog_tag(j)) * (i + 1)
    }

    /// Build the catalog for a bracket. The result is pinned completely by
    /// the bracket, so the catalog is deterministic.
    pub fn build(bracket: LevelBracket) -> (c: OptionCatalog)
        ensures
            c.wf(),
            c.bracket == bracket,
    {
        let mut lines: Vec<LineOption> = Vec::new();
        let mut j: usize = 0;
        while j < 19
            invariant
                j <= 19,
                lines@.len() == j,
                forall|a: int| 0 <= a < j ==> (#[trigger] lines@[a]).name == catalog_tag(a),
                forall|a: int| 0 <= a < j ==> (#[trigger] lines@[a]).tiers@.len() == 7,
                forall|a: int, i: int| 0 <= a < j && 0 <= i < 7 ==>
                    (#[trigger] lines@[a].tiers@[i]) ==
                        base_value(bracket, catalog_tag(a)) * (i + 1),
            decreases 19 - j,
        {
            let tag = tag_at(j);
            let base = base_value_at(bracket, tag);
            let mut tiers: Vec<u32> = Vec::new();
            let mut i: usize = 0;
            while i < 7
                invariant
                    i <= 7,
                    base == base_value(bracket, tag),
                    base <= 700,
                    tiers@.len() == i,
                    forall|a: int| 0 <= a < i ==>
                        (#[trigger] tiers@[a]) == base * (a + 1),
                decreases 7 - i,
            {
                tiers.push(base * ((i + 1) as u32));
                i = i + 1;
            }
            lines.push(LineOption { name: tag, tiers });
            j = j + 1;
        }
        OptionCatalog { bracket, lines }
    }
}

/// The executable catalog tag at a position.
pub fn tag_at(j: usize) -> (t: StatTag)
    requires
        j < 19,
    ensures
        t == catalog_tag(j as int),
{
    if j == 0 { StatTag::Str }
    else if j == 1 { StatTag::Dex }
    else if j == 2 { StatTag::Int }
    else if j == 3 { StatTag::Luk }
    else if j == 4 { StatTag::StrDex }
    else if j == 5 { StatTag::StrInt }
    else if j == 6 { StatTag::StrLuk }
    else if j == 7 { StatTag::DexInt }
    else if j == 8 { StatTag::DexLuk }
    else if j == 9 { StatTag::LukInt }
    else if j == 10 { StatTag::Hp }
    else if j == 11 { StatTag::Mp }
    else if j == 12 { StatTag::Def }
    else if j == 13 { StatTag::LvlRed }
    else if j == 14 { StatTag::Att }
    else if j == 15 { StatTag::Matt }
    else if j == 16 { StatTag::Spd }
    else if j == 17 { StatTag::Jmp }
    else { StatTag::AllStat }
}

/// The executable base value of a line for a bracket.
pub fn base_value_at(b: LevelBracket, t: StatTag) -> (v: u32)
    ensures
        v == base_value(b, t),
        v <= 700,
{
    match t {
        StatTag::Str | StatTag::Dex | StatTag::Int | StatTag::Luk => {
            match b {
                LevelBracket::Lv100 => 6,
                LevelBracket::Lv110 => 6,
                LevelBracket::Lv120 => 7,
                LevelBracket::Lv130 => 7,
                LevelBracket::Lv140 => 8,
                LevelBracket::Lv150 => 8,
                LevelBracket::Lv160 => 9,
                LevelBracket::Lv170 => 9,
                LevelBracket::Lv180 => 10,
                LevelBracket::Lv190 => 10,
                LevelBracket::Lv200 => 11,
                LevelBracket::Lv250 => 12,
            }
        },
        StatTag::StrDex | StatTag::StrInt | StatTag::StrLuk | StatTag::DexInt
            | StatTag::DexLuk | StatTag::LukInt => {
            match b {
                LevelBracket::Lv100 => 3,
                LevelBracket::Lv110 => 3,
                LevelBracket::Lv120 => 4,
                LevelBracket::Lv130 => 4,
                LevelBracket::Lv140 => 4,
                LevelBracket::Lv150 => 4,
                LevelBracket::Lv160 => 5,
                LevelBracket::Lv170 => 5,
                LevelBracket::Lv180 => 5,
                LevelBracket::Lv190 => 5,
                LevelBracket::Lv200 => 6,
                LevelBracket::Lv250 => 7,
            }
        },
        StatTag::Hp | StatTag::Mp => {
            match b {
                LevelBracket::Lv100 => 300,
                LevelBracket::Lv110 => 330,
                LevelBracket::Lv120 => 360,
                LevelBracket::Lv130 => 390,
                LevelBracket::Lv140 => 420,
                LevelBracket::Lv150 => 450,
                LevelBracket::Lv160 => 480,
                LevelBracket::Lv170 => 510,
                LevelBracket::Lv180 => 540,
                LevelBracket::Lv190 => 570,
                LevelBracket::Lv200 => 600,
                LevelBracket::Lv250 => 700,
            }
        },
        StatTag::Def | StatTag::LvlRed | StatTag::Att | StatTag::Matt
            | StatTag::Spd | StatTag::Jmp | StatTag::AllStat => 1,
    }
}

/// Every base value is between 1 and 700, so every tier value is between
/// 1 and 4900.
pub proof fn lemma_base_value_bounds(b: LevelBracket, t: StatTag)
    ensures
        1 <= base_value(b, t) <= 700,
{
}

/// The catalog is deterministic: any two well-formed catalogs for the same
/// bracket hold the same 19 lines with the same tier values.
pub proof fn lemma_catalog_deterministic(c1: OptionCatalog, c2: OptionCatalog)
    requires
        c1.wf(),
        c2.wf(),
        c1.bracket == c2.bracket,
    ensures
        c1.lines@.len() == c2.lines@.len(),
        forall|j: int| 0 <= j < 19 ==>
            (#[trigger] c1.lines@[j]).name == c2.lines@[j].name,
        forall|j: int| 0 <= j < 19 ==>
            (#[trigger] c1.lines@[j]).tiers@ =~= c2.lines@[j].tiers@,
{
}

/// Tier values of every catalog line are strictly increasing.
pub proof fn lemma_catalog_tiers_increasing(c: OptionCatalog, j: int, i1: int, i2: int)
    requires
        c.wf(),
        0 <= j < 19,
        0 <= i1 < i2 < 7,
    ensures
        c.lines@[j].tiers@[i1] < c.lines@[j].tiers@[i2],
{
    let base = base_value(c.bracket, catalog_tag(j));
    lemma_base_value_bounds(c.bracket, catalog_tag(j));
    assert(base * (i1 + 1) < base * (i2 + 1)) by (nonlinear_arith)
        requires 1 <= base && i1 < i2;
}

} // verus!
