use flamesim::catalog::OptionCatalog;
use flamesim::tags::{LevelBracket, StatTag};

const ALL_BRACKETS: [LevelBracket; 12] = [
    LevelBracket::Lv100,
    LevelBracket::Lv110,
    LevelBracket::Lv120,
    LevelBracket::Lv130,
    LevelBracket::Lv140,
    LevelBracket::Lv150,
    LevelBracket::Lv160,
    LevelBracket::Lv170,
    LevelBracket::Lv180,
    LevelBracket::Lv190,
    LevelBracket::Lv200,
    LevelBracket::Lv250,
];

#[test]
fn catalog_has_19_lines_in_canonical_order() {
    let expected = [
        StatTag::Str,
        StatTag::Dex,
        StatTag::Int,
        StatTag::Luk,
        StatTag::StrDex,
        StatTag::StrInt,
        StatTag::StrLuk,
        StatTag::DexInt,
        StatTag::DexLuk,
        StatTag::LukInt,
        StatTag::Hp,
        StatTag::Mp,
        StatTag::Def,
        StatTag::LvlRed,
        StatTag::Att,
        StatTag::Matt,
        StatTag::Spd,
        StatTag::Jmp,
        StatTag::AllStat,
    ];
    for b in ALL_BRACKETS {
        let cat = OptionCatalog::build(b);
        assert_eq!(cat.lines.len(), 19);
        for (j, line) in cat.lines.iter().enumerate() {
            assert!(line.name == expected[j]);
            assert_eq!(line.tiers.len(), 7);
        }
    }
}

#[test]
fn catalog_140_149_tier_values() {
    let cat = OptionCatalog::build(LevelBracket::Lv140);
    // Single stats scale by 8.
    assert_eq!(cat.lines[0].tiers, vec![8, 16, 24, 32, 40, 48, 56]);
    // Combos scale by 4.
    assert_eq!(cat.lines[4].tiers, vec![4, 8, 12, 16, 20, 24, 28]);
    // HP/MP scale by 420.
    assert_eq!(cat.lines[10].tiers, vec![420, 840, 1260, 1680, 2100, 2520, 2940]);
    assert_eq!(cat.lines[11].tiers, vec![420, 840, 1260, 1680, 2100, 2520, 2940]);
    // Basic effects scale by 1.
    assert_eq!(cat.lines[18].tiers, vec![1, 2, 3, 4, 5, 6, 7]);
}

#[test]
fn catalog_250_tier_values() {
    let cat = OptionCatalog::build(LevelBracket::Lv250);
    assert_eq!(cat.lines[0].tiers, vec![12, 24, 36, 48, 60, 72, 84]);
    assert_eq!(cat.lines[4].tiers, vec![7, 14, 21, 28, 35, 42, 49]);
    assert_eq!(cat.lines[10].tiers, vec![700, 1400, 2100, 2800, 3500, 4200, 4900]);
}

#[test]
fn catalog_tiers_strictly_increasing() {
    for b in ALL_BRACKETS {
        let cat = OptionCatalog::build(b);
        for line in cat.lines.iter() {
            for i in 1..line.tiers.len() {
                assert!(line.tiers[i - 1] < line.tiers[i]);
            }
        }
    }
}

#[test]
fn catalog_is_deterministic() {
    for b in ALL_BRACKETS {
        let c1 = OptionCatalog::build(b);
        let c2 = OptionCatalog::build(b);
        assert_eq!(c1.lines.len(), c2.lines.len());
        for j in 0..c1.lines.len() {
            assert!(c1.lines[j].name == c2.lines[j].name);
            assert_eq!(c1.lines[j].tiers, c2.lines[j].tiers);
        }
    }
}
