use flamesim::tags::FlameType;
use flamesim::weights::{active_tier_weights, line_count_weights, tier_weights};

const ALL_FLAMES: [FlameType; 10] = [
    FlameType::Abyss,
    FlameType::Totem,
    FlameType::Drop,
    FlameType::Pflame,
    FlameType::Eflame,
    FlameType::Regcraft,
    FlameType::Mastercraft,
    FlameType::Meistercraft,
    FlameType::Masterfuse,
    FlameType::Meisterfuse,
];

#[test]
fn tier_weights_sum_to_one() {
    for ft in ALL_FLAMES {
        let w = tier_weights(ft);
        assert_eq!(w.len(), 9);
        let total: u32 = w.iter().sum();
        assert_eq!(total, 1000);
    }
}

#[test]
fn tier_weights_edges_are_zero() {
    for ft in ALL_FLAMES {
        let w = tier_weights(ft);
        assert_eq!(w[0], 0);
        assert_eq!(w[1], 0);
        assert_eq!(w[7], 0);
        assert_eq!(w[8], 0);
    }
}

#[test]
fn pflame_weight_values() {
    let w = tier_weights(FlameType::Pflame);
    assert_eq!(w, vec![0, 0, 200, 300, 360, 140, 0, 0, 0]);
}

#[test]
fn abyss_weight_values() {
    let w = tier_weights(FlameType::Abyss);
    assert_eq!(w, vec![0, 0, 0, 0, 630, 340, 30, 0, 0]);
}

#[test]
fn line_count_distribution_values() {
    let w = line_count_weights();
    assert_eq!(w, vec![390, 390, 180, 40]);
    let total: u32 = w.iter().sum();
    assert_eq!(total, 1000);
}

#[test]
fn active_weights_boss_takes_first_seven() {
    let w = active_tier_weights(FlameType::Pflame, false);
    assert_eq!(w, vec![0, 0, 200, 300, 360, 140, 0]);
}

#[test]
fn active_weights_noboss_drops_first_two() {
    let w = active_tier_weights(FlameType::Pflame, true);
    assert_eq!(w, vec![200, 300, 360, 140, 0, 0, 0]);
    let total: u32 = w.iter().sum();
    assert_eq!(total, 1000);
}
