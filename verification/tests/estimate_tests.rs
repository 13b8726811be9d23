use flamesim::estimate::{average_attempts, chance_within_ppm};

#[test]
fn average_attempts_not_computable_without_success() {
    assert_eq!(average_attempts(0, 0), None);
    assert_eq!(average_attempts(100000, 0), None);
}

#[test]
fn average_attempts_rounds_up() {
    assert_eq!(average_attempts(100, 25), Some(4));
    assert_eq!(average_attempts(100, 7), Some(15));
    assert_eq!(average_attempts(1, 1), Some(1));
    assert_eq!(average_attempts(1000000, 3), Some(333334));
}

#[test]
fn chance_not_computable_for_empty_batch() {
    assert_eq!(chance_within_ppm(0, 0, 10), None);
}

#[test]
fn chance_certain_success() {
    // Every trial qualified: failure chance 0, success certain.
    assert_eq!(chance_within_ppm(5, 5, 1), Some(1000000));
    assert_eq!(chance_within_ppm(5, 5, 3), Some(1000000));
}

#[test]
fn chance_zero_successes() {
    assert_eq!(chance_within_ppm(0, 100, 10), Some(0));
}

#[test]
fn chance_window_of_zero_attempts() {
    assert_eq!(chance_within_ppm(1, 2, 0), Some(0));
}

#[test]
fn chance_half_probability_two_attempts() {
    // p = 0.5: 1 - 0.5^2 = 0.75.
    assert_eq!(chance_within_ppm(1, 2, 2), Some(750000));
}

#[test]
fn chance_matches_fixed_point_iteration() {
    // p = 1/10 in ppm is 100000; q = 900000.
    // After 3 steps: 900000 -> 810000 -> 729000; chance = 271000.
    assert_eq!(chance_within_ppm(1, 10, 3), Some(271000));
}
