use fithub_core::levels::UserStats;

#[test]
fn required_exp_matches_closed_form() {
    assert_eq!(UserStats::get_required_exp_for_level(1), 0);
    assert_eq!(UserStats::get_required_exp_for_level(0), 0);
    assert_eq!(UserStats::get_required_exp_for_level(-3), 0);
    assert_eq!(UserStats::get_required_exp_for_level(2), 220);
    assert_eq!(UserStats::get_required_exp_for_level(5), 1360);
    assert_eq!(UserStats::get_required_exp_for_level(10), 4860);
    assert_eq!(UserStats::get_required_exp_for_level(50), 104_860);
    assert_eq!(UserStats::get_required_exp_for_level(100), 409_860);
}

#[test]
fn required_exp_strictly_increasing() {
    let mut prev = UserStats::get_required_exp_for_level(1);
    for level in 2..=1000 {
        let cur = UserStats::get_required_exp_for_level(level);
        assert!(cur > prev, "threshold not increasing at level {}", level);
        prev = cur;
    }
}

#[test]
fn level_round_trips_at_exact_thresholds() {
    for level in 1..=1000 {
        let exp = UserStats::get_required_exp_for_level(level);
        assert_eq!(UserStats::calculate_level(exp), level);
    }
}

#[test]
fn level_boundary_is_exclusive_below() {
    for level in 2..=1000 {
        let exp = UserStats::get_required_exp_for_level(level);
        assert_eq!(UserStats::calculate_level(exp - 1), level - 1);
    }
}

#[test]
fn level_from_exp_edge_cases() {
    assert_eq!(UserStats::calculate_level(0), 1);
    assert_eq!(UserStats::calculate_level(-100), 1);
    assert_eq!(UserStats::calculate_level(219), 1);
    assert_eq!(UserStats::calculate_level(220), 2);
    assert_eq!(UserStats::calculate_level(i64::MAX), 1000);
}

#[test]
fn exp_to_next_level_is_the_threshold_gap() {
    assert_eq!(UserStats::get_exp_to_next_level(1), 220);
    assert_eq!(UserStats::get_exp_to_next_level(0), 0);
    for level in 1..100 {
        assert_eq!(UserStats::get_exp_to_next_level(level), 80 * level + 140);
    }
}

#[test]
fn level_progress_parts_measure_within_level() {
    let (earned, needed) = UserStats::level_progress_parts(300, 2);
    assert_eq!(earned, 80);
    assert_eq!(needed, 300);
    let (earned, needed) = UserStats::level_progress_parts(0, 1);
    assert_eq!(earned, 0);
    assert_eq!(needed, 220);
}
