use fithub_core::error::AppError;
use fithub_core::exp::{
    apply_daily_ceiling, apply_multipliers, compute_batch_exp, compute_set_exp,
    difficulty_from_label, validate_batch, Difficulty, ExerciseEntry, ExpConfig, SetEntry,
};

fn cfg() -> ExpConfig {
    ExpConfig::default()
}

#[test]
fn default_config_values() {
    let c = cfg();
    assert_eq!(c.daily_limit, 50_000);
    assert_eq!(c.past_days_threshold, 2);
    assert_eq!(c.past_exp_multiplier_pct, 25);
    assert_eq!(c.past_limit_multiplier_pct, 50);
    assert_eq!(c.max_exp_per_set, 2_000);
    assert_eq!(c.exp_coefficient_pct, 100);
}

#[test]
fn past_records_halve_the_ceiling_and_quarter_the_exp() {
    let c = cfg();
    assert_eq!(c.get_daily_limit(false), 50_000);
    assert_eq!(c.get_daily_limit(true), 25_000);
    assert_eq!(c.get_exp_multiplier_pct(false), 100);
    assert_eq!(c.get_exp_multiplier_pct(true), 25);
}

#[test]
fn difficulty_coefficients() {
    assert_eq!(Difficulty::High.coefficient(), 30);
    assert_eq!(Difficulty::Medium.coefficient(), 20);
    assert_eq!(Difficulty::Low.coefficient(), 10);
    assert_eq!(Difficulty::Unrated.coefficient(), 15);
}

#[test]
fn heavy_set_is_clamped_to_the_per_set_cap() {
    // weight 100 kg, 10 reps, high difficulty: raw EXP 30*100*10 = 30000,
    // clamped to 2000.
    let set = SetEntry { weight_tenths: 1000, reps: 10 };
    assert_eq!(compute_set_exp(30, &set, &cfg(), 100), 2000);
}

#[test]
fn empty_set_still_earns_one_exp() {
    let set = SetEntry { weight_tenths: 0, reps: 0 };
    assert_eq!(compute_set_exp(30, &set, &cfg(), 100), 1);
}

#[test]
fn per_set_exp_rounds_half_up() {
    // 10 * 1.0 kg * 1 rep at the past multiplier: 10 * 0.25 = 2.5, which
    // rounds away from zero to 3.
    let set = SetEntry { weight_tenths: 10, reps: 1 };
    assert_eq!(compute_set_exp(10, &set, &cfg(), 25), 3);
}

#[test]
fn out_of_range_weight_rejects_the_batch() {
    let exercises = vec![ExerciseEntry {
        difficulty: Difficulty::High,
        sets: vec![
            SetEntry { weight_tenths: 100, reps: 5 },
            SetEntry { weight_tenths: 5001, reps: 5 },
        ],
    }];
    let r = validate_batch(&exercises);
    assert!(matches!(r, Err(AppError::BadRequest(_))));
}

#[test]
fn out_of_range_reps_reject_the_batch() {
    let exercises = vec![ExerciseEntry {
        difficulty: Difficulty::Low,
        sets: vec![SetEntry { weight_tenths: 100, reps: 21 }],
    }];
    assert!(validate_batch(&exercises).is_err());
    let exercises = vec![ExerciseEntry {
        difficulty: Difficulty::Low,
        sets: vec![SetEntry { weight_tenths: 100, reps: -1 }],
    }];
    assert!(validate_batch(&exercises).is_err());
}

#[test]
fn in_range_batch_is_accepted() {
    let exercises = vec![ExerciseEntry {
        difficulty: Difficulty::Medium,
        sets: vec![SetEntry { weight_tenths: 5000, reps: 20 }],
    }];
    assert!(validate_batch(&exercises).is_ok());
}

#[test]
fn batch_exp_sums_over_sets_and_exercises() {
    // 20 * 50 kg * 10 reps = 10000 -> clamped 2000 each, two sets;
    // 10 * 20 kg * 5 reps = 1000, one set.
    let exercises = vec![
        ExerciseEntry {
            difficulty: Difficulty::Medium,
            sets: vec![
                SetEntry { weight_tenths: 500, reps: 10 },
                SetEntry { weight_tenths: 500, reps: 10 },
            ],
        },
        ExerciseEntry {
            difficulty: Difficulty::Low,
            sets: vec![SetEntry { weight_tenths: 200, reps: 5 }],
        },
    ];
    assert_eq!(compute_batch_exp(&exercises, &cfg(), 100), 2000 + 2000 + 1000);
}

#[test]
fn multipliers_combine_level_and_streaks() {
    // Level 10 gives 110%; no streaks: 100 * 1.10 = 110.
    assert_eq!(apply_multipliers(100, 10, 0, 0), 110);
    // Training streak 2 adds 28%: 100 * 1.10 * 1.28 = 140.8 -> 141.
    assert_eq!(apply_multipliers(100, 10, 2, 0), 141);
    // The level multiplier saturates at level 100.
    assert_eq!(apply_multipliers(100, 100, 0, 0), 200);
    assert_eq!(apply_multipliers(100, 500, 0, 0), 200);
}

#[test]
fn daily_ceiling_limits_the_credit() {
    assert_eq!(apply_daily_ceiling(60_000, 0, 50_000), 50_000);
    assert_eq!(apply_daily_ceiling(1_000, 0, 50_000), 1_000);
    assert_eq!(apply_daily_ceiling(1_000, 49_500, 50_000), 500);
    assert_eq!(apply_daily_ceiling(1_000, 50_000, 50_000), 0);
    assert_eq!(apply_daily_ceiling(1_000, 60_000, 50_000), 0);
}

#[test]
fn split_credits_never_exceed_the_ceiling() {
    // However a day's EXP is split, sequential credits stay under the cap.
    let limit = 50_000;
    let c1 = apply_daily_ceiling(30_000, 0, limit);
    let c2 = apply_daily_ceiling(40_000, c1, limit);
    assert_eq!(c1, 30_000);
    assert_eq!(c2, 20_000);
    assert!(c1 + c2 <= limit as i64);
}

#[test]
fn difficulty_labels_map_to_grades() {
    assert_eq!(difficulty_from_label("上級"), Difficulty::High);
    assert_eq!(difficulty_from_label("hard"), Difficulty::High);
    assert_eq!(difficulty_from_label("中級"), Difficulty::Medium);
    assert_eq!(difficulty_from_label("medium"), Difficulty::Medium);
    assert_eq!(difficulty_from_label("初級"), Difficulty::Low);
    assert_eq!(difficulty_from_label("easy"), Difficulty::Low);
    assert_eq!(difficulty_from_label("custom"), Difficulty::Unrated);
    assert_eq!(difficulty_from_label(""), Difficulty::Unrated);
}
