use chrono::Datelike;
use fithub_core::error::AppError;
use fithub_core::exp::{Difficulty, ExerciseEntry, ExpConfig, SetEntry};
use fithub_core::levels::UserStats;
use fithub_core::streak::StreakRecord;
use fithub_core::workflow::{
    apply_record_deletion, claim_daily_reward_update, claim_login_bonus_update,
    forward_exp_to_active_pet, save_workout_record,
};

fn day(y: i32, m: u32, d: u32) -> i64 {
    chrono::NaiveDate::from_ymd_opt(y, m, d).unwrap().num_days_from_ce() as i64
}

fn one_heavy_exercise() -> Vec<ExerciseEntry> {
    vec![ExerciseEntry {
        difficulty: Difficulty::High,
        sets: vec![SetEntry { weight_tenths: 1000, reps: 10 }],
    }]
}

#[test]
fn a_fresh_account_earns_capped_boosted_exp() {
    let cfg = ExpConfig::default();
    let today = day(2024, 3, 5);
    let r = save_workout_record(&cfg, "2024-03-05", today, &one_heavy_exercise(), &None, 0, 0, 0)
        .unwrap();
    // One set capped at 2000, boosted by the level-1 multiplier:
    // 2000 * 1.01 = 2020; far below the 50000 ceiling.
    assert_eq!(r.record_day, today);
    assert!(!r.is_past_record);
    assert_eq!(r.credited_exp, 2020);
    assert_eq!(r.new_total_exp, 2020);
    assert_eq!(r.old_level, 1);
    assert_eq!(r.new_level, UserStats::calculate_level(2020));
    assert_eq!(r.new_level, 6);
    assert!(r.leveled_up);
    assert_eq!(r.progress_earned, 2020 - UserStats::get_required_exp_for_level(6));
    assert_eq!(r.progress_needed, 80 * 6 + 140);
}

#[test]
fn malformed_dates_are_rejected() {
    let cfg = ExpConfig::default();
    let r = save_workout_record(
        &cfg,
        "not-a-date",
        day(2024, 3, 5),
        &one_heavy_exercise(),
        &None,
        0,
        0,
        0,
    );
    match r {
        Err(AppError::BadRequest(m)) => assert_eq!(m, "Invalid date format"),
        _ => panic!("expected a bad-request error"),
    }
    // A well-shaped but impossible calendar date is rejected the same way.
    assert!(save_workout_record(
        &cfg,
        "2024-13-41",
        day(2024, 3, 5),
        &one_heavy_exercise(),
        &None,
        0,
        0,
        0
    )
    .is_err());
}

#[test]
fn future_dates_are_rejected() {
    let cfg = ExpConfig::default();
    let r = save_workout_record(
        &cfg,
        "2024-03-06",
        day(2024, 3, 5),
        &one_heavy_exercise(),
        &None,
        0,
        0,
        0,
    );
    assert!(matches!(r, Err(AppError::BadRequest(_))));
}

#[test]
fn invalid_sets_reject_the_whole_batch() {
    let cfg = ExpConfig::default();
    let exercises = vec![ExerciseEntry {
        difficulty: Difficulty::High,
        sets: vec![SetEntry { weight_tenths: 6000, reps: 10 }],
    }];
    let r = save_workout_record(&cfg, "2024-03-05", day(2024, 3, 5), &exercises, &None, 0, 0, 0);
    assert!(matches!(r, Err(AppError::BadRequest(_))));
}

#[test]
fn past_records_earn_reduced_exp_against_a_reduced_ceiling() {
    let cfg = ExpConfig::default();
    // Three days back: past treatment, EXP at 25%, ceiling at 25000.
    let today = day(2024, 3, 8);
    let r = save_workout_record(&cfg, "2024-03-05", today, &one_heavy_exercise(), &None, 0, 0, 0)
        .unwrap();
    assert!(r.is_past_record);
    // Per set: 30000 * 0.25 = 7500, clamped to 2000; boosted: 2020.
    assert_eq!(r.credited_exp, 2020);
    // Yesterday is still recent.
    let r = save_workout_record(
        &cfg,
        "2024-03-07",
        today,
        &one_heavy_exercise(),
        &None,
        0,
        0,
        0,
    )
    .unwrap();
    assert!(!r.is_past_record);
}

#[test]
fn sequential_saves_share_the_daily_ceiling() {
    let cfg = ExpConfig::default();
    let today = day(2024, 3, 5);
    // 25 capped sets: batch 50000, boosted 50500 -> credited 50000.
    let sets: Vec<SetEntry> = (0..25).map(|_| SetEntry { weight_tenths: 1000, reps: 10 }).collect();
    let big = vec![ExerciseEntry { difficulty: Difficulty::High, sets }];
    let first =
        save_workout_record(&cfg, "2024-03-05", today, &big, &None, 0, 0, 0).unwrap();
    assert_eq!(first.credited_exp, 50_000);
    // A second save on the same date finds no headroom left.
    let account = Some(UserStats {
        id: 1,
        user_id: 1,
        total_exp: first.new_total_exp,
        level: first.new_level,
    });
    let second = save_workout_record(
        &cfg,
        "2024-03-05",
        today,
        &one_heavy_exercise(),
        &account,
        first.credited_exp,
        0,
        0,
    )
    .unwrap();
    assert_eq!(second.credited_exp, 0);
    assert_eq!(second.new_total_exp, first.new_total_exp);
}

#[test]
fn the_pet_receives_the_identical_delta() {
    assert!(forward_exp_to_active_pet(None, 100).is_none());
    assert!(forward_exp_to_active_pet(Some(10), 0).is_none());
    assert!(forward_exp_to_active_pet(Some(10), -5).is_none());
    let o = forward_exp_to_active_pet(Some(10), 300).unwrap();
    assert_eq!(o.new_total_exp, 310);
    assert_eq!(o.new_level, UserStats::calculate_level(310));
}

#[test]
fn deleting_a_record_takes_back_exactly_its_exp() {
    let account = Some(UserStats { id: 1, user_id: 1, total_exp: 5000, level: 10 });
    let r = apply_record_deletion(&account, Some(4000), 1500);
    let na = r.new_account.unwrap();
    assert_eq!(na.total_exp, 3500);
    assert_eq!(na.level, UserStats::calculate_level(3500));
    let po = r.pet_outcome.unwrap();
    assert_eq!(po.new_total_exp, 2500);
}

#[test]
fn deletion_clamps_at_zero_when_the_record_outweighs_the_total() {
    let account = Some(UserStats { id: 1, user_id: 1, total_exp: 1000, level: 3 });
    let r = apply_record_deletion(&account, Some(500), 2000);
    assert_eq!(r.new_account.unwrap().total_exp, 0);
    assert_eq!(r.pet_outcome.unwrap().new_total_exp, 0);
    let r = apply_record_deletion(&None, None, 2000);
    assert!(r.new_account.is_none());
    assert!(r.pet_outcome.is_none());
}

#[test]
fn login_bonus_claims_update_streak_and_total() {
    let today = day(2024, 3, 5);
    let r = claim_login_bonus_update(&StreakRecord::new(), today, 1, 0);
    assert_eq!(r.new_streak.current_streak, 1);
    assert_eq!(r.exp_earned, 110);
    assert_eq!(r.new_total_exp, 110);
    assert_eq!(r.new_level, 1);
    // A seven-day streak earns the weekly bonus on top.
    let streak = StreakRecord {
        current_streak: 6,
        best_streak: 6,
        last_active_day: Some(today - 1),
        grace_days_used: 0,
    };
    let r = claim_login_bonus_update(&streak, today, 1, 1000);
    assert_eq!(r.new_streak.current_streak, 7);
    assert_eq!(r.exp_earned, 220);
    assert_eq!(r.new_total_exp, 1220);
}

#[test]
fn daily_reward_claims_apply_the_streak_multiplier() {
    let r = claim_daily_reward_update(7, 0, 0, 0);
    assert_eq!(r.reward_day, 7);
    assert_eq!(r.exp_earned, 500);
    assert_eq!(r.new_total_exp, 500);
    assert_eq!(r.new_level, UserStats::calculate_level(500));
    let r = claim_daily_reward_update(1, 1, 0, 10_000);
    assert_eq!(r.exp_earned, 228);
    assert_eq!(r.new_total_exp, 10_228);
}
