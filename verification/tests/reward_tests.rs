use chrono::Datelike;
use fithub_core::daily_reward::{build_reward_days, claim_reward_exp, next_reward_day,
    reward_for_day, ClaimedReward};

fn day(y: i32, m: u32, d: u32) -> i64 {
    chrono::NaiveDate::from_ymd_opt(y, m, d).unwrap().num_days_from_ce() as i64
}

#[test]
fn rewards_follow_the_cycle_table() {
    assert_eq!(reward_for_day(1), 200);
    assert_eq!(reward_for_day(6), 200);
    assert_eq!(reward_for_day(7), 500);
    assert_eq!(reward_for_day(8), 200);
    assert_eq!(reward_for_day(14), 1000);
}

#[test]
fn the_cycle_wraps_after_day_fourteen() {
    assert_eq!(next_reward_day(None), 1);
    assert_eq!(next_reward_day(Some(1)), 2);
    assert_eq!(next_reward_day(Some(13)), 14);
    assert_eq!(next_reward_day(Some(14)), 1);
    assert_eq!(next_reward_day(Some(20)), 1);
}

#[test]
fn claims_are_boosted_by_streaks() {
    assert_eq!(claim_reward_exp(7, 0, 0), 500);
    // Training streak 1 adds 14%: 500 * 1.14 = 570.
    assert_eq!(claim_reward_exp(7, 1, 0), 570);
    // Both caps: 200 * 2.5 = 500.
    assert_eq!(claim_reward_exp(1, 100, 100), 500);
    // Rounding half up: 200 * 1.07 = 214.
    assert_eq!(claim_reward_exp(1, 0, 1), 214);
}

#[test]
fn the_calendar_marks_claims_and_big_rewards() {
    let claimed = vec![
        ClaimedReward { reward_day: 1, claimed_on_day: day(2024, 1, 10) },
        ClaimedReward { reward_day: 2, claimed_on_day: day(2024, 1, 11) },
    ];
    let days = build_reward_days(&claimed);
    assert_eq!(days.len(), 14);
    for (k, cell) in days.iter().enumerate() {
        let n = k as i32 + 1;
        assert_eq!(cell.day, n);
        assert_eq!(cell.exp, reward_for_day(n));
        assert_eq!(cell.is_big_reward, n == 7 || n == 14);
        assert_eq!(cell.claimed, n <= 2);
    }
    assert_eq!(days[0].claimed_date.as_deref(), Some("2024-01-10"));
    assert_eq!(days[1].claimed_date.as_deref(), Some("2024-01-11"));
    assert_eq!(days[2].claimed_date, None);
}
