//! Consecutive-activity streaks with a grace-day tolerance.
//!
//! A streak counts consecutive active days, where up to `grace_days_allowed`
//! missed days between two active days do not break the chain. Dates are
//! plain day numbers; recording the same day twice is a no-op. Streak
//! lengths feed EXP bonuses, expressed here in whole percent.

use vstd::prelude::*;
use crate::dates::valid_day;

verus! {

/// One streak counter: the running chain, its high-water mark, the last day
/// counted, and how many grace days the latest step consumed.
#[derive(Clone, Copy)]
pub struct StreakRecord {
    pub current_streak: i32,
    pub best_streak: i32,
    pub last_active_day: Option<i64>,
    pub grace_days_used: i32,
}

impl StreakRecord {
    /// A counter with no recorded history.
    pub fn new() -> (r: StreakRecord)
        ensures
            r == (StreakRecord {
                current_streak: 0i32,
                best_streak: 0i32,
                last_active_day: None::<i64>,
                grace_days_used: 0i32,
            }),
    {
        StreakRecord {
            current_streak: 0,
            best_streak: 0,
            last_active_day: None,
            grace_days_used: 0,
        }
    }

    /// Counters never go negative and the high-water mark covers the chain.
    pub open spec fn wf(self) -> bool {
        &&& 0 <= self.current_streak <= self.best_streak
        &&& 0 <= self.grace_days_used
        &&& self.last_active_day matches Some(d) ==> valid_day(d as int)
    }
}

/// The streak state machine's transition on recording activity for a day:
/// first activity starts a chain of 1; the same day again changes nothing;
/// a gap within `grace + 1` days extends the chain, consuming `gap - 1`
/// grace days; a larger gap resets the chain to 1.
pub open spec fn spec_update_streak(s: StreakRecord, activity_day: i64, grace: int) -> StreakRecord {
    match s.last_active_day {
        None => StreakRecord {
            current_streak: 1i32,
            best_streak: if s.best_streak >= 1 {
                s.best_streak
            } else {
                1i32
            },
            last_active_day: Some(activity_day),
            grace_days_used: 0i32,
        },
        Some(last) => {
            if activity_day == last {
                s
            } else {
                let gap = activity_day - last;
                let current = if gap <= grace + 1 {
                    (s.current_streak + 1) as i32
                } else {
                    1i32
                };
                let used = if gap <= grace + 1 {
                    (gap - 1) as i32
                } else {
                    0i32
                };
                StreakRecord {
                    current_streak: current,
                    best_streak: if current > s.best_streak {
                        current
                    } else {
                        s.best_streak
                    },
                    last_active_day: Some(activity_day),
                    grace_days_used: used,
                }
            }
        },
    }
}

/// Record activity on `activity_day` and step the streak state machine:
/// first activity starts a chain of 1; the same day again changes nothing;
/// a gap within `grace_days_allowed + 1` days extends the chain, consuming
/// `gap - 1` grace days; a larger gap resets the chain to 1. The high-water
/// mark and the last active day follow.
pub fn update_streak(s: &StreakRecord, activity_day: i64, grace_days_allowed: i32) -> (r:
    StreakRecord)
    requires
        s.wf(),
        s.current_streak < i32::MAX,
        valid_day(activity_day as int),
        0 <= grace_days_allowed <= 3,
        s.last_active_day matches Some(last) ==> last <= activity_day,
    ensures
        r.wf(),
        r == spec_update_streak(*s, activity_day, grace_days_allowed as int),
        s.last_active_day is None ==> r == (StreakRecord {
            current_streak: 1i32,
            best_streak: if s.best_streak >= 1 { s.best_streak } else { 1i32 },
            last_active_day: Some(activity_day),
            grace_days_used: 0i32,
        }),
        s.last_active_day matches Some(last) ==> (activity_day == last ==> r == *s),
        s.last_active_day matches Some(last) ==> (activity_day > last ==> {
            &&& r.last_active_day == Some(activity_day)
            &&& r.best_streak == if r.current_streak > s.best_streak {
                r.current_streak
            } else {
                s.best_streak
            }
            &&& (activity_day - last == 1 ==> r.current_streak == s.current_streak + 1
                && r.grace_days_used == 0)
            &&& (1 < activity_day - last <= grace_days_allowed + 1 ==> r.current_streak
                == s.current_streak + 1 && r.grace_days_used == activity_day - last - 1)
            &&& (activity_day - last > grace_days_allowed + 1 ==> r.current_streak == 1
                && r.grace_days_used == 0)
        }),
{
    let mut updated: StreakRecord = *s;
    match s.last_active_day {
        None => {
            updated.current_streak = 1;
            if updated.best_streak < 1 {
                updated.best_streak = 1;
            }
            updated.last_active_day = Some(activity_day);
            updated.grace_days_used = 0;
            updated
        },
        Some(last_day) => {
            if activity_day == last_day {
                return updated;
            }
            let days_since_last: i64 = activity_day - last_day;
            if days_since_last == 1 {
                updated.current_streak = updated.current_streak + 1;
                updated.grace_days_used = 0;
            } else if days_since_last <= grace_days_allowed as i64 + 1 {
                updated.current_streak = updated.current_streak + 1;
                updated.grace_days_used = (days_since_last - 1) as i32;
            } else {
                updated.current_streak = 1;
                updated.grace_days_used = 0;
            }
            updated.last_active_day = Some(activity_day);
            if updated.current_streak > updated.best_streak {
                updated.best_streak = updated.current_streak;
            }
            updated
        },
    }
}

/// Days `0..k-1` of a descending date list each reach the next one within
/// the tolerated gap.
pub open spec fn chain_prefix_ok(dates: Seq<i64>, grace: int, k: int) -> bool {
    forall|j: int| 0 <= j < k - 1 ==> #[trigger] dates[j] - dates[j + 1] <= grace + 1
}

/// `k` is the length of the longest unbroken chain at the head of `dates`.
pub open spec fn is_max_chain(dates: Seq<i64>, grace: int, k: int) -> bool {
    &&& 1 <= k <= dates.len()
    &&& chain_prefix_ok(dates, grace, k)
    &&& k < dates.len() ==> dates[k - 1] - dates[k] > grace + 1
}

/// Rebuild a training streak from the full history of distinct activity
/// days, sorted descending. The result is `(current_streak, last_active_day)`:
/// 0 with no history, 0 when the most recent day is already out of tolerance
/// from `today`, and otherwise the longest unbroken chain at the head.
pub fn recalculate_streak(dates: &Vec<i64>, today: i64, grace_days_allowed: i32) -> (r: (
    i32,
    Option<i64>,
))
    requires
        forall|i: int| 0 <= i < dates.len() - 1 ==> #[trigger] dates[i + 1] < dates[i],
        forall|i: int| 0 <= i < dates.len() ==> valid_day(#[trigger] dates[i] as int),
        valid_day(today as int),
        dates.len() < 1_000_000_000,
        0 <= grace_days_allowed <= 3,
    ensures
        dates.len() == 0 ==> r == (0i32, None::<i64>),
        dates.len() > 0 && today - dates[0] > grace_days_allowed + 1 ==> r == (
            0i32,
            Some(dates[0]),
        ),
        dates.len() > 0 && today - dates[0] <= grace_days_allowed + 1 ==> {
            &&& r.1 == Some(dates[0])
            &&& is_max_chain(dates@, grace_days_allowed as int, r.0 as int)
        },
{
    if dates.len() == 0 {
        return (0, None);
    }
    let most_recent: i64 = dates[0];
    if today - most_recent > grace_days_allowed as i64 + 1 {
        return (0, Some(most_recent));
    }
    let n: usize = dates.len();
    let mut k: usize = 1;
    while k < n && dates[k - 1] - dates[k] <= grace_days_allowed as i64 + 1
        invariant
            1 <= k <= n,
            n == dates.len() < 1_000_000_000,
            forall|i: int| 0 <= i < dates.len() ==> valid_day(#[trigger] dates[i] as int),
            0 <= grace_days_allowed <= 3,
            chain_prefix_ok(dates@, grace_days_allowed as int, k as int),
        decreases n - k,
    {
        k = k + 1;
    }
    (k as i32, Some(most_recent))
}

/// EXP bonus from a training streak, in percent: 14 per day, capped at 100.
pub open spec fn spec_training_bonus_pct(streak: int) -> int {
    if 14 * streak < 100 {
        14 * streak
    } else {
        100
    }
}

/// EXP bonus from a login streak, in percent: 7 per day, capped at 50.
pub open spec fn spec_login_bonus_pct(streak: int) -> int {
    if 7 * streak < 50 {
        7 * streak
    } else {
        50
    }
}

/// Training-streak bonus percentage (+14% per day, at most +100%).
pub fn training_bonus_pct(streak: i32) -> (r: i32)
    requires
        0 <= streak,
    ensures
        r == spec_training_bonus_pct(streak as int),
        0 <= r <= 100,
{
    if streak >= 8 {
        100
    } else {
        let b: i32 = 14 * streak;
        if b < 100 {
            b
        } else {
            100
        }
    }
}

/// Login-streak bonus percentage (+7% per day, at most +50%).
pub fn login_bonus_pct(streak: i32) -> (r: i32)
    requires
        0 <= streak,
    ensures
        r == spec_login_bonus_pct(streak as int),
        0 <= r <= 50,
{
    if streak >= 8 {
        50
    } else {
        let b: i32 = 7 * streak;
        if b < 50 {
            b
        } else {
            50
        }
    }
}

/// The combined EXP multiplier in percent: 100 plus both streak bonuses,
/// so between 100 and 250.
pub fn combined_multiplier_pct(training_streak: i32, login_streak: i32) -> (r: i32)
    requires
        0 <= training_streak,
        0 <= login_streak,
    ensures
        r == 100 + spec_training_bonus_pct(training_streak as int) + spec_login_bonus_pct(
            login_streak as int,
        ),
        100 <= r <= 250,
{
    100 + training_bonus_pct(training_streak) + login_bonus_pct(login_streak)
}

/// EXP granted by one daily login bonus at the given login streak: a base of
/// 100, plus 10 per streak day capped at 100, plus 50 for each full week.
pub open spec fn spec_login_bonus_exp(streak: int) -> int {
    100 + (if 10 * streak < 100 {
        10 * streak
    } else {
        100
    }) + 50 * (streak / 7)
}

/// Login-bonus EXP for the given streak length.
pub fn calculate_login_bonus_exp(streak: i32) -> (r: i32)
    requires
        0 <= streak <= 100_000_000,
    ensures
        r == spec_login_bonus_exp(streak as int),
{
    let base: i32 = 100;
    let capped: i32 = if streak >= 10 {
        100
    } else {
        10 * streak
    };
    proof {
        assert(0 <= streak as int / 7 <= 14_285_714) by (nonlinear_arith)
            requires
                0 <= streak as int <= 100_000_000,
        ;
    }
    let weekly_bonus: i32 = (streak / 7) * 50;
    base + capped + weekly_bonus
}

/// The grace-day allowance a user starts with before ever touching the
/// setting.
pub const DEFAULT_GRACE_DAYS_ALLOWED: i32 = 1;

/// Validate a requested grace-day allowance: only values in `[0, 3]` are
/// accepted, and anything outside is rejected before any state changes.
pub fn validate_grace_days(requested: i32) -> (r: Result<i32, crate::error::AppError>)
    ensures
        r is Ok <==> 0 <= requested <= 3,
        r matches Ok(v) ==> v == requested,
        r matches Err(e) ==> (e matches crate::error::AppError::BadRequest(m) && m@
            == "中休み許容日数は0〜3の範囲で指定してください"@),
{
    if requested < 0 || requested > 3 {
        return Err(
            crate::error::AppError::BadRequest(
                "中休み許容日数は0〜3の範囲で指定してください".to_owned(),
            ),
        );
    }
    Ok(requested)
}

/// One streak as reported to clients.
pub struct StreakInfo {
    pub current: i32,
    pub best: i32,
    pub last_active_date: Option<String>,
    pub grace_days_used: i32,
    pub grace_days_allowed: i32,
}

/// Render a streak counter for clients, with the last active day as its
/// `YYYY-MM-DD` date; any last active day within the renderable range
/// comes out rendered.
pub fn build_streak_info(s: &StreakRecord, grace_days_allowed: i32) -> (r: StreakInfo)
    requires
        s.wf(),
    ensures
        r.current == s.current_streak,
        r.best == s.best_streak,
        r.grace_days_used == s.grace_days_used,
        r.grace_days_allowed == grace_days_allowed,
        s.last_active_day is None ==> r.last_active_date is None,
        s.last_active_day matches Some(d) ==> (crate::dates::renderable_day(d as int)
            ==> r.last_active_date is Some),
        r.last_active_date matches Some(text) ==> (s.last_active_day matches Some(d) && text@
            == crate::dates::spec_format_ymd(d as int)),
{
    let last_active_date: Option<String> = match s.last_active_day {
        None => None,
        Some(d) => crate::dates::format_day_number(d),
    };
    StreakInfo {
        current: s.current_streak,
        best: s.best_streak,
        last_active_date,
        grace_days_used: s.grace_days_used,
        grace_days_allowed,
    }
}

/// Outcome of a login-bonus claim as reported to clients.
pub struct LoginBonusResponse {
    pub success: bool,
    pub already_claimed: bool,
    pub exp_earned: i32,
    pub current_login_streak: i32,
    pub total_exp: i64,
}

/// The per-user settings as reported to clients.
pub struct SettingsResponse {
    pub grace_days_allowed: i32,
}

/// A request to change the per-user settings.
pub struct UpdateSettingsRequest {
    pub grace_days_allowed: i32,
}

} // verus!
