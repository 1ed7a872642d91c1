//! The fourteen-day daily-reward cycle: a fixed EXP reward per day, larger
//! on days 7 and 14, claimable once per calendar day, boosted by the
//! claimer's streaks, and wrapping back to day 1 after day 14.

use vstd::prelude::*;
use crate::dates::spec_format_ymd;
use crate::exp::spec_round_div;
use crate::streak::{spec_training_bonus_pct, spec_login_bonus_pct, combined_multiplier_pct};

verus! {

/// One cell of the fourteen-day reward calendar, as reported to clients.
pub struct DailyRewardDay {
    pub day: i32,
    pub claimed: bool,
    pub claimed_date: Option<String>,
    pub exp: i32,
    pub is_big_reward: bool,
}

/// The whole reward calendar, as reported to clients.
pub struct DailyRewardsResponse {
    pub current_day: i32,
    pub today_claimed: bool,
    pub days: Vec<DailyRewardDay>,
}

/// Outcome of a reward claim, as reported to clients.
pub struct ClaimRewardResponse {
    pub success: bool,
    pub already_claimed: bool,
    pub reward_day: i32,
    pub exp_earned: i32,
    pub total_exp: i64,
}

/// A reward already claimed in the current cycle: which cycle day it was,
/// and on which calendar day it was claimed.
pub struct ClaimedReward {
    pub reward_day: i32,
    pub claimed_on_day: i64,
}

/// Base EXP of each cycle day: 200, except 500 on day 7 and 1000 on day 14.
pub open spec fn spec_reward_for_day(day: int) -> int {
    if day == 7 {
        500
    } else if day == 14 {
        1000
    } else {
        200
    }
}

/// Base EXP reward of a cycle day.
pub fn reward_for_day(day: i32) -> (r: i32)
    requires
        1 <= day <= 14,
    ensures
        r == spec_reward_for_day(day as int),
{
    if day == 7 {
        500
    } else if day == 14 {
        1000
    } else {
        200
    }
}

/// The cycle day a user's next claim falls on: after day 14 the cycle
/// restarts at day 1; with no claim on record it starts at day 1.
pub open spec fn spec_next_reward_day(last_claimed_day: Option<i32>) -> int {
    match last_claimed_day {
        None => 1,
        Some(d) => if d >= 14 {
            1
        } else {
            d + 1
        },
    }
}

/// The cycle day the next claim falls on.
pub fn next_reward_day(last_claimed_day: Option<i32>) -> (r: i32)
    requires
        last_claimed_day matches Some(d) ==> d < i32::MAX,
    ensures
        r == spec_next_reward_day(last_claimed_day),
{
    match last_claimed_day {
        None => 1,
        Some(d) => if d >= 14 {
            1
        } else {
            d + 1
        },
    }
}

/// EXP a claim on `day` earns once the claimer's streak multiplier is
/// applied: the base reward times the combined multiplier, rounded half up.
pub open spec fn spec_claim_reward_exp(day: int, training_streak: int, login_streak: int) -> int {
    spec_round_div(
        spec_reward_for_day(day) * (100 + spec_training_bonus_pct(training_streak)
            + spec_login_bonus_pct(login_streak)),
        100,
    )
}

/// Streak-boosted EXP for claiming the reward of a cycle day.
pub fn claim_reward_exp(day: i32, training_streak: i32, login_streak: i32) -> (r: i32)
    requires
        1 <= day <= 14,
        0 <= training_streak,
        0 <= login_streak,
    ensures
        r == spec_claim_reward_exp(day as int, training_streak as int, login_streak as int),
        0 <= r <= 2500,
{
    let base: i32 = reward_for_day(day);
    let pct: i32 = combined_multiplier_pct(training_streak, login_streak);
    (base * pct + 50) / 100
}

/// Build the fourteen-day calendar from the claims of the current cycle.
/// Cell `k` describes cycle day `k + 1`: its base EXP, whether it is one of
/// the two big rewards, whether it has been claimed this cycle, and if so
/// on which date.
pub fn build_reward_days(claimed: &Vec<ClaimedReward>) -> (days: Vec<DailyRewardDay>)
    requires
        forall|i: int, j: int|
            0 <= i < j < claimed@.len() ==> (#[trigger] claimed@[i]).reward_day != (
            #[trigger] claimed@[j]).reward_day,
        forall|i: int|
            0 <= i < claimed@.len() ==> crate::dates::valid_day(
                (#[trigger] claimed@[i]).claimed_on_day as int,
            ),
    ensures
        days@.len() == 14,
        forall|k: int|
            0 <= k < 14 ==> {
                let cell = #[trigger] days@[k];
                &&& cell.day == k + 1
                &&& cell.exp == spec_reward_for_day(k + 1)
                &&& cell.is_big_reward == (k + 1 == 7 || k + 1 == 14)
                &&& cell.claimed == exists|j: int|
                    0 <= j < claimed@.len() && (#[trigger] claimed@[j]).reward_day == k + 1
                &&& !cell.claimed ==> cell.claimed_date is None
            },
        forall|k: int, j: int|
            0 <= k < 14 && 0 <= j < claimed@.len() && (#[trigger] claimed@[j]).reward_day == k + 1
                ==> ((#[trigger] days@[k]).claimed_date matches Some(text) ==> text@
                == spec_format_ymd(claimed@[j].claimed_on_day as int)),
        forall|k: int, j: int|
            0 <= k < 14 && 0 <= j < claimed@.len() && (#[trigger] claimed@[j]).reward_day == k + 1
                && crate::dates::renderable_day(claimed@[j].claimed_on_day as int) ==> (
            #[trigger] days@[k]).claimed_date is Some,
{
    let mut days: Vec<DailyRewardDay> = Vec::new();
    let mut day: i32 = 1;
    while day <= 14
        invariant
            1 <= day <= 15,
            days@.len() == day - 1,
            forall|i: int, j: int|
                0 <= i < j < claimed@.len() ==> (#[trigger] claimed@[i]).reward_day != (
                #[trigger] claimed@[j]).reward_day,
            forall|i: int|
                0 <= i < claimed@.len() ==> crate::dates::valid_day(
                    (#[trigger] claimed@[i]).claimed_on_day as int,
                ),
            forall|k: int|
                0 <= k < day - 1 ==> {
                    let cell = #[trigger] days@[k];
                    &&& cell.day == k + 1
                    &&& cell.exp == spec_reward_for_day(k + 1)
                    &&& cell.is_big_reward == (k + 1 == 7 || k + 1 == 14)
                    &&& cell.claimed == exists|j: int|
                        0 <= j < claimed@.len() && (#[trigger] claimed@[j]).reward_day == k + 1
                    &&& !cell.claimed ==> cell.claimed_date is None
                },
            forall|k: int, j: int|
                0 <= k < day - 1 && 0 <= j < claimed@.len() && (#[trigger] claimed@[j]).reward_day
                    == k + 1 ==> ((#[trigger] days@[k]).claimed_date matches Some(text) ==> text@
                    == spec_format_ymd(claimed@[j].claimed_on_day as int)),
            forall|k: int, j: int|
                0 <= k < day - 1 && 0 <= j < claimed@.len() && (#[trigger] claimed@[j]).reward_day
                    == k + 1 && crate::dates::renderable_day(claimed@[j].claimed_on_day as int)
                    ==> (#[trigger] days@[k]).claimed_date is Some,
        decreases 15 - day,
    {
        let mut found: Option<i64> = None;
        let mut idx: usize = 0;
        let n: usize = claimed.len();
        while idx < n
            invariant
                0 <= idx <= n,
                n == claimed@.len(),
                forall|i: int, j: int|
                    0 <= i < j < claimed@.len() ==> (#[trigger] claimed@[i]).reward_day != (
                    #[trigger] claimed@[j]).reward_day,
                forall|i: int|
                    0 <= i < claimed@.len() ==> crate::dates::valid_day(
                        (#[trigger] claimed@[i]).claimed_on_day as int,
                    ),
                found is None ==> forall|j: int|
                    0 <= j < idx ==> (#[trigger] claimed@[j]).reward_day != day,
                found matches Some(d) ==> exists|j: int|
                    0 <= j < claimed@.len() && (#[trigger] claimed@[j]).reward_day == day && (
                    claimed@[j]).claimed_on_day == d && crate::dates::valid_day(d as int),
                found matches Some(d) ==> forall|j: int|
                    0 <= j < claimed@.len() && (#[trigger] claimed@[j]).reward_day == day ==> (
                    claimed@[j]).claimed_on_day == d,
            decreases n - idx,
        {
            if claimed[idx].reward_day == day {
                found = Some(claimed[idx].claimed_on_day);
            }
            idx = idx + 1;
        }
        let claimed_date: Option<String> = match found {
            None => None,
            Some(d) => crate::dates::format_day_number(d),
        };
        let cell = DailyRewardDay {
            day,
            claimed: found.is_some(),
            claimed_date,
            exp: reward_for_day(day),
            is_big_reward: day == 7 || day == 14,
        };
        days.push(cell);
        day = day + 1;
    }
    days
}

} // verus!
