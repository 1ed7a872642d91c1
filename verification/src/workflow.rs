//! The engine's request-level operations, composed from the level curve,
//! the accrual calculator, the streak tracker and the pet model. Each takes
//! the state its caller read from the store as plain values and returns
//! what should be written back; the caller serialises per user, performs
//! the reads and writes, and treats the pet and unlock steps as best-effort
//! secondary effects.

use vstd::prelude::*;
use crate::dates::{parse_ymd, spec_parse_ymd};
use crate::error::AppError;
use crate::exp::{
    ExpConfig, ExerciseEntry, spec_batch_valid, spec_batch_sizes_ok, spec_batch_exp,
    spec_boosted_exp, spec_credited_exp, validate_batch, compute_batch_exp, apply_multipliers,
    apply_daily_ceiling, is_past_record,
};
use crate::levels::{
    UserStats, spec_level_from_exp, spec_required_exp, lemma_level_bounds,
    lemma_required_exp_monotonic,
};
use crate::pet::{PetExpOutcome, apply_exp_to_pet, deduct_exp_from_pet, spec_matured,
    spec_stage_of_level};
use crate::streak::{
    StreakRecord, spec_update_streak, spec_login_bonus_exp, update_streak,
    calculate_login_bonus_exp,
};
use crate::dates::valid_day;

verus! {

/// The account total a credit starts from: the stored total, or zero when
/// the user has no progression row yet.
pub open spec fn spec_account_total(account: Option<UserStats>) -> int {
    match account {
        Some(a) => a.total_exp as int,
        None => 0,
    }
}

/// The level a credit starts from: the stored level, or 1 when the user
/// has no progression row yet.
pub open spec fn spec_account_level(account: Option<UserStats>) -> int {
    match account {
        Some(a) => a.level as int,
        None => 1,
    }
}

/// A stored account is trusted this far: a non-negative total within the
/// engine's working range and a cached level within the curve's range.
pub open spec fn spec_account_ok(account: Option<UserStats>) -> bool {
    match account {
        Some(a) => 0 <= a.total_exp <= 1_000_000_000_000_000_000 && 1 <= a.level <= 1000,
        None => true,
    }
}

/// What saving a workout batch decided.
pub struct WorkoutSaveOutcome {
    /// The attributed date, as a day number.
    pub record_day: i64,
    /// Whether the date earned past-record treatment.
    pub is_past_record: bool,
    /// EXP actually credited, after multipliers and the daily ceiling.
    pub credited_exp: i64,
    /// The account total after the credit.
    pub new_total_exp: i64,
    /// The cached level before the credit.
    pub old_level: i32,
    /// The level derived from the new total.
    pub new_level: i32,
    /// Whether the credit raised the level.
    pub leveled_up: bool,
    /// EXP earned within the new level.
    pub progress_earned: i64,
    /// EXP between the new level's threshold and the next.
    pub progress_needed: i64,
}

/// Save one workout batch: parse and bound the attributed date, validate
/// every set before any effect, sum per-set EXP under the temporal
/// multiplier, boost by the level and streak multipliers, credit against
/// the attributed date's remaining ceiling headroom, and rederive the
/// account's level and progress.
///
/// The caller applies the outcome atomically: add `credited_exp` to the
/// account and to the day's ledger, then forward the same delta to the
/// active pet and re-evaluate unlocks as secondary effects.
pub fn save_workout_record(
    cfg: &ExpConfig,
    date_text: &str,
    today: i64,
    exercises: &Vec<ExerciseEntry>,
    account: &Option<UserStats>,
    already_credited_today: i64,
    training_streak: i32,
    login_streak: i32,
) -> (r: Result<WorkoutSaveOutcome, AppError>)
    requires
        cfg.wf(),
        valid_day(today as int),
        spec_batch_sizes_ok(exercises@),
        spec_account_ok(*account),
        0 <= already_credited_today,
        0 <= training_streak,
        0 <= login_streak,
    ensures
        r is Ok <==> (spec_parse_ymd(date_text@) matches Some(day) && day <= today
            && spec_batch_valid(exercises@)),
        spec_parse_ymd(date_text@) is None ==> (r matches Err(e) && e matches
            AppError::BadRequest(m) && m@ == "Invalid date format"@),
        spec_parse_ymd(date_text@) matches Some(day) ==> (day > today ==> (r matches Err(e)
            && e matches AppError::BadRequest(m) && m@ == "未来の日付は登録できません"@)),
        spec_parse_ymd(date_text@) matches Some(day) ==> (day <= today && !spec_batch_valid(
            exercises@,
        ) ==> (r matches Err(e) && e matches AppError::BadRequest(_))),
        spec_parse_ymd(date_text@) matches Some(day) ==> (day <= today && spec_batch_valid(
            exercises@,
        ) ==> (r matches Ok(o) && {
            let is_past = today - day >= cfg.past_days_threshold;
            let batch = spec_batch_exp(
                exercises@,
                cfg.exp_coefficient_pct as int,
                cfg.spec_exp_multiplier_pct(is_past),
                cfg.max_exp_per_set as int,
            );
            let boosted = spec_boosted_exp(
                batch,
                spec_account_level(*account),
                training_streak as int,
                login_streak as int,
            );
            let credited = spec_credited_exp(
                boosted,
                already_credited_today as int,
                cfg.spec_daily_limit(is_past),
            );
            let new_total = spec_account_total(*account) + credited;
            let new_level = spec_level_from_exp(new_total);
            &&& o.record_day as int == day
            &&& o.is_past_record == is_past
            &&& 0 <= o.credited_exp
            &&& o.credited_exp as int == credited
            &&& o.new_total_exp as int == new_total
            &&& o.old_level as int == spec_account_level(*account)
            &&& o.new_level as int == new_level
            &&& o.leveled_up == (new_level > spec_account_level(*account))
            &&& o.progress_earned as int == new_total - spec_required_exp(new_level)
            &&& o.progress_needed as int == spec_required_exp(new_level + 1) - spec_required_exp(
                new_level,
            )
        })),
{
    let day: i64 = match parse_ymd(date_text) {
        None => {
            return Err(AppError::BadRequest("Invalid date format".to_owned()));
        },
        Some(d) => d,
    };
    if day > today {
        return Err(AppError::BadRequest("未来の日付は登録できません".to_owned()));
    }
    match validate_batch(exercises) {
        Err(e) => {
            return Err(e);
        },
        Ok(()) => {},
    }
    let is_past: bool = is_past_record(cfg, day, today);
    let temporal_pct: i32 = cfg.get_exp_multiplier_pct(is_past);
    let batch_exp: i64 = compute_batch_exp(exercises, cfg, temporal_pct);
    let old_total: i64 = match account {
        Some(a) => a.total_exp,
        None => 0,
    };
    let old_level: i32 = match account {
        Some(a) => a.level,
        None => 1,
    };
    let boosted: i64 = apply_multipliers(batch_exp, old_level, training_streak, login_streak);
    let daily_limit: i32 = cfg.get_daily_limit(is_past);
    let credited: i64 = apply_daily_ceiling(boosted, already_credited_today, daily_limit);
    let new_total: i64 = old_total + credited;
    let new_level: i32 = UserStats::calculate_level(new_total);
    proof {
        lemma_level_bounds(new_total as int);
        lemma_required_exp_monotonic(new_level as int, new_level as int + 1);
    }
    let level_floor: i64 = UserStats::get_required_exp_for_level(new_level);
    let next_floor: i64 = UserStats::get_required_exp_for_level(new_level + 1);
    Ok(
        WorkoutSaveOutcome {
            record_day: day,
            is_past_record: is_past,
            credited_exp: credited,
            new_total_exp: new_total,
            old_level,
            new_level,
            leveled_up: new_level > old_level,
            progress_earned: new_total - level_floor,
            progress_needed: next_floor - level_floor,
        },
    )
}

/// Forward an EXP credit to the active pet's ledger: nothing happens
/// without an active pet or for a non-positive credit; otherwise the pet
/// takes exactly the credited delta.
pub fn forward_exp_to_active_pet(pet_total_exp: Option<i64>, delta: i64) -> (r: Option<
    PetExpOutcome,
>)
    requires
        pet_total_exp matches Some(t) ==> 0 <= t,
        pet_total_exp matches Some(t) ==> (delta > 0 ==> t + delta <= i64::MAX),
    ensures
        delta <= 0 ==> r is None,
        pet_total_exp is None ==> r is None,
        pet_total_exp matches Some(t) ==> (delta > 0 ==> (r matches Some(o) && {
            &&& o.new_total_exp == t + delta
            &&& o.new_level as int == spec_level_from_exp(t as int + delta as int)
            &&& o.new_stage as int == spec_stage_of_level(o.new_level as int)
            &&& o.leveled_up == (spec_level_from_exp(t as int + delta as int)
                > spec_level_from_exp(t as int))
            &&& o.matured == spec_matured(t as int, t as int + delta as int)
        })),
{
    if delta <= 0 {
        return None;
    }
    match pet_total_exp {
        None => None,
        Some(t) => Some(apply_exp_to_pet(t, delta)),
    }
}

/// What deleting a training record leaves behind.
pub struct DeletionOutcome {
    /// The account after the deduction, absent when the user had no
    /// progression row.
    pub new_account: Option<UserStats>,
    /// The active pet's ledger after the same deduction, absent without an
    /// active pet.
    pub pet_outcome: Option<PetExpOutcome>,
}

/// Undo a deleted record's EXP: deduct exactly the EXP it contributed from
/// the account and from the active pet, both clamped at zero, and rederive
/// levels and stage. The caller then rebuilds the training streak from the
/// remaining history with `recalculate_streak`.
pub fn apply_record_deletion(
    account: &Option<UserStats>,
    pet_total_exp: Option<i64>,
    exp_to_deduct: i64,
) -> (r: DeletionOutcome)
    requires
        0 <= exp_to_deduct,
        spec_account_ok(*account),
        pet_total_exp matches Some(t) ==> 0 <= t,
    ensures
        account is None ==> r.new_account is None,
        account matches Some(a) ==> (r.new_account matches Some(na) && {
            &&& na.id == a.id
            &&& na.user_id == a.user_id
            &&& na.total_exp as int == if exp_to_deduct <= a.total_exp {
                a.total_exp - exp_to_deduct
            } else {
                0int
            }
            &&& na.level as int == spec_level_from_exp(na.total_exp as int)
        }),
        pet_total_exp is None ==> r.pet_outcome is None,
        pet_total_exp matches Some(t) ==> (r.pet_outcome matches Some(o) && {
            &&& o.new_total_exp as int == if exp_to_deduct <= t {
                t - exp_to_deduct
            } else {
                0int
            }
            &&& o.new_level as int == spec_level_from_exp(o.new_total_exp as int)
            &&& o.new_stage as int == spec_stage_of_level(o.new_level as int)
        }),
{
    let new_account: Option<UserStats> = match account {
        None => None,
        Some(a) => {
            let new_total: i64 = if exp_to_deduct <= a.total_exp {
                a.total_exp - exp_to_deduct
            } else {
                0
            };
            let new_level: i32 = UserStats::calculate_level(new_total);
            Some(
                UserStats {
                    id: a.id,
                    user_id: a.user_id,
                    total_exp: new_total,
                    level: new_level,
                },
            )
        },
    };
    let pet_outcome: Option<PetExpOutcome> = match pet_total_exp {
        None => None,
        Some(t) => Some(deduct_exp_from_pet(t, exp_to_deduct)),
    };
    DeletionOutcome { new_account, pet_outcome }
}

/// What claiming the daily login bonus decided.
pub struct LoginBonusOutcome {
    /// The login streak after recording today's login.
    pub new_streak: StreakRecord,
    /// The streak-dependent bonus EXP granted.
    pub exp_earned: i32,
    /// The account total after the grant.
    pub new_total_exp: i64,
    /// The level derived from the new total.
    pub new_level: i32,
}

/// Claim today's login bonus, on the path where today is not yet claimed:
/// record today's login in the login streak, grant the bonus EXP the new
/// streak earns, and rederive the level. Claims for a day already claimed
/// never reach this: the caller answers them idempotently with no state
/// change and zero EXP.
pub fn claim_login_bonus_update(
    streak: &StreakRecord,
    today: i64,
    grace_days_allowed: i32,
    total_exp: i64,
) -> (r: LoginBonusOutcome)
    requires
        streak.wf(),
        streak.current_streak < 100_000_000,
        valid_day(today as int),
        streak.last_active_day matches Some(d) ==> d <= today,
        0 <= grace_days_allowed <= 3,
        0 <= total_exp <= 1_000_000_000_000_000_000,
    ensures
        r.new_streak == spec_update_streak(*streak, today, grace_days_allowed as int),
        r.exp_earned as int == spec_login_bonus_exp(r.new_streak.current_streak as int),
        100 <= r.exp_earned,
        r.new_total_exp as int == total_exp + r.exp_earned,
        r.new_level as int == spec_level_from_exp(r.new_total_exp as int),
{
    let new_streak: StreakRecord = update_streak(streak, today, grace_days_allowed);
    let exp_earned: i32 = calculate_login_bonus_exp(new_streak.current_streak);
    let new_total_exp: i64 = total_exp + exp_earned as i64;
    let new_level: i32 = UserStats::calculate_level(new_total_exp);
    LoginBonusOutcome { new_streak, exp_earned, new_total_exp, new_level }
}

/// What claiming a daily reward decided.
pub struct DailyRewardOutcome {
    /// The cycle day that was claimed.
    pub reward_day: i32,
    /// The streak-boosted EXP granted.
    pub exp_earned: i32,
    /// The account total after the grant.
    pub new_total_exp: i64,
    /// The level derived from the new total.
    pub new_level: i32,
}

/// Claim the daily reward of cycle day `current_day`, on the path where
/// today is not yet claimed: grant its base EXP boosted by the claimer's
/// streak multiplier and rederive the level. The caller forwards the same
/// EXP to the active pet as a secondary effect.
pub fn claim_daily_reward_update(
    current_day: i32,
    training_streak: i32,
    login_streak: i32,
    total_exp: i64,
) -> (r: DailyRewardOutcome)
    requires
        1 <= current_day <= 14,
        0 <= training_streak,
        0 <= login_streak,
        0 <= total_exp <= 1_000_000_000_000_000_000,
    ensures
        r.reward_day == current_day,
        r.exp_earned as int == crate::daily_reward::spec_claim_reward_exp(
            current_day as int,
            training_streak as int,
            login_streak as int,
        ),
        0 <= r.exp_earned <= 2500,
        r.new_total_exp as int == total_exp + r.exp_earned,
        r.new_level as int == spec_level_from_exp(r.new_total_exp as int),
{
    let exp_earned: i32 = crate::daily_reward::claim_reward_exp(
        current_day,
        training_streak,
        login_streak,
    );
    let new_total_exp: i64 = total_exp + exp_earned as i64;
    let new_level: i32 = UserStats::calculate_level(new_total_exp);
    DailyRewardOutcome { reward_day: current_day, exp_earned, new_total_exp, new_level }
}

} // verus!
