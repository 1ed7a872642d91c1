//! The EXP accrual calculator: per-set EXP with difficulty and temporal
//! weighting, anti-abuse caps, level and streak multipliers, and the daily
//! ceiling.
//!
//! All weighting factors are exact rationals with denominator 100 and are
//! carried as whole percent; weights are carried in tenths of a kilogram.
//! Rounding is half away from zero, which on these non-negative values is
//! rounding half up.

use vstd::prelude::*;
use crate::error::AppError;
use crate::streak::{spec_training_bonus_pct, spec_login_bonus_pct, combined_multiplier_pct};
use crate::text::str_eq;

verus! {

/// Tunable limits and factors of the EXP system.
pub struct ExpConfig {
    /// Daily EXP ceiling for current records.
    pub daily_limit: i32,
    /// A record this many days old or older counts as a past record.
    pub past_days_threshold: i64,
    /// EXP multiplier for past records, in percent.
    pub past_exp_multiplier_pct: i32,
    /// Daily-ceiling multiplier for past records, in percent.
    pub past_limit_multiplier_pct: i32,
    /// Cap on the EXP a single set can earn.
    pub max_exp_per_set: i32,
    /// Base coefficient of the per-set formula, in percent.
    pub exp_coefficient_pct: i32,
}

impl ExpConfig {
    /// The bounds every configuration obeys; they keep all intermediate
    /// products comfortably inside an `i64`.
    pub open spec fn wf(self) -> bool {
        &&& 0 <= self.daily_limit <= 10_000_000
        &&& 0 <= self.past_days_threshold
        &&& 0 <= self.past_exp_multiplier_pct <= 100
        &&& 0 <= self.past_limit_multiplier_pct <= 100
        &&& 1 <= self.max_exp_per_set <= 1_000_000
        &&& 0 <= self.exp_coefficient_pct <= 10_000
    }

    /// The ceiling that applies to a record's date: the full daily limit,
    /// reduced by the past-record factor for past dates.
    pub open spec fn spec_daily_limit(self, is_past_record: bool) -> int {
        if is_past_record {
            self.daily_limit * self.past_limit_multiplier_pct / 100
        } else {
            self.daily_limit as int
        }
    }

    /// Daily EXP ceiling for a record, by whether its date is past.
    pub fn get_daily_limit(&self, is_past_record: bool) -> (r: i32)
        requires
            self.wf(),
        ensures
            r == self.spec_daily_limit(is_past_record),
            0 <= r <= self.daily_limit,
    {
        if is_past_record {
            proof {
                let d = self.daily_limit as int;
                let p = self.past_limit_multiplier_pct as int;
                assert(0 <= d * p <= d * 100) by (nonlinear_arith)
                    requires
                        0 <= d,
                        0 <= p <= 100,
                ;
                assert(d * p / 100 <= d) by (nonlinear_arith)
                    requires
                        0 <= d * p <= d * 100,
                ;
            }
            let reduced: i64 = (self.daily_limit as i64) * (self.past_limit_multiplier_pct as i64)
                / 100;
            reduced as i32
        } else {
            self.daily_limit
        }
    }

    /// The temporal multiplier that applies to a record's date, in percent.
    pub open spec fn spec_exp_multiplier_pct(self, is_past_record: bool) -> int {
        if is_past_record {
            self.past_exp_multiplier_pct as int
        } else {
            100
        }
    }

    /// Temporal EXP multiplier for a record, in percent.
    pub fn get_exp_multiplier_pct(&self, is_past_record: bool) -> (r: i32)
        requires
            self.wf(),
        ensures
            r == self.spec_exp_multiplier_pct(is_past_record),
            0 <= r <= 100,
    {
        if is_past_record {
            self.past_exp_multiplier_pct
        } else {
            100
        }
    }
}

impl Default for ExpConfig {
    /// The stock configuration: a 50,000 EXP daily ceiling, records two or
    /// more days old counting as past at a quarter of the EXP and half the
    /// ceiling, at most 2,000 EXP per set, and a base coefficient of one.
    fn default() -> (r: ExpConfig)
        ensures
            r == (ExpConfig {
                daily_limit: 50_000i32,
                past_days_threshold: 2i64,
                past_exp_multiplier_pct: 25i32,
                past_limit_multiplier_pct: 50i32,
                max_exp_per_set: 2_000i32,
                exp_coefficient_pct: 100i32,
            }),
            r.wf(),
    {
        ExpConfig {
            daily_limit: 50_000,
            past_days_threshold: 2,
            past_exp_multiplier_pct: 25,
            past_limit_multiplier_pct: 50,
            max_exp_per_set: 2_000,
            exp_coefficient_pct: 100,
        }
    }
}

/// A record dated this many days or more before today earns past-record
/// treatment.
pub fn is_past_record(cfg: &ExpConfig, record_day: i64, today: i64) -> (r: bool)
    requires
        cfg.wf(),
        crate::dates::valid_day(record_day as int),
        crate::dates::valid_day(today as int),
    ensures
        r == (today - record_day >= cfg.past_days_threshold),
{
    today - record_day >= cfg.past_days_threshold
}

/// The difficulty grade of an exercise, as a small enumerated table.
#[derive(Clone, Copy, PartialEq, Eq, Structural, Debug)]
pub enum Difficulty {
    High,
    Medium,
    Low,
    /// Custom exercises and anything without a recognised grade.
    Unrated,
}

/// Difficulty coefficient: high 30, medium 20, low 10, unrated or custom 15.
pub open spec fn spec_difficulty_coef(d: Difficulty) -> int {
    match d {
        Difficulty::High => 30,
        Difficulty::Medium => 20,
        Difficulty::Low => 10,
        Difficulty::Unrated => 15,
    }
}

impl Difficulty {
    /// The coefficient this grade contributes to the per-set formula.
    pub fn coefficient(self) -> (r: i32)
        ensures
            r == spec_difficulty_coef(self),
            10 <= r <= 30,
    {
        match self {
            Difficulty::High => 30,
            Difficulty::Medium => 20,
            Difficulty::Low => 10,
            Difficulty::Unrated => 15,
        }
    }
}

/// The grade an exercise's stored difficulty label denotes: the Japanese
/// grades or their English equivalents; anything else, like a custom
/// exercise, counts as unrated.
pub open spec fn spec_difficulty_from_label(label: Seq<char>) -> Difficulty {
    if label == "上級"@ || label == "hard"@ {
        Difficulty::High
    } else if label == "中級"@ || label == "medium"@ {
        Difficulty::Medium
    } else if label == "初級"@ || label == "easy"@ {
        Difficulty::Low
    } else {
        Difficulty::Unrated
    }
}

/// The difficulty grade behind a stored label.
pub fn difficulty_from_label(label: &str) -> (r: Difficulty)
    ensures
        r == spec_difficulty_from_label(label@),
{
    if str_eq(label, "上級") || str_eq(label, "hard") {
        Difficulty::High
    } else if str_eq(label, "中級") || str_eq(label, "medium") {
        Difficulty::Medium
    } else if str_eq(label, "初級") || str_eq(label, "easy") {
        Difficulty::Low
    } else {
        Difficulty::Unrated
    }
}

/// One logged set: the weight moved, in tenths of a kilogram, and the
/// repetition count.
#[derive(Clone, Copy)]
pub struct SetEntry {
    pub weight_tenths: i64,
    pub reps: i32,
}

/// One logged exercise: its difficulty grade and its sets.
#[derive(Clone)]
pub struct ExerciseEntry {
    pub difficulty: Difficulty,
    pub sets: Vec<SetEntry>,
}

/// A set is accepted with a weight of 0 to 500 kilograms and 0 to 20
/// repetitions; anything outside is rejected, not clamped.
pub open spec fn spec_set_valid(s: SetEntry) -> bool {
    &&& 0 <= s.weight_tenths <= 5000
    &&& 0 <= s.reps <= 20
}

/// Every set of every exercise in the batch is within the accepted ranges.
pub open spec fn spec_batch_valid(exs: Seq<ExerciseEntry>) -> bool {
    forall|i: int, j: int|
        0 <= i < exs.len() && 0 <= j < exs[i].sets@.len() ==> spec_set_valid(
            #[trigger] exs[i].sets@[j],
        )
}

/// Size bounds under which batch EXP arithmetic cannot overflow.
pub open spec fn spec_batch_sizes_ok(exs: Seq<ExerciseEntry>) -> bool {
    &&& exs.len() <= 10_000
    &&& forall|i: int| 0 <= i < exs.len() ==> #[trigger] exs[i].sets@.len() <= 10_000
}

/// `n / d` rounded half up (half away from zero, as everything here is
/// non-negative).
pub open spec fn spec_round_div(n: int, d: int) -> int {
    (n + d / 2) / d
}

/// EXP earned by one set before capping: difficulty times weight times reps
/// times the base coefficient times the temporal multiplier, rounded.
pub open spec fn spec_raw_set_exp(coef: int, s: SetEntry, coefficient_pct: int,
    temporal_pct: int) -> int {
    spec_round_div(coef * s.weight_tenths * s.reps * coefficient_pct * temporal_pct, 100_000)
}

/// EXP credited for one set: the raw value capped per set, and never less
/// than 1 for a logged set.
pub open spec fn spec_set_exp(coef: int, s: SetEntry, coefficient_pct: int, temporal_pct: int,
    cap: int) -> int {
    let raw = spec_raw_set_exp(coef, s, coefficient_pct, temporal_pct);
    let capped = if raw < cap {
        raw
    } else {
        cap
    };
    if capped < 1 {
        1
    } else {
        capped
    }
}

/// EXP credited for one set of the batch.
pub fn compute_set_exp(difficulty_coef: i32, set: &SetEntry, cfg: &ExpConfig, temporal_pct: i32)
    -> (r: i64)
    requires
        cfg.wf(),
        spec_set_valid(*set),
        10 <= difficulty_coef <= 30,
        0 <= temporal_pct <= 100,
    ensures
        r == spec_set_exp(
            difficulty_coef as int,
            *set,
            cfg.exp_coefficient_pct as int,
            temporal_pct as int,
            cfg.max_exp_per_set as int,
        ),
        1 <= r <= cfg.max_exp_per_set,
{
    let c: i64 = difficulty_coef as i64;
    let w: i64 = set.weight_tenths;
    let reps: i64 = set.reps as i64;
    let k: i64 = cfg.exp_coefficient_pct as i64;
    let t: i64 = temporal_pct as i64;
    proof {
        assert(0 <= c * w <= 150_000) by (nonlinear_arith)
            requires
                10 <= c <= 30,
                0 <= w <= 5000,
        ;
        assert(0 <= (c * w) * reps <= 3_000_000) by (nonlinear_arith)
            requires
                0 <= c * w <= 150_000,
                0 <= reps <= 20,
        ;
        assert(0 <= ((c * w) * reps) * k <= 30_000_000_000) by (nonlinear_arith)
            requires
                0 <= (c * w) * reps <= 3_000_000,
                0 <= k <= 10_000,
        ;
        assert(0 <= (((c * w) * reps) * k) * t <= 3_000_000_000_000) by (nonlinear_arith)
            requires
                0 <= ((c * w) * reps) * k <= 30_000_000_000,
                0 <= t <= 100,
        ;
    }
    let numerator: i64 = c * w * reps * k * t;
    let raw: i64 = (numerator + 50_000) / 100_000;
    let cap: i64 = cfg.max_exp_per_set as i64;
    let capped: i64 = if raw < cap {
        raw
    } else {
        cap
    };
    if capped < 1 {
        1
    } else {
        capped
    }
}

/// Sum of per-set EXP over one exercise's sets.
pub open spec fn spec_sets_exp(coef: int, sets: Seq<SetEntry>, coefficient_pct: int,
    temporal_pct: int, cap: int) -> int
    decreases sets.len(),
{
    if sets.len() == 0 {
        0
    } else {
        spec_sets_exp(coef, sets.drop_last(), coefficient_pct, temporal_pct, cap) + spec_set_exp(
            coef,
            sets.last(),
            coefficient_pct,
            temporal_pct,
            cap,
        )
    }
}

/// Sum of per-set EXP over the whole batch.
pub open spec fn spec_batch_exp(exs: Seq<ExerciseEntry>, coefficient_pct: int, temporal_pct: int,
    cap: int) -> int
    decreases exs.len(),
{
    if exs.len() == 0 {
        0
    } else {
        spec_batch_exp(exs.drop_last(), coefficient_pct, temporal_pct, cap) + spec_sets_exp(
            spec_difficulty_coef(exs.last().difficulty),
            exs.last().sets@,
            coefficient_pct,
            temporal_pct,
            cap,
        )
    }
}

/// Each set contributes between 1 and the per-set cap.
proof fn lemma_sets_exp_bounds(coef: int, sets: Seq<SetEntry>, coefficient_pct: int,
    temporal_pct: int, cap: int)
    requires
        1 <= cap,
    ensures
        sets.len() <= spec_sets_exp(coef, sets, coefficient_pct, temporal_pct, cap) <= sets.len()
            * cap,
    decreases sets.len(),
{
    if sets.len() > 0 {
        lemma_sets_exp_bounds(coef, sets.drop_last(), coefficient_pct, temporal_pct, cap);
        let n = sets.len() as int;
        assert((n - 1) * cap + cap == n * cap) by (nonlinear_arith);
        assert(n - 1 <= (n - 1) * cap) by (nonlinear_arith)
            requires
                1 <= cap,
                0 <= n - 1,
        ;
    }
}

/// A batch within the size bounds sums to at most `len * 10_000 * cap`.
proof fn lemma_batch_exp_bounds(exs: Seq<ExerciseEntry>, coefficient_pct: int, temporal_pct: int,
    cap: int)
    requires
        1 <= cap <= 1_000_000,
        forall|i: int| 0 <= i < exs.len() ==> #[trigger] exs[i].sets@.len() <= 10_000,
    ensures
        0 <= spec_batch_exp(exs, coefficient_pct, temporal_pct, cap) <= exs.len() as int
            * 10_000_000_000,
    decreases exs.len(),
{
    if exs.len() > 0 {
        let n = exs.len() as int;
        assert(forall|i: int| 0 <= i < exs.drop_last().len() ==> #[trigger] exs.drop_last()[i]
            == exs[i]);
        lemma_batch_exp_bounds(exs.drop_last(), coefficient_pct, temporal_pct, cap);
        let last = exs.last();
        lemma_sets_exp_bounds(
            spec_difficulty_coef(last.difficulty),
            last.sets@,
            coefficient_pct,
            temporal_pct,
            cap,
        );
        assert(last.sets@.len() * cap <= 10_000_000_000) by (nonlinear_arith)
            requires
                0 <= last.sets@.len() <= 10_000,
                1 <= cap <= 1_000_000,
        ;
        assert((n - 1) * 10_000_000_000 + 10_000_000_000 == n * 10_000_000_000) by (
        nonlinear_arith);
    }
}

/// Check every set of the batch against the accepted weight and repetition
/// ranges; the whole batch is rejected before any EXP is computed if any
/// set is out of range.
pub fn validate_batch(exercises: &Vec<ExerciseEntry>) -> (r: Result<(), AppError>)
    ensures
        r is Ok <==> spec_batch_valid(exercises@),
        r matches Err(e) ==> e matches AppError::BadRequest(m) && (m@ ==
        "重量は0〜500kgの範囲で入力してください"@ || m@
            == "回数は0〜20の範囲で入力してください"@),
{
    let n: usize = exercises.len();
    let mut i: usize = 0;
    while i < n
        invariant
            0 <= i <= n,
            n == exercises@.len(),
            forall|a: int, b: int|
                0 <= a < i && 0 <= b < exercises@[a].sets@.len() ==> spec_set_valid(
                    #[trigger] exercises@[a].sets@[b],
                ),
        decreases n - i,
    {
        let sets_len: usize = exercises[i].sets.len();
        let mut j: usize = 0;
        while j < sets_len
            invariant
                0 <= i < n,
                0 <= j <= sets_len,
                n == exercises@.len(),
                sets_len == exercises@[i as int].sets@.len(),
                forall|a: int, b: int|
                    0 <= a < i && 0 <= b < exercises@[a].sets@.len() ==> spec_set_valid(
                        #[trigger] exercises@[a].sets@[b],
                    ),
                forall|b: int|
                    0 <= b < j ==> spec_set_valid(#[trigger] exercises@[i as int].sets@[b]),
            decreases sets_len - j,
        {
            let set: &SetEntry = &exercises[i].sets[j];
            if set.weight_tenths < 0 || set.weight_tenths > 5000 {
                return Err(
                    AppError::BadRequest("重量は0〜500kgの範囲で入力してください".to_owned()),
                );
            }
            if set.reps < 0 || set.reps > 20 {
                return Err(
                    AppError::BadRequest("回数は0〜20の範囲で入力してください".to_owned()),
                );
            }
            j = j + 1;
        }
        i = i + 1;
    }
    Ok(())
}

/// Sum per-set EXP over a validated batch.
pub fn compute_batch_exp(exercises: &Vec<ExerciseEntry>, cfg: &ExpConfig, temporal_pct: i32) -> (r:
    i64)
    requires
        cfg.wf(),
        0 <= temporal_pct <= 100,
        spec_batch_valid(exercises@),
        spec_batch_sizes_ok(exercises@),
    ensures
        r == spec_batch_exp(
            exercises@,
            cfg.exp_coefficient_pct as int,
            temporal_pct as int,
            cfg.max_exp_per_set as int,
        ),
        0 <= r <= 100_000_000_000_000,
{
    let n: usize = exercises.len();
    let mut total: i64 = 0;
    let mut i: usize = 0;
    proof {
        lemma_batch_exp_bounds(
            exercises@.take(0),
            cfg.exp_coefficient_pct as int,
            temporal_pct as int,
            cfg.max_exp_per_set as int,
        );
    }
    while i < n
        invariant
            0 <= i <= n,
            n == exercises@.len(),
            cfg.wf(),
            0 <= temporal_pct <= 100,
            spec_batch_valid(exercises@),
            spec_batch_sizes_ok(exercises@),
            total == spec_batch_exp(
                exercises@.take(i as int),
                cfg.exp_coefficient_pct as int,
                temporal_pct as int,
                cfg.max_exp_per_set as int,
            ),
            0 <= total <= i as int * 10_000_000_000,
        decreases n - i,
    {
        let coef: i32 = exercises[i].difficulty.coefficient();
        let sets_len: usize = exercises[i].sets.len();
        let mut exercise_total: i64 = 0;
        let mut j: usize = 0;
        while j < sets_len
            invariant
                0 <= i < n,
                0 <= j <= sets_len,
                n == exercises@.len(),
                cfg.wf(),
                0 <= temporal_pct <= 100,
                spec_batch_valid(exercises@),
                sets_len == exercises@[i as int].sets@.len() <= 10_000,
                coef == spec_difficulty_coef(exercises@[i as int].difficulty),
                10 <= coef <= 30,
                exercise_total == spec_sets_exp(
                    coef as int,
                    exercises@[i as int].sets@.take(j as int),
                    cfg.exp_coefficient_pct as int,
                    temporal_pct as int,
                    cfg.max_exp_per_set as int,
                ),
                0 <= exercise_total <= j as int * 1_000_000,
            decreases sets_len - j,
        {
            let set_exp: i64 = compute_set_exp(coef, &exercises[i].sets[j], cfg, temporal_pct);
            proof {
                let sets = exercises@[i as int].sets@;
                assert(sets.take(j as int + 1).drop_last() =~= sets.take(j as int));
                assert(sets.take(j as int + 1).last() == sets[j as int]);
            }
            exercise_total = exercise_total + set_exp;
            j = j + 1;
        }
        proof {
            let exs = exercises@;
            assert(exs[i as int].sets@.take(sets_len as int) =~= exs[i as int].sets@);
            assert(exs.take(i as int + 1).drop_last() =~= exs.take(i as int));
            assert(exs.take(i as int + 1).last() == exs[i as int]);
            assert(exercise_total <= 10_000_000_000) by (nonlinear_arith)
                requires
                    exercise_total <= sets_len as int * 1_000_000,
                    sets_len <= 10_000,
            ;
            assert((i as int) * 10_000_000_000 + 10_000_000_000 == (i as int + 1)
                * 10_000_000_000) by (nonlinear_arith);
            assert(i as int + 1 <= 10_000);
            assert((i as int + 1) * 10_000_000_000 <= 100_000_000_000_000) by (nonlinear_arith)
                requires
                    i as int + 1 <= 10_000,
            ;
        }
        total = total + exercise_total;
        i = i + 1;
    }
    proof {
        assert(exercises@.take(n as int) =~= exercises@);
        assert(n as int * 10_000_000_000 <= 100_000_000_000_000) by (nonlinear_arith)
            requires
                n as int <= 10_000,
        ;
    }
    total
}

/// Level multiplier in percent: one extra percent per level, saturating at
/// double EXP from level 100 on.
pub open spec fn spec_level_multiplier_pct(level: int) -> int {
    if level <= 100 {
        100 + level
    } else {
        200
    }
}

/// Batch EXP boosted by the level and streak multipliers, rounded half up.
pub open spec fn spec_boosted_exp(batch_exp: int, level: int, training_streak: int,
    login_streak: int) -> int {
    spec_round_div(
        batch_exp * spec_level_multiplier_pct(level) * (100 + spec_training_bonus_pct(
            training_streak,
        ) + spec_login_bonus_pct(login_streak)),
        10_000,
    )
}

/// Apply the level multiplier and the combined streak multiplier to a
/// batch's summed EXP.
pub fn apply_multipliers(batch_exp: i64, level: i32, training_streak: i32, login_streak: i32) -> (r:
    i64)
    requires
        0 <= batch_exp <= 100_000_000_000_000,
        1 <= level,
        0 <= training_streak,
        0 <= login_streak,
    ensures
        r == spec_boosted_exp(
            batch_exp as int,
            level as int,
            training_streak as int,
            login_streak as int,
        ),
        0 <= r <= 5_000_000_000_000_000,
{
    let level_pct: i64 = if level <= 100 {
        100 + level as i64
    } else {
        200
    };
    let streak_pct: i64 = combined_multiplier_pct(training_streak, login_streak) as i64;
    proof {
        assert(0 <= batch_exp * level_pct <= 20_000_000_000_000_000) by (nonlinear_arith)
            requires
                0 <= batch_exp <= 100_000_000_000_000,
                100 <= level_pct <= 200,
        ;
        assert(0 <= (batch_exp * level_pct) * streak_pct <= 5_000_000_000_000_000_000) by (
        nonlinear_arith)
            requires
                0 <= batch_exp * level_pct <= 20_000_000_000_000_000,
                100 <= streak_pct <= 250,
        ;
    }
    let product: i64 = batch_exp * level_pct * streak_pct;
    (product + 5_000) / 10_000
}

/// What a boosted batch actually credits against a date's ceiling: the
/// boosted EXP, cut down to the headroom the date still has.
pub open spec fn spec_credited_exp(boosted: int, already_credited: int, limit: int) -> int {
    let headroom = if limit - already_credited > 0 {
        limit - already_credited
    } else {
        0
    };
    if boosted < headroom {
        boosted
    } else {
        headroom
    }
}

/// Enforce the daily ceiling for the attributed date: credit at most the
/// headroom left after what that date has already been credited.
pub fn apply_daily_ceiling(boosted: i64, already_credited: i64, daily_limit: i32) -> (r: i64)
    requires
        0 <= boosted,
        0 <= already_credited,
        0 <= daily_limit,
    ensures
        r == spec_credited_exp(boosted as int, already_credited as int, daily_limit as int),
        0 <= r <= boosted,
        r <= daily_limit,
{
    let limit: i64 = daily_limit as i64;
    let remaining: i64 = limit - already_credited;
    let headroom: i64 = if remaining > 0 {
        remaining
    } else {
        0
    };
    if boosted < headroom {
        boosted
    } else {
        headroom
    }
}

/// However a day's EXP is split into batches, two sequential credits against
/// the same date never exceed that date's remaining headroom, and so never
/// push the date past its ceiling.
pub proof fn lemma_daily_ceiling_caps_total(b1: int, b2: int, already_credited: int, limit: int)
    requires
        0 <= b1,
        0 <= b2,
        0 <= already_credited,
    ensures
        ({
            let c1 = spec_credited_exp(b1, already_credited, limit);
            let c2 = spec_credited_exp(b2, already_credited + c1, limit);
            c1 + c2 <= if limit - already_credited > 0 {
                limit - already_credited
            } else {
                0
            }
        }),
{
}

} // verus!
