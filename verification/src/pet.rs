//! The companion's growth ledger: its own EXP total, the level derived from
//! it by the shared level curve, a three-stage growth state, and a mood that
//! is a pure function of how recently the owner trained.

use vstd::prelude::*;
use crate::levels::{UserStats, spec_level_from_exp, lemma_level_from_exp_monotonic};

verus! {

/// A user's companion. EXP is independent of the owner's but is fed the same
/// deltas while the companion is active; level and stage are derived.
pub struct Pet {
    pub id: i64,
    pub user_id: i64,
    pub pet_type_id: i32,
    pub name: String,
    pub stage: i32,
    pub mood_score: i32,
    pub total_exp: i64,
    pub level: i32,
    pub is_active: bool,
}

/// Growth stage from level: 1 (egg) through level 10, 2 (juvenile) through
/// level 30, 3 (mature) from level 31 on.
pub open spec fn spec_stage_of_level(level: int) -> int {
    if level <= 10 {
        1
    } else if level <= 30 {
        2
    } else {
        3
    }
}

/// Stage from a companion's level.
pub fn calculate_stage(level: i32) -> (r: i32)
    requires
        level >= 1,
    ensures
        r == spec_stage_of_level(level as int),
{
    if level <= 10 {
        1
    } else if level <= 30 {
        2
    } else {
        3
    }
}

/// Growth stage reached at a cumulative EXP total.
pub open spec fn spec_stage_of_exp(exp: int) -> int {
    spec_stage_of_level(spec_level_from_exp(exp))
}

/// An EXP change moving a total from `before` to `after` matures the
/// companion exactly when it enters stage 3 by that change.
pub open spec fn spec_matured(before: int, after: int) -> bool {
    spec_stage_of_exp(after) >= 3 && spec_stage_of_exp(before) < 3
}

/// What one EXP credit did to a companion.
pub struct PetExpOutcome {
    pub new_total_exp: i64,
    pub new_level: i32,
    pub new_stage: i32,
    pub leveled_up: bool,
    pub matured: bool,
}

/// Credit `delta` EXP to a companion ledger holding `total_exp`: the new
/// total, the level and stage derived from it, and whether this particular
/// credit raised the level or crossed into the mature stage.
pub fn apply_exp_to_pet(total_exp: i64, delta: i64) -> (o: PetExpOutcome)
    requires
        0 <= total_exp,
        0 <= delta,
        total_exp + delta <= i64::MAX,
    ensures
        o.new_total_exp == total_exp + delta,
        o.new_level == spec_level_from_exp(total_exp as int + delta as int),
        o.new_stage == spec_stage_of_level(o.new_level as int),
        o.leveled_up == (o.new_level > spec_level_from_exp(total_exp as int)),
        o.matured == spec_matured(total_exp as int, total_exp as int + delta as int),
{
    let new_total_exp: i64 = total_exp + delta;
    let old_level: i32 = UserStats::calculate_level(total_exp);
    let new_level: i32 = UserStats::calculate_level(new_total_exp);
    let old_stage: i32 = calculate_stage(old_level);
    let new_stage: i32 = calculate_stage(new_level);
    PetExpOutcome {
        new_total_exp,
        new_level,
        new_stage,
        leveled_up: new_level > old_level,
        matured: new_stage >= 3 && old_stage < 3,
    }
}

/// Remove `amount` EXP from a ledger, clamping at zero, and rederive level
/// and stage. Used when a contributing record is deleted.
pub fn deduct_exp_from_pet(total_exp: i64, amount: i64) -> (o: PetExpOutcome)
    requires
        0 <= total_exp,
        0 <= amount,
    ensures
        o.new_total_exp == if amount <= total_exp {
            total_exp - amount
        } else {
            0int
        },
        o.new_level == spec_level_from_exp(o.new_total_exp as int),
        o.new_stage == spec_stage_of_level(o.new_level as int),
        o.leveled_up == false,
        o.matured == false,
{
    let new_total_exp: i64 = if amount <= total_exp {
        total_exp - amount
    } else {
        0
    };
    let new_level: i32 = UserStats::calculate_level(new_total_exp);
    let new_stage: i32 = calculate_stage(new_level);
    PetExpOutcome { new_total_exp, new_level, new_stage, leveled_up: false, matured: false }
}

/// Mood from the owner's last training day: 100 within a day, then 80, 60,
/// 40 out to a week, 20 beyond; 50 with no training history at all.
pub open spec fn spec_mood(last_active_day: Option<i64>, today: int) -> int {
    match last_active_day {
        None => 50,
        Some(last) => {
            let days = today - last;
            if 0 <= days <= 1 {
                100
            } else if days == 2 {
                80
            } else if days == 3 {
                60
            } else if 4 <= days <= 7 {
                40
            } else {
                20
            }
        },
    }
}

/// Mood score recomputed on read; never stored as ground truth.
pub fn calculate_mood(last_active_day: Option<i64>, today: i64) -> (r: i32)
    requires
        last_active_day matches Some(d) ==> crate::dates::valid_day(d as int),
        crate::dates::valid_day(today as int),
    ensures
        r == spec_mood(last_active_day, today as int),
{
    match last_active_day {
        None => 50,
        Some(last) => {
            let days_elapsed: i64 = today - last;
            if 0 <= days_elapsed && days_elapsed <= 1 {
                100
            } else if days_elapsed == 2 {
                80
            } else if days_elapsed == 3 {
                60
            } else if 4 <= days_elapsed && days_elapsed <= 7 {
                40
            } else {
                20
            }
        },
    }
}

/// The image shown for a companion follows its stage: the egg, juvenile or
/// adult art, and nothing for a stage outside the three.
pub fn image_for_stage(
    image_egg: &Option<String>,
    image_child: &Option<String>,
    image_adult: &Option<String>,
    stage: i32,
) -> (r: Option<String>)
    ensures
        stage == 1 ==> r@ == image_egg@,
        stage == 2 ==> r@ == image_child@,
        stage == 3 ==> r@ == image_adult@,
        !(1 <= stage <= 3) ==> r is None,
{
    let source: &Option<String> = if stage == 1 {
        image_egg
    } else if stage == 2 {
        image_child
    } else if stage == 3 {
        image_adult
    } else {
        &None
    };
    match source {
        Some(s) => Some(s.clone()),
        None => None,
    }
}

impl Pet {
    /// A freshly adopted companion: an egg at level 1 with no EXP, in full
    /// spirits, and immediately the active companion.
    pub fn adopt(id: i64, user_id: i64, pet_type_id: i32, name: String) -> (r: Pet)
        ensures
            r == (Pet {
                id,
                user_id,
                pet_type_id,
                name,
                stage: 1i32,
                mood_score: 100i32,
                total_exp: 0i64,
                level: 1i32,
                is_active: true,
            }),
    {
        Pet {
            id,
            user_id,
            pet_type_id,
            name,
            stage: 1,
            mood_score: 100,
            total_exp: 0,
            level: 1,
            is_active: true,
        }
    }
}

/// The display name of a growth stage: egg, juvenile or mature awakening,
/// with a marker for anything outside the three.
pub fn get_stage_name(stage: i32) -> (r: &'static str)
    ensures
        stage == 1 ==> r@ == "卵"@,
        stage == 2 ==> r@ == "成長期"@,
        stage == 3 ==> r@ == "覚醒"@,
        !(1 <= stage <= 3) ==> r@ == "Unknown"@,
{
    if stage == 1 {
        "卵"
    } else if stage == 2 {
        "成長期"
    } else if stage == 3 {
        "覚醒"
    } else {
        "Unknown"
    }
}

/// The display label of a mood score; only the five scores the mood
/// function produces have labels of their own.
pub fn get_mood_label(mood_score: i32) -> (r: &'static str)
    ensures
        mood_score == 100 ==> r@ == "絶好調"@,
        mood_score == 80 ==> r@ == "元気"@,
        mood_score == 60 ==> r@ == "普通"@,
        mood_score == 40 ==> r@ == "寂しい"@,
        mood_score == 50 ==> r@ == "眠そう"@,
        mood_score == 20 ==> r@ == "弱っている"@,
{
    if mood_score == 100 {
        "絶好調"
    } else if mood_score == 80 {
        "元気"
    } else if mood_score == 60 {
        "普通"
    } else if mood_score == 40 {
        "寂しい"
    } else if mood_score == 50 {
        "眠そう"
    } else {
        "弱っている"
    }
}

/// A companion type as shown to clients, with its art and unlock data.
pub struct PetTypeResponse {
    pub id: i32,
    pub name: String,
    pub code: String,
    pub description: Option<String>,
    pub image_egg: Option<String>,
    pub image_child: Option<String>,
    pub image_adult: Option<String>,
    pub background_image: Option<String>,
    pub unlock_type: Option<String>,
    pub unlock_level: Option<i32>,
    pub unlock_pet_code: Option<String>,
    pub is_starter: Option<bool>,
}

/// A still-locked companion type as shown on the barn screen, with a
/// human-readable account of its unlock progress.
pub struct LockedPetTypeResponse {
    pub id: i32,
    pub name: String,
    pub code: String,
    pub description: Option<String>,
    pub image_egg: Option<String>,
    pub background_image: Option<String>,
    pub unlock_type: Option<String>,
    pub unlock_level: Option<i32>,
    pub unlock_pet_code: Option<String>,
    pub unlock_progress: String,
}

/// A request to adopt a companion of a given type.
pub struct CreatePetRequest {
    pub pet_type_id: i32,
    pub name: Option<String>,
}

/// A request to rename a companion.
pub struct UpdatePetRequest {
    pub name: Option<String>,
}

/// Accept a companion name: a given name is trimmed and must keep 1 to 50
/// bytes; no name at all falls back to the default.
pub fn validate_pet_name(name: &Option<String>) -> (r: Result<String, crate::error::AppError>)
    ensures
        name is None ==> (r matches Ok(t) && t@ == "パートナー"@),
        name matches Some(given) ==> {
            let bytes = vstd::utf8::encode_utf8(crate::text::spec_trim(given@));
            &&& (1 <= bytes.len() <= 50 ==> (r matches Ok(t) && t@ == crate::text::spec_trim(
                given@,
            )))
            &&& (!(1 <= bytes.len() <= 50) ==> (r matches Err(e) && e matches
                crate::error::AppError::BadRequest(m) && m@
                == "名前は1〜50文字で入力してください"@))
        },
{
    match name {
        None => Ok("パートナー".to_owned()),
        Some(given) => {
            let t: String = crate::text::trimmed(given.as_str());
            let len: usize = t.as_str().len();
            if len == 0 || len > 50 {
                Err(
                    crate::error::AppError::BadRequest(
                        "名前は1〜50文字で入力してください".to_owned(),
                    ),
                )
            } else {
                Ok(t)
            }
        },
    }
}

/// Admit or refuse an adoption: the companion type must exist, be unlocked
/// for this user, and not be owned already, and the requested name must be
/// acceptable; the accepted name comes back. Each refusal carries its own
/// message, and nothing is created on refusal.
pub fn validate_adoption(
    type_known: bool,
    is_unlocked: bool,
    already_owned: bool,
    name: &Option<String>,
) -> (r: Result<String, crate::error::AppError>)
    ensures
        !type_known ==> (r matches Err(e) && e matches crate::error::AppError::BadRequest(m) && m@
            == "無効なペット種類です"@),
        type_known && !is_unlocked ==> (r matches Err(e) && e matches
            crate::error::AppError::BadRequest(m) && m@
            == "このペット種類はまだ解放されていません"@),
        type_known && is_unlocked && already_owned ==> (r matches Err(e) && e matches
            crate::error::AppError::BadRequest(m) && m@ == "このペット種類は既に所持しています"@),
        type_known && is_unlocked && !already_owned ==> {
            &&& name is None ==> (r matches Ok(t) && t@ == "パートナー"@)
            &&& name matches Some(given) ==> {
                let bytes = vstd::utf8::encode_utf8(crate::text::spec_trim(given@));
                &&& (1 <= bytes.len() <= 50 ==> (r matches Ok(t) && t@ == crate::text::spec_trim(
                    given@,
                )))
                &&& (!(1 <= bytes.len() <= 50) ==> (r matches Err(e) && e matches
                    crate::error::AppError::BadRequest(m) && m@
                    == "名前は1〜50文字で入力してください"@))
            }
        },
{
    if !type_known {
        return Err(crate::error::AppError::BadRequest("無効なペット種類です".to_owned()));
    }
    if !is_unlocked {
        return Err(
            crate::error::AppError::BadRequest(
                "このペット種類はまだ解放されていません".to_owned(),
            ),
        );
    }
    if already_owned {
        return Err(
            crate::error::AppError::BadRequest("このペット種類は既に所持しています".to_owned()),
        );
    }
    validate_pet_name(name)
}

/// Maturation is edge-triggered: once a credit has matured the companion,
/// no later credit can mature it again while EXP keeps growing.
pub proof fn lemma_maturation_fires_once(e0: int, e1: int, e2: int)
    requires
        e0 <= e1 <= e2,
        spec_matured(e0, e1),
    ensures
        !spec_matured(e1, e2),
{
    lemma_level_from_exp_monotonic(e1, e2);
}

/// Before the crossing, the flag stays down: a credit that leaves the
/// companion short of stage 3 does not mature it.
pub proof fn lemma_no_maturation_below_threshold(e0: int, e1: int)
    requires
        spec_stage_of_exp(e1) < 3,
    ensures
        !spec_matured(e0, e1),
{
}

} // verus!
