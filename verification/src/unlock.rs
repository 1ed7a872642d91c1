//! The unlock rule evaluator: companion types gated behind predicates over
//! the user's level or the growth of companions the user already owns.
//! Granting is append-only and idempotent.

use vstd::prelude::*;

verus! {

/// How a companion type is unlocked.
#[derive(Clone, Copy, PartialEq, Eq, Structural)]
pub enum UnlockRule {
    /// Unlocked for everyone from the start.
    Default,
    /// Unlocked once the user reaches the given level.
    UserLevel { required_level: i32 },
    /// Unlocked once some owned companion of the given type is mature.
    PetGrowth { required_type_id: i32 },
    /// A rule the engine does not recognise; it never unlocks.
    Unrecognized,
}

/// A companion type from master data, as the evaluator sees it.
#[derive(Clone, Copy, PartialEq, Eq, Structural)]
pub struct CompanionType {
    pub id: i32,
    pub is_starter: bool,
    pub rule: UnlockRule,
}

/// Whether a rule's predicate holds for a user at `user_level` who owns
/// mature companions of the types in `mature_type_ids`.
pub open spec fn spec_rule_satisfied(rule: UnlockRule, user_level: int,
    mature_type_ids: Seq<i32>) -> bool {
    match rule {
        UnlockRule::Default => true,
        UnlockRule::UserLevel { required_level } => user_level >= required_level,
        UnlockRule::PetGrowth { required_type_id } => mature_type_ids.contains(required_type_id),
        UnlockRule::Unrecognized => false,
    }
}

/// A type earns a new unlock row exactly when it is not a starter, is not
/// unlocked yet, and its predicate is satisfied.
pub open spec fn spec_should_unlock(t: CompanionType, unlocked_ids: Seq<i32>, user_level: int,
    mature_type_ids: Seq<i32>) -> bool {
    &&& !t.is_starter
    &&& !unlocked_ids.contains(t.id)
    &&& spec_rule_satisfied(t.rule, user_level, mature_type_ids)
}

/// No two companion types share an id.
pub open spec fn spec_unique_ids(types: Seq<CompanionType>) -> bool {
    forall|i: int, j: int|
        0 <= i < j < types.len() ==> (#[trigger] types[i]).id != (#[trigger] types[j]).id
}

/// Whether `needle` occurs in `haystack`.
fn contains_id(haystack: &Vec<i32>, needle: i32) -> (r: bool)
    ensures
        r == haystack@.contains(needle),
{
    let n: usize = haystack.len();
    let mut i: usize = 0;
    while i < n
        invariant
            0 <= i <= n,
            n == haystack@.len(),
            forall|k: int| 0 <= k < i ==> haystack@[k] != needle,
        decreases n - i,
    {
        if haystack[i] == needle {
            return true;
        }
        i = i + 1;
    }
    false
}

/// Whether one rule's predicate holds right now.
pub fn rule_satisfied(rule: &UnlockRule, user_level: i32, mature_type_ids: &Vec<i32>) -> (r: bool)
    ensures
        r == spec_rule_satisfied(*rule, user_level as int, mature_type_ids@),
{
    match rule {
        UnlockRule::Default => true,
        UnlockRule::UserLevel { required_level } => user_level >= *required_level,
        UnlockRule::PetGrowth { required_type_id } => contains_id(mature_type_ids, *required_type_id),
        UnlockRule::Unrecognized => false,
    }
}

/// Evaluate every companion type against the current inputs and return the
/// ids that earn a new unlock row: exactly the non-starter types, not yet
/// unlocked, whose predicate is satisfied, each at most once.
pub fn evaluate_unlocks(
    types: &Vec<CompanionType>,
    unlocked_ids: &Vec<i32>,
    user_level: i32,
    mature_type_ids: &Vec<i32>,
) -> (newly: Vec<i32>)
    requires
        spec_unique_ids(types@),
    ensures
        forall|id: i32|
            #[trigger] newly@.contains(id) <==> exists|k: int|
                0 <= k < types@.len() && (#[trigger] types@[k]).id == id && spec_should_unlock(
                    types@[k],
                    unlocked_ids@,
                    user_level as int,
                    mature_type_ids@,
                ),
        forall|i: int, j: int|
            0 <= i < j < newly@.len() ==> (#[trigger] newly@[i]) != (#[trigger] newly@[j]),
{
    let n: usize = types.len();
    let mut newly: Vec<i32> = Vec::new();
    let mut i: usize = 0;
    while i < n
        invariant
            0 <= i <= n,
            n == types@.len(),
            spec_unique_ids(types@),
            forall|id: i32|
                #[trigger] newly@.contains(id) <==> exists|k: int|
                    0 <= k < i && (#[trigger] types@[k]).id == id && spec_should_unlock(
                        types@[k],
                        unlocked_ids@,
                        user_level as int,
                        mature_type_ids@,
                    ),
            forall|a: int, b: int|
                0 <= a < b < newly@.len() ==> (#[trigger] newly@[a]) != (#[trigger] newly@[b]),
        decreases n - i,
    {
        let t: &CompanionType = &types[i];
        let already = contains_id(unlocked_ids, t.id);
        if !t.is_starter && !already && rule_satisfied(&t.rule, user_level, mature_type_ids) {
            let ghost old_newly = newly@;
            newly.push(t.id);
            proof {
                assert(newly@ == old_newly.push(types@[i as int].id));
                assert forall|id: i32| #[trigger] newly@.contains(id) implies exists|k: int|
                    0 <= k < i + 1 && (#[trigger] types@[k]).id == id && spec_should_unlock(
                        types@[k],
                        unlocked_ids@,
                        user_level as int,
                        mature_type_ids@,
                    ) by {
                    let w = choose|w: int| 0 <= w < newly@.len() && newly@[w] == id;
                    if w < old_newly.len() {
                        assert(old_newly.contains(id));
                    } else {
                        assert(id == types@[i as int].id);
                    }
                }
                assert forall|id: i32|
                    (exists|k: int|
                        0 <= k < i + 1 && (#[trigger] types@[k]).id == id && spec_should_unlock(
                            types@[k],
                            unlocked_ids@,
                            user_level as int,
                            mature_type_ids@,
                        )) implies #[trigger] newly@.contains(id) by {
                    let k = choose|k: int|
                        0 <= k < i + 1 && (#[trigger] types@[k]).id == id && spec_should_unlock(
                            types@[k],
                            unlocked_ids@,
                            user_level as int,
                            mature_type_ids@,
                        );
                    if k < i {
                        assert(old_newly.contains(id));
                        let w = choose|w: int| 0 <= w < old_newly.len() && old_newly[w] == id;
                        assert(newly@[w] == id);
                    } else {
                        assert(newly@[newly@.len() - 1] == id);
                    }
                }
                assert forall|a: int, b: int|
                    0 <= a < b < newly@.len() implies (#[trigger] newly@[a]) != (#[trigger] newly@[b]) by {
                    if b == newly@.len() - 1 {
                        assert(old_newly.contains(old_newly[a]));
                    }
                }
            }
        } else {
            proof {
                assert forall|id: i32| #[trigger] newly@.contains(id) implies exists|k: int|
                    0 <= k < i + 1 && (#[trigger] types@[k]).id == id && spec_should_unlock(
                        types@[k],
                        unlocked_ids@,
                        user_level as int,
                        mature_type_ids@,
                    ) by {
                    let k = choose|k: int|
                        0 <= k < i && (#[trigger] types@[k]).id == id && spec_should_unlock(
                            types@[k],
                            unlocked_ids@,
                            user_level as int,
                            mature_type_ids@,
                        );
                    assert(0 <= k < i + 1 && types@[k].id == id);
                }
                assert forall|id: i32|
                    (exists|k: int|
                        0 <= k < i + 1 && (#[trigger] types@[k]).id == id && spec_should_unlock(
                            types@[k],
                            unlocked_ids@,
                            user_level as int,
                            mature_type_ids@,
                        )) implies #[trigger] newly@.contains(id) by {
                    let k = choose|k: int|
                        0 <= k < i + 1 && (#[trigger] types@[k]).id == id && spec_should_unlock(
                            types@[k],
                            unlocked_ids@,
                            user_level as int,
                            mature_type_ids@,
                        );
                    assert(k < i || k == i);
                    if k == i {
                        assert(!spec_should_unlock(
                            types@[k],
                            unlocked_ids@,
                            user_level as int,
                            mature_type_ids@,
                        ));
                    }
                }
            }
        }
        i = i + 1;
    }
    newly
}

/// Re-running the evaluation after recording its grants finds nothing new:
/// every type that was satisfied is now among the unlocked ids, so no type
/// should unlock again. Unlock rows therefore never duplicate.
pub proof fn lemma_unlock_evaluation_idempotent(
    types: Seq<CompanionType>,
    unlocked_ids: Seq<i32>,
    newly: Seq<i32>,
    user_level: int,
    mature_type_ids: Seq<i32>,
)
    requires
        forall|id: i32|
            #[trigger] newly.contains(id) <==> exists|k: int|
                0 <= k < types.len() && (#[trigger] types[k]).id == id && spec_should_unlock(
                    types[k],
                    unlocked_ids,
                    user_level,
                    mature_type_ids,
                ),
    ensures
        forall|k: int|
            0 <= k < types.len() ==> !spec_should_unlock(
                #[trigger] types[k],
                unlocked_ids + newly,
                user_level,
                mature_type_ids,
            ),
{
    assert forall|k: int|
        0 <= k < types.len() implies !spec_should_unlock(
        #[trigger] types[k],
        unlocked_ids + newly,
        user_level,
        mature_type_ids,
    ) by {
        let t = types[k];
        if spec_should_unlock(t, unlocked_ids + newly, user_level, mature_type_ids) {
            if unlocked_ids.contains(t.id) {
                let w = choose|w: int| 0 <= w < unlocked_ids.len() && unlocked_ids[w] == t.id;
                assert((unlocked_ids + newly)[w] == t.id);
            } else {
                assert(spec_should_unlock(t, unlocked_ids, user_level, mature_type_ids));
                assert(newly.contains(t.id));
                let w = choose|w: int| 0 <= w < newly.len() && newly[w] == t.id;
                assert((unlocked_ids + newly)[unlocked_ids.len() + w] == t.id);
            }
        }
    }
}

/// What stands between a user and a locked companion type, as shown on the
/// barn screen.
#[derive(Clone, Copy, PartialEq, Eq, Structural, Debug)]
pub enum UnlockProgress {
    /// The predicate is already satisfied.
    Ready,
    /// The user must reach `required` (they are at `current`).
    NeedUserLevel { required: i32, current: i32 },
    /// A companion of this type must first be raised to maturity.
    NeedMaturePet { required_type_id: i32 },
}

/// The progress report a type's rule produces: ready when its predicate
/// holds or it never gates anything, else what is still missing.
pub open spec fn spec_unlock_progress(t: CompanionType, user_level: int,
    mature_type_ids: Seq<i32>) -> UnlockProgress {
    match t.rule {
        UnlockRule::UserLevel { required_level } => {
            if user_level >= required_level {
                UnlockProgress::Ready
            } else {
                UnlockProgress::NeedUserLevel { required: required_level, current: user_level as i32 }
            }
        },
        UnlockRule::PetGrowth { required_type_id } => {
            if mature_type_ids.contains(required_type_id) {
                UnlockProgress::Ready
            } else {
                UnlockProgress::NeedMaturePet { required_type_id }
            }
        },
        _ => UnlockProgress::Ready,
    }
}

/// Progress toward a type's unlock predicate, for display.
pub fn unlock_progress(t: &CompanionType, user_level: i32, mature_type_ids: &Vec<i32>) -> (r:
    UnlockProgress)
    ensures
        r == spec_unlock_progress(*t, user_level as int, mature_type_ids@),
        spec_rule_satisfied(t.rule, user_level as int, mature_type_ids@)
            && !(t.rule is Unrecognized) ==> r == UnlockProgress::Ready,
        t.rule matches UnlockRule::UserLevel { required_level } ==> (user_level < required_level
            ==> r == (UnlockProgress::NeedUserLevel {
            required: required_level,
            current: user_level,
        })),
        t.rule matches UnlockRule::PetGrowth { required_type_id } ==> (!mature_type_ids@.contains(
            required_type_id,
        ) ==> r == (UnlockProgress::NeedMaturePet { required_type_id })),
        t.rule is Default || t.rule is Unrecognized ==> r == UnlockProgress::Ready,
    {
    match &t.rule {
        UnlockRule::UserLevel { required_level } => {
            if user_level >= *required_level {
                UnlockProgress::Ready
            } else {
                UnlockProgress::NeedUserLevel { required: *required_level, current: user_level }
            }
        },
        UnlockRule::PetGrowth { required_type_id } => {
            if contains_id(mature_type_ids, *required_type_id) {
                UnlockProgress::Ready
            } else {
                UnlockProgress::NeedMaturePet { required_type_id: *required_type_id }
            }
        },
        _ => UnlockProgress::Ready,
    }
}

/// A type counts as unlocked on the barn screen if it has an unlock row, is
/// a starter, or unlocks by default.
pub open spec fn spec_is_unlocked(t: CompanionType, unlocked_ids: Seq<i32>) -> bool {
    unlocked_ids.contains(t.id) || t.is_starter || t.rule is Default
}

/// Whether a type counts as unlocked for display purposes.
pub fn is_type_unlocked(t: &CompanionType, unlocked_ids: &Vec<i32>) -> (r: bool)
    ensures
        r == spec_is_unlocked(*t, unlocked_ids@),
{
    contains_id(unlocked_ids, t.id) || t.is_starter || matches!(t.rule, UnlockRule::Default)
}

/// A locked companion type on the barn screen, with what its unlock still
/// needs.
pub struct LockedTypeEntry {
    pub type_id: i32,
    pub progress: UnlockProgress,
}

/// Sort every companion type for the barn screen: the unlocked types the
/// user does not own yet (ready to adopt), and the locked ones, each with
/// its unlock progress.
pub fn classify_barn(
    types: &Vec<CompanionType>,
    unlocked_ids: &Vec<i32>,
    owned_type_ids: &Vec<i32>,
    user_level: i32,
    mature_type_ids: &Vec<i32>,
) -> (r: (Vec<i32>, Vec<LockedTypeEntry>))
    requires
        spec_unique_ids(types@),
    ensures
        forall|id: i32|
            #[trigger] r.0@.contains(id) <==> exists|k: int|
                0 <= k < types@.len() && (#[trigger] types@[k]).id == id && spec_is_unlocked(
                    types@[k],
                    unlocked_ids@,
                ) && !owned_type_ids@.contains(id),
        forall|j: int|
            0 <= j < r.1@.len() ==> exists|k: int|
                0 <= k < types@.len() && (#[trigger] types@[k]).id == (#[trigger] r.1@[j]).type_id
                    && !spec_is_unlocked(types@[k], unlocked_ids@) && r.1@[j].progress
                    == spec_unlock_progress(types@[k], user_level as int, mature_type_ids@),
        forall|k: int|
            0 <= k < types@.len() && !spec_is_unlocked(#[trigger] types@[k], unlocked_ids@)
                ==> exists|j: int| 0 <= j < r.1@.len() && (#[trigger] r.1@[j]).type_id
                == types@[k].id,
        forall|a: int, b: int|
            0 <= a < b < r.0@.len() ==> (#[trigger] r.0@[a]) != (#[trigger] r.0@[b]),
        forall|a: int, b: int|
            0 <= a < b < r.1@.len() ==> (#[trigger] r.1@[a]).type_id != (
            #[trigger] r.1@[b]).type_id,
{
    let n: usize = types.len();
    let mut available: Vec<i32> = Vec::new();
    let mut locked: Vec<LockedTypeEntry> = Vec::new();
    let mut i: usize = 0;
    while i < n
        invariant
            0 <= i <= n,
            n == types@.len(),
            spec_unique_ids(types@),
            forall|id: i32|
                #[trigger] available@.contains(id) <==> exists|k: int|
                    0 <= k < i && (#[trigger] types@[k]).id == id && spec_is_unlocked(
                        types@[k],
                        unlocked_ids@,
                    ) && !owned_type_ids@.contains(id),
            forall|j: int|
                0 <= j < locked@.len() ==> exists|k: int|
                    0 <= k < i && (#[trigger] types@[k]).id == (#[trigger] locked@[j]).type_id
                        && !spec_is_unlocked(types@[k], unlocked_ids@) && locked@[j].progress
                        == spec_unlock_progress(types@[k], user_level as int, mature_type_ids@),
            forall|k: int|
                0 <= k < i && !spec_is_unlocked(#[trigger] types@[k], unlocked_ids@)
                    ==> exists|j: int| 0 <= j < locked@.len() && (#[trigger] locked@[j]).type_id
                    == types@[k].id,
            forall|a: int, b: int|
                0 <= a < b < available@.len() ==> (#[trigger] available@[a]) != (
                #[trigger] available@[b]),
            forall|a: int, b: int|
                0 <= a < b < locked@.len() ==> (#[trigger] locked@[a]).type_id != (
                #[trigger] locked@[b]).type_id,
        decreases n - i,
    {
        let t: &CompanionType = &types[i];
        let unlocked: bool = is_type_unlocked(t, unlocked_ids);
        if unlocked {
            if !contains_id(owned_type_ids, t.id) {
                let ghost old_available = available@;
                available.push(t.id);
                proof {
                    assert forall|id: i32| #[trigger] available@.contains(id) implies exists|
                        k: int,
                    |
                        0 <= k < i + 1 && (#[trigger] types@[k]).id == id && spec_is_unlocked(
                            types@[k],
                            unlocked_ids@,
                        ) && !owned_type_ids@.contains(id) by {
                        let w = choose|w: int| 0 <= w < available@.len() && available@[w] == id;
                        if w < old_available.len() {
                            assert(old_available.contains(id));
                        } else {
                            assert(id == types@[i as int].id);
                        }
                    }
                    assert forall|id: i32|
                        (exists|k: int|
                            0 <= k < i + 1 && (#[trigger] types@[k]).id == id && spec_is_unlocked(
                                types@[k],
                                unlocked_ids@,
                            ) && !owned_type_ids@.contains(id)) implies #[trigger] available@
                        .contains(id) by {
                        let k = choose|k: int|
                            0 <= k < i + 1 && (#[trigger] types@[k]).id == id && spec_is_unlocked(
                                types@[k],
                                unlocked_ids@,
                            ) && !owned_type_ids@.contains(id);
                        if k < i {
                            assert(old_available.contains(id));
                            let w = choose|w: int|
                                0 <= w < old_available.len() && old_available[w] == id;
                            assert(available@[w] == id);
                        } else {
                            assert(available@[available@.len() - 1] == id);
                        }
                    }
                    assert forall|a: int, b: int|
                        0 <= a < b < available@.len() implies (#[trigger] available@[a]) != (
                    #[trigger] available@[b]) by {
                        if b == available@.len() - 1 {
                            assert(old_available.contains(old_available[a]));
                        }
                    }
                }
            } else {
                proof {
                    assert forall|id: i32|
                        (exists|k: int|
                            0 <= k < i + 1 && (#[trigger] types@[k]).id == id && spec_is_unlocked(
                                types@[k],
                                unlocked_ids@,
                            ) && !owned_type_ids@.contains(id)) implies #[trigger] available@
                        .contains(id) by {
                        let k = choose|k: int|
                            0 <= k < i + 1 && (#[trigger] types@[k]).id == id && spec_is_unlocked(
                                types@[k],
                                unlocked_ids@,
                            ) && !owned_type_ids@.contains(id);
                        assert(k < i);
                    }
                }
            }
        } else {
            let progress: UnlockProgress = unlock_progress(t, user_level, mature_type_ids);
            let ghost old_locked = locked@;
            locked.push(LockedTypeEntry { type_id: t.id, progress });
            proof {
                assert(locked@ =~= old_locked.push(
                    LockedTypeEntry {
                        type_id: types@[i as int].id,
                        progress: spec_unlock_progress(
                            types@[i as int],
                            user_level as int,
                            mature_type_ids@,
                        ),
                    },
                ));
                assert forall|id: i32|
                    (exists|k: int|
                        0 <= k < i + 1 && (#[trigger] types@[k]).id == id && spec_is_unlocked(
                            types@[k],
                            unlocked_ids@,
                        ) && !owned_type_ids@.contains(id)) implies #[trigger] available@.contains(
                    id,
                ) by {
                    let k = choose|k: int|
                        0 <= k < i + 1 && (#[trigger] types@[k]).id == id && spec_is_unlocked(
                            types@[k],
                            unlocked_ids@,
                        ) && !owned_type_ids@.contains(id);
                    assert(k < i);
                }
                assert forall|k: int|
                    0 <= k < i + 1 && !spec_is_unlocked(
                        #[trigger] types@[k],
                        unlocked_ids@,
                    ) implies exists|j: int|
                    0 <= j < locked@.len() && (#[trigger] locked@[j]).type_id == types@[k].id by {
                    if k < i {
                        let j = choose|j: int|
                            0 <= j < old_locked.len() && (#[trigger] old_locked[j]).type_id
                                == types@[k].id;
                        assert(locked@[j].type_id == types@[k].id);
                    } else {
                        assert(locked@[locked@.len() - 1].type_id == types@[k].id);
                    }
                }
                assert forall|a: int, b: int|
                    0 <= a < b < locked@.len() implies (#[trigger] locked@[a]).type_id != (
                #[trigger] locked@[b]).type_id by {
                    if b == locked@.len() - 1 {
                        let k = choose|k: int|
                            0 <= k < i && (#[trigger] types@[k]).id == old_locked[a].type_id
                                && !spec_is_unlocked(types@[k], unlocked_ids@)
                                && old_locked[a].progress == spec_unlock_progress(
                                types@[k],
                                user_level as int,
                                mature_type_ids@,
                            );
                        assert(types@[k].id != types@[i as int].id);
                    }
                }
            }
        }
        i = i + 1;
    }
    (available, locked)
}

} // verus!
