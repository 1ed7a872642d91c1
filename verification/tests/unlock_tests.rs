use fithub_core::unlock::{
    classify_barn, evaluate_unlocks, is_type_unlocked, rule_satisfied, unlock_progress,
    CompanionType, UnlockProgress, UnlockRule,
};

fn sample_types() -> Vec<CompanionType> {
    vec![
        CompanionType { id: 1, is_starter: true, rule: UnlockRule::Default },
        CompanionType { id: 2, is_starter: false, rule: UnlockRule::Default },
        CompanionType { id: 3, is_starter: false, rule: UnlockRule::UserLevel { required_level: 10 } },
        CompanionType { id: 4, is_starter: false, rule: UnlockRule::PetGrowth { required_type_id: 1 } },
        CompanionType { id: 5, is_starter: false, rule: UnlockRule::Unrecognized },
    ]
}

#[test]
fn predicates_follow_the_rules() {
    let mature = vec![1];
    assert!(rule_satisfied(&UnlockRule::Default, 1, &mature));
    assert!(rule_satisfied(&UnlockRule::UserLevel { required_level: 10 }, 10, &mature));
    assert!(!rule_satisfied(&UnlockRule::UserLevel { required_level: 10 }, 9, &mature));
    assert!(rule_satisfied(&UnlockRule::PetGrowth { required_type_id: 1 }, 1, &mature));
    assert!(!rule_satisfied(&UnlockRule::PetGrowth { required_type_id: 2 }, 1, &mature));
    assert!(!rule_satisfied(&UnlockRule::Unrecognized, 1000, &mature));
}

#[test]
fn evaluation_grants_satisfied_non_starters_once() {
    let types = sample_types();
    let newly = evaluate_unlocks(&types, &vec![], 10, &vec![1]);
    // The default non-starter, the level gate at 10, and the pet-growth
    // gate with a mature type-1 companion; never the starter or the
    // unrecognised rule.
    assert_eq!(newly, vec![2, 3, 4]);
}

#[test]
fn evaluation_skips_what_is_already_unlocked() {
    let types = sample_types();
    let newly = evaluate_unlocks(&types, &vec![2, 3], 10, &vec![1]);
    assert_eq!(newly, vec![4]);
}

#[test]
fn low_level_and_no_mature_pet_unlock_nothing_gated() {
    let types = sample_types();
    let newly = evaluate_unlocks(&types, &vec![], 9, &vec![]);
    assert_eq!(newly, vec![2]);
}

#[test]
fn evaluation_is_idempotent() {
    // Running the evaluation twice with its own grants recorded in
    // between finds nothing new and duplicates no row.
    let types = sample_types();
    let mut unlocked: Vec<i32> = vec![];
    let newly = evaluate_unlocks(&types, &unlocked, 10, &vec![1]);
    unlocked.extend(newly.iter().copied());
    let again = evaluate_unlocks(&types, &unlocked, 10, &vec![1]);
    assert_eq!(again, Vec::<i32>::new());
}

#[test]
fn progress_reports_what_is_missing() {
    let level_gate = CompanionType { id: 3, is_starter: false, rule: UnlockRule::UserLevel { required_level: 10 } };
    assert_eq!(
        unlock_progress(&level_gate, 4, &vec![]),
        UnlockProgress::NeedUserLevel { required: 10, current: 4 }
    );
    assert_eq!(unlock_progress(&level_gate, 10, &vec![]), UnlockProgress::Ready);
    let growth_gate = CompanionType { id: 4, is_starter: false, rule: UnlockRule::PetGrowth { required_type_id: 7 } };
    assert_eq!(
        unlock_progress(&growth_gate, 1, &vec![]),
        UnlockProgress::NeedMaturePet { required_type_id: 7 }
    );
    assert_eq!(unlock_progress(&growth_gate, 1, &vec![7]), UnlockProgress::Ready);
}

#[test]
fn the_barn_sorts_types_into_available_and_locked() {
    let types = sample_types();
    // Level 4, no mature companion, type 1 already owned, nothing granted.
    let (available, locked) = classify_barn(&types, &vec![], &vec![1], 4, &vec![]);
    // The starter is owned; the default non-starter is free to adopt.
    assert_eq!(available, vec![2]);
    assert_eq!(locked.len(), 3);
    assert_eq!(locked[0].type_id, 3);
    assert_eq!(
        locked[0].progress,
        UnlockProgress::NeedUserLevel { required: 10, current: 4 }
    );
    assert_eq!(locked[1].type_id, 4);
    assert_eq!(locked[1].progress, UnlockProgress::NeedMaturePet { required_type_id: 1 });
    assert_eq!(locked[2].type_id, 5);
    assert_eq!(locked[2].progress, UnlockProgress::Ready);
    // Once granted, a gated type moves over to the available list.
    let (available, locked) = classify_barn(&types, &vec![3], &vec![1], 4, &vec![]);
    assert_eq!(available, vec![2, 3]);
    assert_eq!(locked.len(), 2);
}

#[test]
fn display_unlock_state_counts_starters_and_defaults() {
    let starter = CompanionType { id: 1, is_starter: true, rule: UnlockRule::Unrecognized };
    let default = CompanionType { id: 2, is_starter: false, rule: UnlockRule::Default };
    let gated = CompanionType { id: 3, is_starter: false, rule: UnlockRule::UserLevel { required_level: 10 } };
    assert!(is_type_unlocked(&starter, &vec![]));
    assert!(is_type_unlocked(&default, &vec![]));
    assert!(!is_type_unlocked(&gated, &vec![]));
    assert!(is_type_unlocked(&gated, &vec![3]));
}
