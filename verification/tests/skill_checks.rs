use three_d20::rolls::{
    get_cost_for_roll, get_quality_level, get_remaining_skill_points,
    get_remaining_skill_points_fast, is_botch, is_critical_success, is_spectacular_botch,
    is_spectacular_success, skill_check, skill_check_fast, RemainingSkillPoints, SkillCheckResult,
};

#[test]
fn three_twenties_is_spectacular_botch() {
    let result = skill_check(&[20, 20, 20], &[10, 10, 10], 5, 0);
    assert_eq!(result, SkillCheckResult::SpectacularBotch);
}

#[test]
fn two_twenties_is_botch() {
    assert_eq!(skill_check(&[20, 20, 5], &[10, 10, 10], 5, 0), SkillCheckResult::Botch);
    assert_eq!(skill_check(&[20, 4, 20], &[10, 10, 10], 5, 0), SkillCheckResult::Botch);
    assert_eq!(skill_check(&[4, 20, 20], &[10, 10, 10], 5, 0), SkillCheckResult::Botch);
}

#[test]
fn two_ones_is_critical_success() {
    // Quality tier comes from the raw skill points (ceil(7 / 3) = 3) and the
    // trajectory repeats them unchanged; the cost model is bypassed.
    let expected = SkillCheckResult::CriticalSuccess {
        quality_level: 3,
        remaining_skill_points: RemainingSkillPoints { first: 7, second: 7, third: 7 },
    };
    assert_eq!(skill_check(&[1, 1, 20], &[10, 10, 10], 7, 0), expected);
    assert_eq!(skill_check(&[1, 20, 1], &[10, 10, 10], 7, 0), expected);
    assert_eq!(skill_check(&[20, 1, 1], &[10, 10, 10], 7, 0), expected);
}

#[test]
fn all_ones_is_indistinguishable_from_two_ones() {
    // The spectacular-success branch sits behind the critical-success pattern
    // in the precedence order, so the all-ones roll classifies exactly like a
    // two-ones roll.
    let all_ones = skill_check(&[1, 1, 1], &[10, 10, 10], 7, 0);
    let two_ones = skill_check(&[1, 1, 5], &[10, 10, 10], 7, 0);
    assert_eq!(all_ones, two_ones);
    assert!(matches!(all_ones, SkillCheckResult::CriticalSuccess { .. }));
}

#[test]
fn critical_success_with_negative_pool_has_tier_zero() {
    let result = skill_check(&[1, 20, 1], &[10, 10, 10], -3, 0);
    let expected = SkillCheckResult::CriticalSuccess {
        quality_level: 0,
        remaining_skill_points: RemainingSkillPoints { first: -3, second: -3, third: -3 },
    };
    assert_eq!(result, expected);
}

#[test]
fn quality_tier_values() {
    assert_eq!(get_quality_level(-1), 0);
    assert_eq!(get_quality_level(0), 1);
    assert_eq!(get_quality_level(3), 1);
    assert_eq!(get_quality_level(4), 2);
    assert_eq!(get_quality_level(15), 5);
    assert_eq!(get_quality_level(16), 6);
    assert_eq!(get_quality_level(18), 6);
    assert_eq!(get_quality_level(100), 6);
    assert_eq!(get_quality_level(i64::MIN), 0);
    assert_eq!(get_quality_level(i64::MAX), 6);
}

#[test]
fn cost_values() {
    assert_eq!(get_cost_for_roll(10, 16, -5), 0);
    assert_eq!(get_cost_for_roll(15, 16, -5), 4);
    assert_eq!(get_cost_for_roll(1, 10, -15), 6);
    assert_eq!(get_cost_for_roll(20, i32::MIN, 0), 20 - i32::MIN as i64);
}

#[test]
fn trajectory_deducts_in_die_order() {
    // Costs 5, 0, 0 against costs 0, 0, 5: the final balance agrees but the
    // intermediate balances depend on the fixed die order.
    assert_eq!(
        get_remaining_skill_points(&[15, 10, 10], &[10, 10, 10], 9, 0),
        RemainingSkillPoints { first: 4, second: 4, third: 4 },
    );
    assert_eq!(
        get_remaining_skill_points(&[10, 10, 15], &[10, 10, 10], 9, 0),
        RemainingSkillPoints { first: 9, second: 9, third: 4 },
    );
    assert_eq!(get_remaining_skill_points_fast(&[15, 10, 10], &[10, 10, 10], 9, 0), 4);
    assert_eq!(get_remaining_skill_points_fast(&[10, 10, 15], &[10, 10, 10], 9, 0), 4);
}

#[test]
fn end_to_end_demo_configuration() {
    // Attributes [16, 16, 14], skill points 13, modifier -5, rolls
    // [10, 10, 10]: thresholds 11, 11, 9, so costs 0, 0, 1, trajectory
    // [13, 13, 12] and tier ceil(12 / 3) = 4.
    let result = skill_check(&[10, 10, 10], &[16, 16, 14], 13, -5);
    let expected = SkillCheckResult::Success {
        quality_level: 4,
        remaining_skill_points: RemainingSkillPoints { first: 13, second: 13, third: 12 },
    };
    assert_eq!(result, expected);
}

#[test]
fn failed_check_keeps_its_trajectory() {
    // Costs 9, 0, 8 against a pool of 5: the balance ends at -12 and the
    // check fails.
    let result = skill_check(&[19, 2, 18], &[10, 10, 10], 5, 0);
    let expected = SkillCheckResult::Fail {
        remaining_skill_points: RemainingSkillPoints { first: -4, second: -4, third: -12 },
    };
    assert_eq!(result, expected);
}

#[test]
fn classification_is_idempotent() {
    let rolls = [12, 3, 17];
    let attributes = [11, 13, 12];
    let first = skill_check(&rolls, &attributes, 6, -2);
    let second = skill_check(&rolls, &attributes, 6, -2);
    assert_eq!(first, second);
}

#[test]
fn pattern_predicates() {
    assert!(is_botch(&[20, 20, 3]));
    assert!(is_botch(&[20, 20, 20]));
    assert!(!is_botch(&[20, 3, 3]));
    assert!(is_spectacular_botch(&[20, 20, 20]));
    assert!(!is_spectacular_botch(&[20, 20, 19]));
    assert!(is_critical_success(&[1, 5, 1]));
    assert!(is_critical_success(&[1, 1, 1]));
    assert!(!is_critical_success(&[1, 5, 5]));
    assert!(is_spectacular_success(&[1, 1, 1]));
    assert!(!is_spectacular_success(&[1, 1, 2]));
}

#[test]
fn fast_classifier_matches_full_classifier() {
    let attributes = [12, 14, 10];
    let skill_points = 8;
    let modifier = -1;
    for d1 in 1..=20 {
        for d2 in 1..=20 {
            for d3 in 1..=20 {
                let rolls = [d1, d2, d3];
                let fast = skill_check_fast(&rolls, &attributes, skill_points, modifier);
                let full = match skill_check(&rolls, &attributes, skill_points, modifier) {
                    SkillCheckResult::SpectacularBotch => 0,
                    SkillCheckResult::Botch => 0,
                    SkillCheckResult::Fail { .. } => 0,
                    SkillCheckResult::Success { quality_level, .. } => quality_level,
                    SkillCheckResult::CriticalSuccess { quality_level, .. } => quality_level,
                    SkillCheckResult::SpectacularSuccess { quality_level, .. } => quality_level,
                };
                assert_eq!(fast, full);
            }
        }
    }
}
