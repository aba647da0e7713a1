//! The cost model, the quality mapper and the outcome classifier for a single
//! skill check: three twenty-sided dice against three attribute scores, paid
//! for out of a shared pool of skill points.
//!
//! Numeric contract: callers hand in `i32` values (die results, attributes,
//! skill points, modifier); everything derived from them (costs, remaining
//! skill points, quality tiers) is computed as `i64`, which is wide enough
//! that no intermediate value can wrap for any `i32` inputs. Every function
//! here is therefore total: there are no preconditions.

use vstd::prelude::*;

verus! {

/// A roll of three twenty-sided dice, in the order their costs are deducted.
pub type Rolls = [i32; 3];

/// The three attribute scores, one per die position.
pub type Attributes = [i32; 3];

/// The cost of one die: how far the roll exceeds the attribute adjusted by
/// the modifier, floored at zero.
pub open spec fn spec_cost(roll: int, attribute: int, modifier: int) -> int {
    if roll > attribute + modifier {
        roll - (attribute + modifier)
    } else {
        0
    }
}

/// The quality tier earned by a remaining-points balance: 0 for a negative
/// balance, otherwise the ceiling of `remainder / 3` clamped to `[1, 6]`.
pub open spec fn spec_quality_tier(remainder: int) -> int {
    if remainder < 0 {
        0
    } else {
        let tier = (remainder + 2) / 3;
        if tier < 1 {
            1
        } else if tier > 6 {
            6
        } else {
            tier
        }
    }
}

/// At least two of the three dice show the value `v`.
pub open spec fn spec_two_of_three(d1: int, d2: int, d3: int, v: int) -> bool {
    (d1 == v && d2 == v) || (d1 == v && d3 == v) || (d2 == v && d3 == v)
}

/// All three dice show the value `v`.
pub open spec fn spec_all_three(d1: int, d2: int, d3: int, v: int) -> bool {
    d1 == v && d2 == v && d3 == v
}

/// At least two dice show 20: the roll is a botch.
pub open spec fn spec_is_botch(rolls: Rolls) -> bool {
    spec_two_of_three(rolls[0] as int, rolls[1] as int, rolls[2] as int, 20)
}

/// All three dice show 20: the roll is a spectacular botch.
pub open spec fn spec_is_spectacular_botch(rolls: Rolls) -> bool {
    spec_all_three(rolls[0] as int, rolls[1] as int, rolls[2] as int, 20)
}

/// At least two dice show 1: the roll is a critical success.
pub open spec fn spec_is_critical_success(rolls: Rolls) -> bool {
    spec_two_of_three(rolls[0] as int, rolls[1] as int, rolls[2] as int, 1)
}

/// All three dice show 1: the roll is a spectacular success.
pub open spec fn spec_is_spectacular_success(rolls: Rolls) -> bool {
    spec_all_three(rolls[0] as int, rolls[1] as int, rolls[2] as int, 1)
}

pub fn is_botch(rolls: &Rolls) -> (botch: bool)
    ensures
        botch == spec_is_botch(*rolls),
{
    (rolls[0] == 20 && rolls[1] == 20) || (rolls[0] == 20 && rolls[2] == 20) || (rolls[1] == 20
        && rolls[2] == 20)
}

pub fn is_spectacular_botch(rolls: &Rolls) -> (spectacular: bool)
    ensures
        spectacular == spec_is_spectacular_botch(*rolls),
{
    rolls[0] == 20 && rolls[1] == 20 && rolls[2] == 20
}

pub fn is_critical_success(rolls: &Rolls) -> (critical: bool)
    ensures
        critical == spec_is_critical_success(*rolls),
{
    (rolls[0] == 1 && rolls[1] == 1) || (rolls[0] == 1 && rolls[2] == 1) || (rolls[1] == 1
        && rolls[2] == 1)
}

pub fn is_spectacular_success(rolls: &Rolls) -> (spectacular: bool)
    ensures
        spectacular == spec_is_spectacular_success(*rolls),
{
    rolls[0] == 1 && rolls[1] == 1 && rolls[2] == 1
}

pub fn get_quality_level(remainder: i64) -> (quality: i64)
    ensures
        quality == spec_quality_tier(remainder as int),
        0 <= quality <= 6,
{
    if remainder < 0 {
        0
    } else if remainder <= 3 {
        1
    } else if remainder <= 6 {
        2
    } else if remainder <= 9 {
        3
    } else if remainder <= 12 {
        4
    } else if remainder <= 15 {
        5
    } else {
        6
    }
}

pub fn get_cost_for_roll(roll: i32, attribute: i32, modifier: i32) -> (cost: i64)
    ensures
        cost == spec_cost(roll as int, attribute as int, modifier as int),
        0 <= cost,
{
    let threshold: i64 = attribute as i64 + modifier as i64;
    if roll as i64 > threshold {
        roll as i64 - threshold
    } else {
        0
    }
}

/// The running balance of the skill-point pool after paying for die 1, then
/// dice 1 and 2, then all three dice, in that fixed order. Balances may go
/// negative.
#[derive(Clone, Copy, Debug, PartialEq, Eq, Structural)]
pub struct RemainingSkillPoints {
    pub first: i64,
    pub second: i64,
    pub third: i64,
}

/// The balance of the pool after the last die is paid for, as a function of
/// the three dice alone; costs are deducted in die order.
pub open spec fn spec_final_remainder(
    d1: int,
    d2: int,
    d3: int,
    a1: int,
    a2: int,
    a3: int,
    skill_points: int,
    modifier: int,
) -> int {
    skill_points - spec_cost(d1, a1, modifier) - spec_cost(d2, a2, modifier) - spec_cost(
        d3,
        a3,
        modifier,
    )
}

/// The whole remaining-points trajectory for a roll.
pub open spec fn spec_remaining_skill_points(
    rolls: Rolls,
    attributes: Attributes,
    skill_points: i32,
    modifier: i32,
) -> RemainingSkillPoints {
    let first = skill_points - spec_cost(rolls[0] as int, attributes[0] as int, modifier as int);
    let second = first - spec_cost(rolls[1] as int, attributes[1] as int, modifier as int);
    let third = second - spec_cost(rolls[2] as int, attributes[2] as int, modifier as int);
    RemainingSkillPoints { first: first as i64, second: second as i64, third: third as i64 }
}

pub fn get_remaining_skill_points(
    rolls: &Rolls,
    attributes: &Attributes,
    skill_points: i32,
    modifier: i32,
) -> (remaining: RemainingSkillPoints)
    ensures
        remaining == spec_remaining_skill_points(*rolls, *attributes, skill_points, modifier),
{
    let first = skill_points as i64 - get_cost_for_roll(rolls[0], attributes[0], modifier);
    let second = first - get_cost_for_roll(rolls[1], attributes[1], modifier);
    let third = second - get_cost_for_roll(rolls[2], attributes[2], modifier);
    RemainingSkillPoints { first, second, third }
}

pub fn get_remaining_skill_points_fast(
    rolls: &Rolls,
    attributes: &Attributes,
    skill_points: i32,
    modifier: i32,
) -> (remainder: i64)
    ensures
        remainder == spec_final_remainder(
            rolls[0] as int,
            rolls[1] as int,
            rolls[2] as int,
            attributes[0] as int,
            attributes[1] as int,
            attributes[2] as int,
            skill_points as int,
            modifier as int,
        ),
{
    skill_points as i64 - get_cost_for_roll(rolls[0], attributes[0], modifier)
        - get_cost_for_roll(rolls[1], attributes[1], modifier)
        - get_cost_for_roll(rolls[2], attributes[2], modifier)
}

/// The tagged outcome of one skill check. Exactly one variant holds; the two
/// botch variants terminate the check before any cost accounting, so they
/// carry no trajectory.
#[derive(Clone, Copy, Debug, PartialEq, Eq, Structural)]
pub enum SkillCheckResult {
    SpectacularBotch,
    Botch,
    Fail { remaining_skill_points: RemainingSkillPoints },
    Success { quality_level: i64, remaining_skill_points: RemainingSkillPoints },
    CriticalSuccess { quality_level: i64, remaining_skill_points: RemainingSkillPoints },
    SpectacularSuccess { quality_level: i64, remaining_skill_points: RemainingSkillPoints },
}

/// The classifier's rule, in its fixed precedence order: spectacular botch,
/// botch, critical success, spectacular success, then the cost model. The
/// spectacular-success branch can never be reached, because every all-ones
/// roll already satisfies the critical-success pattern tested just before it;
/// the branch is kept so that the precedence order is stated in full.
pub open spec fn spec_skill_check(
    rolls: Rolls,
    attributes: Attributes,
    skill_points: i32,
    modifier: i32,
) -> SkillCheckResult {
    if spec_is_spectacular_botch(rolls) {
        SkillCheckResult::SpectacularBotch
    } else if spec_is_botch(rolls) {
        SkillCheckResult::Botch
    } else if spec_is_critical_success(rolls) {
        SkillCheckResult::CriticalSuccess {
            quality_level: spec_quality_tier(skill_points as int) as i64,
            remaining_skill_points: RemainingSkillPoints {
                first: skill_points as i64,
                second: skill_points as i64,
                third: skill_points as i64,
            },
        }
    } else if spec_is_spectacular_success(rolls) {
        SkillCheckResult::SpectacularSuccess {
            quality_level: spec_quality_tier(skill_points as int) as i64,
            remaining_skill_points: RemainingSkillPoints {
                first: skill_points as i64,
                second: skill_points as i64,
                third: skill_points as i64,
            },
        }
    } else {
        let remaining = spec_remaining_skill_points(rolls, attributes, skill_points, modifier);
        let quality = spec_quality_tier(remaining.third as int);
        if quality > 0 {
            SkillCheckResult::Success {
                quality_level: quality as i64,
                remaining_skill_points: remaining,
            }
        } else {
            SkillCheckResult::Fail { remaining_skill_points: remaining }
        }
    }
}

pub fn skill_check(
    rolls: &Rolls,
    attributes: &Attributes,
    skill_points: i32,
    modifier: i32,
) -> (result: SkillCheckResult)
    ensures
        result == spec_skill_check(*rolls, *attributes, skill_points, modifier),
{
    if is_spectacular_botch(rolls) {
        SkillCheckResult::SpectacularBotch
    } else if is_botch(rolls) {
        SkillCheckResult::Botch
    } else if is_critical_success(rolls) {
        SkillCheckResult::CriticalSuccess {
            quality_level: get_quality_level(skill_points as i64),
            remaining_skill_points: RemainingSkillPoints {
                first: skill_points as i64,
                second: skill_points as i64,
                third: skill_points as i64,
            },
        }
    } else if is_spectacular_success(rolls) {
        SkillCheckResult::SpectacularSuccess {
            quality_level: get_quality_level(skill_points as i64),
            remaining_skill_points: RemainingSkillPoints {
                first: skill_points as i64,
                second: skill_points as i64,
                third: skill_points as i64,
            },
        }
    } else {
        let remaining_skill_points = get_remaining_skill_points(
            rolls,
            attributes,
            skill_points,
            modifier,
        );
        let quality_level = get_quality_level(remaining_skill_points.third);
        if quality_level > 0 {
            SkillCheckResult::Success { quality_level, remaining_skill_points }
        } else {
            SkillCheckResult::Fail { remaining_skill_points }
        }
    }
}

/// The streamlined classifier used for bulk estimation: the same precedence
/// order, collapsed to the bare quality tier, with 0 standing for spectacular
/// botch, botch and fail alike. Defined over the die values alone so that the
/// probability estimator can speak of every triple of the sample space.
pub open spec fn spec_check_tier(
    d1: int,
    d2: int,
    d3: int,
    a1: int,
    a2: int,
    a3: int,
    skill_points: int,
    modifier: int,
) -> int {
    if spec_two_of_three(d1, d2, d3, 20) {
        0
    } else if spec_two_of_three(d1, d2, d3, 1) {
        spec_quality_tier(skill_points)
    } else {
        spec_quality_tier(spec_final_remainder(d1, d2, d3, a1, a2, a3, skill_points, modifier))
    }
}

/// `spec_check_tier` over a whole roll value.
pub open spec fn spec_skill_check_fast(
    rolls: Rolls,
    attributes: Attributes,
    skill_points: i32,
    modifier: i32,
) -> int {
    spec_check_tier(
        rolls[0] as int,
        rolls[1] as int,
        rolls[2] as int,
        attributes[0] as int,
        attributes[1] as int,
        attributes[2] as int,
        skill_points as int,
        modifier as int,
    )
}

pub fn skill_check_fast(
    rolls: &Rolls,
    attributes: &Attributes,
    skill_points: i32,
    modifier: i32,
) -> (quality: i64)
    ensures
        quality == spec_skill_check_fast(*rolls, *attributes, skill_points, modifier),
        0 <= quality <= 6,
{
    if is_spectacular_botch(rolls) || is_botch(rolls) {
        0
    } else if is_critical_success(rolls) || is_spectacular_success(rolls) {
        get_quality_level(skill_points as i64)
    } else {
        let remainder = get_remaining_skill_points_fast(rolls, attributes, skill_points, modifier);
        get_quality_level(remainder)
    }
}

/// A roll of three twenties is always classified as a spectacular botch,
/// whatever the attributes, the skill points and the modifier.
pub proof fn lemma_all_twenties_is_spectacular_botch(
    rolls: Rolls,
    attributes: Attributes,
    skill_points: i32,
    modifier: i32,
)
    requires
        rolls[0] == 20,
        rolls[1] == 20,
        rolls[2] == 20,
    ensures
        spec_skill_check(rolls, attributes, skill_points, modifier)
            == SkillCheckResult::SpectacularBotch,
{
}

/// A roll with exactly two twenties (the third die showing something else) is
/// always classified as a botch, whatever the other inputs.
pub proof fn lemma_two_twenties_is_botch(
    rolls: Rolls,
    attributes: Attributes,
    skill_points: i32,
    modifier: i32,
)
    requires
        spec_is_botch(rolls),
        !spec_is_spectacular_botch(rolls),
    ensures
        spec_skill_check(rolls, attributes, skill_points, modifier) == SkillCheckResult::Botch,
{
}

/// A roll with at least two ones — the all-ones roll included — is always
/// classified as a critical success whose quality tier comes from the raw
/// skill points and whose trajectory repeats the skill points unchanged in
/// every slot. In particular the all-ones roll is indistinguishable from a
/// two-ones roll: the spectacular-success branch of the classifier sits
/// behind the critical-success pattern in the precedence order and can never
/// fire.
pub proof fn lemma_two_ones_is_critical_success(
    rolls: Rolls,
    attributes: Attributes,
    skill_points: i32,
    modifier: i32,
)
    requires
        spec_is_critical_success(rolls),
    ensures
        spec_skill_check(rolls, attributes, skill_points, modifier)
            == (SkillCheckResult::CriticalSuccess {
            quality_level: spec_quality_tier(skill_points as int) as i64,
            remaining_skill_points: RemainingSkillPoints {
                first: skill_points as i64,
                second: skill_points as i64,
                third: skill_points as i64,
            },
        }),
{
}

/// The spectacular-success branch of the classifier is unreachable: no roll
/// is ever classified as a spectacular success under the stated precedence
/// order, because the critical-success pattern already covers the all-ones
/// roll.
pub proof fn lemma_spectacular_success_unreachable(
    rolls: Rolls,
    attributes: Attributes,
    skill_points: i32,
    modifier: i32,
)
    ensures
        !(spec_skill_check(rolls, attributes, skill_points, modifier)
            is SpectacularSuccess),
{
}

/// Classification has no hidden state: any two results that satisfy the
/// classifier's contract for the same roll, attributes, skill points and
/// modifier are identical.
pub proof fn lemma_skill_check_deterministic(
    first_result: SkillCheckResult,
    second_result: SkillCheckResult,
    rolls: Rolls,
    attributes: Attributes,
    skill_points: i32,
    modifier: i32,
)
    requires
        first_result == spec_skill_check(rolls, attributes, skill_points, modifier),
        second_result == spec_skill_check(rolls, attributes, skill_points, modifier),
    ensures
        first_result == second_result,
{
}

/// The streamlined classifier agrees with the full one: it returns exactly
/// the quality tier of the full result, with 0 for the three tierless
/// outcomes (spectacular botch, botch and fail).
pub proof fn lemma_fast_tier_matches_check(
    rolls: Rolls,
    attributes: Attributes,
    skill_points: i32,
    modifier: i32,
)
    ensures
        spec_skill_check_fast(rolls, attributes, skill_points, modifier) == match spec_skill_check(
            rolls,
            attributes,
            skill_points,
            modifier,
        ) {
            SkillCheckResult::SpectacularBotch => 0int,
            SkillCheckResult::Botch => 0int,
            SkillCheckResult::Fail { .. } => 0int,
            SkillCheckResult::Success { quality_level, .. } => quality_level as int,
            SkillCheckResult::CriticalSuccess { quality_level, .. } => quality_level as int,
            SkillCheckResult::SpectacularSuccess { quality_level, .. } => quality_level as int,
        },
{
}

} // verus!
