//! The probability estimator: it enumerates all 8000 ordered triples of die
//! values in `[1, 20]`, classifies each with the streamlined classifier, and
//! tallies how many triples reach each quality tier.
//!
//! Probabilities are kept as exact counts out of the fixed sample-space size
//! of 8000; a consumer that wants ratios divides by `SAMPLE_SPACE_SIZE`.
//! Counting rule: a triple is tallied — both in the success counter and in
//! its tier's slot — only when its tier is strictly greater than
//! `SUCCESS_TIER_THRESHOLD`, so tier-1 successes are left out of both and the
//! tier-1 slot stays at zero.

use vstd::prelude::*;

use crate::rolls::{skill_check_fast, spec_check_tier, spec_skill_check_fast, Attributes, Rolls};

verus! {

/// The number of ordered die triples for three twenty-sided dice.
pub const SAMPLE_SPACE_SIZE: u16 = 8000;

/// The counting rule's threshold: only quality tiers strictly above it are
/// tallied as successes.
pub const SUCCESS_TIER_THRESHOLD: i64 = 1;

/// The quality tier of the triple `(d1, d2, d3)` under the fixed attributes,
/// skill points and modifier.
pub open spec fn spec_tier_of(
    d1: int,
    d2: int,
    d3: int,
    attributes: Attributes,
    skill_points: i32,
    modifier: i32,
) -> int {
    spec_check_tier(
        d1,
        d2,
        d3,
        attributes[0] as int,
        attributes[1] as int,
        attributes[2] as int,
        skill_points as int,
        modifier as int,
    )
}

/// How many values of the third die in `[1, hi]` give the triple
/// `(d1, d2, _)` exactly the quality tier `tier`.
pub open spec fn tier_count_d3(
    d1: int,
    d2: int,
    hi: int,
    tier: int,
    attributes: Attributes,
    skill_points: i32,
    modifier: i32,
) -> int
    decreases hi,
{
    if hi < 1 {
        0
    } else {
        tier_count_d3(d1, d2, hi - 1, tier, attributes, skill_points, modifier) + if spec_tier_of(
            d1,
            d2,
            hi,
            attributes,
            skill_points,
            modifier,
        ) == tier {
            1int
        } else {
            0int
        }
    }
}

/// How many pairs of the second and third die, with the second in `[1, hi]`
/// and the third anywhere in `[1, 20]`, give the triple `(d1, _, _)` exactly
/// the quality tier `tier`.
pub open spec fn tier_count_d2(
    d1: int,
    hi: int,
    tier: int,
    attributes: Attributes,
    skill_points: i32,
    modifier: i32,
) -> int
    decreases hi,
{
    if hi < 1 {
        0
    } else {
        tier_count_d2(d1, hi - 1, tier, attributes, skill_points, modifier) + tier_count_d3(
            d1,
            hi,
            20,
            tier,
            attributes,
            skill_points,
            modifier,
        )
    }
}

/// How many ordered die triples, with the first die in `[1, hi]` and the
/// other two anywhere in `[1, 20]`, have exactly the quality tier `tier`.
/// `tier_count(20, tier, ...)` counts the whole sample space.
pub open spec fn tier_count(
    hi: int,
    tier: int,
    attributes: Attributes,
    skill_points: i32,
    modifier: i32,
) -> int
    decreases hi,
{
    if hi < 1 {
        0
    } else {
        tier_count(hi - 1, tier, attributes, skill_points, modifier) + tier_count_d2(
            hi,
            20,
            tier,
            attributes,
            skill_points,
            modifier,
        )
    }
}

/// The per-tier counts of one configuration, over the whole sample space of
/// `SAMPLE_SPACE_SIZE` ordered die triples. `success` is the number of
/// triples tallied by the counting rule, and `quality[t - 1]` the number of
/// them whose tier is exactly `t`; the slot for tier 1 always holds zero.
#[derive(Clone, Copy, Debug, PartialEq, Eq)]
pub struct Chance {
    pub success: u16,
    pub quality: [u16; 6],
}

/// A tier is reached by at most one of the five counted slots: for any prefix
/// of the third die's range, the slot counts for tiers 2 through 6 sum to at
/// most the number of triples counted.
proof fn lemma_tier_count_d3_sum(
    d1: int,
    d2: int,
    hi: int,
    attributes: Attributes,
    skill_points: i32,
    modifier: i32,
)
    requires
        0 <= hi,
    ensures
        tier_count_d3(d1, d2, hi, 2, attributes, skill_points, modifier) + tier_count_d3(
            d1,
            d2,
            hi,
            3,
            attributes,
            skill_points,
            modifier,
        ) + tier_count_d3(d1, d2, hi, 4, attributes, skill_points, modifier) + tier_count_d3(
            d1,
            d2,
            hi,
            5,
            attributes,
            skill_points,
            modifier,
        ) + tier_count_d3(d1, d2, hi, 6, attributes, skill_points, modifier) <= hi,
    decreases hi,
{
    if hi >= 1 {
        lemma_tier_count_d3_sum(d1, d2, hi - 1, attributes, skill_points, modifier);
    }
}

proof fn lemma_tier_count_d2_sum(
    d1: int,
    hi: int,
    attributes: Attributes,
    skill_points: i32,
    modifier: i32,
)
    requires
        0 <= hi,
    ensures
        tier_count_d2(d1, hi, 2, attributes, skill_points, modifier) + tier_count_d2(
            d1,
            hi,
            3,
            attributes,
            skill_points,
            modifier,
        ) + tier_count_d2(d1, hi, 4, attributes, skill_points, modifier) + tier_count_d2(
            d1,
            hi,
            5,
            attributes,
            skill_points,
            modifier,
        ) + tier_count_d2(d1, hi, 6, attributes, skill_points, modifier) <= 20 * hi,
    decreases hi,
{
    if hi >= 1 {
        lemma_tier_count_d2_sum(d1, hi - 1, attributes, skill_points, modifier);
        lemma_tier_count_d3_sum(d1, hi, 20, attributes, skill_points, modifier);
    }
}

proof fn lemma_tier_count_sum(hi: int, attributes: Attributes, skill_points: i32, modifier: i32)
    requires
        0 <= hi,
    ensures
        tier_count(hi, 2, attributes, skill_points, modifier) + tier_count(
            hi,
            3,
            attributes,
            skill_points,
            modifier,
        ) + tier_count(hi, 4, attributes, skill_points, modifier) + tier_count(
            hi,
            5,
            attributes,
            skill_points,
            modifier,
        ) + tier_count(hi, 6, attributes, skill_points, modifier) <= 400 * hi,
    decreases hi,
{
    if hi >= 1 {
        lemma_tier_count_sum(hi - 1, attributes, skill_points, modifier);
        lemma_tier_count_d2_sum(hi, 20, attributes, skill_points, modifier);
    }
}

/// The tallies hold the given five slot counts: the tier-1 slot is zero, each
/// counted slot equals its count, and the success counter is their sum.
spec fn counters_hold(
    quality: [u16; 6],
    successes: u16,
    n2: int,
    n3: int,
    n4: int,
    n5: int,
    n6: int,
) -> bool {
    &&& quality[0] == 0
    &&& quality[1] == n2
    &&& quality[2] == n3
    &&& quality[3] == n4
    &&& quality[4] == n5
    &&& quality[5] == n6
    &&& successes == quality[1] + quality[2] + quality[3] + quality[4] + quality[5]
}

pub fn calc_chance(attributes: &Attributes, skill_points: i32, modifier: i32) -> (chance: Chance)
    ensures
        chance.quality[0] == 0,
        chance.quality[1] == tier_count(20, 2, *attributes, skill_points, modifier),
        chance.quality[2] == tier_count(20, 3, *attributes, skill_points, modifier),
        chance.quality[3] == tier_count(20, 4, *attributes, skill_points, modifier),
        chance.quality[4] == tier_count(20, 5, *attributes, skill_points, modifier),
        chance.quality[5] == tier_count(20, 6, *attributes, skill_points, modifier),
        chance.success == chance.quality[1] + chance.quality[2] + chance.quality[3]
            + chance.quality[4] + chance.quality[5],
        chance.success <= SAMPLE_SPACE_SIZE,
{
    let mut successes: u16 = 0;
    let mut quality_level_successes: [u16; 6] = [0, 0, 0, 0, 0, 0];
    for d1 in 1i32..21i32
        invariant
            counters_hold(
                quality_level_successes,
                successes,
                tier_count(d1 - 1, 2, *attributes, skill_points, modifier),
                tier_count(d1 - 1, 3, *attributes, skill_points, modifier),
                tier_count(d1 - 1, 4, *attributes, skill_points, modifier),
                tier_count(d1 - 1, 5, *attributes, skill_points, modifier),
                tier_count(d1 - 1, 6, *attributes, skill_points, modifier),
            ),
    {
        for d2 in 1i32..21i32
            invariant
                1 <= d1 <= 20,
                counters_hold(
                    quality_level_successes,
                    successes,
                    tier_count(d1 - 1, 2, *attributes, skill_points, modifier) + tier_count_d2(
                        d1 as int,
                        d2 - 1,
                        2,
                        *attributes,
                        skill_points,
                        modifier,
                    ),
                    tier_count(d1 - 1, 3, *attributes, skill_points, modifier) + tier_count_d2(
                        d1 as int,
                        d2 - 1,
                        3,
                        *attributes,
                        skill_points,
                        modifier,
                    ),
                    tier_count(d1 - 1, 4, *attributes, skill_points, modifier) + tier_count_d2(
                        d1 as int,
                        d2 - 1,
                        4,
                        *attributes,
                        skill_points,
                        modifier,
                    ),
                    tier_count(d1 - 1, 5, *attributes, skill_points, modifier) + tier_count_d2(
                        d1 as int,
                        d2 - 1,
                        5,
                        *attributes,
                        skill_points,
                        modifier,
                    ),
                    tier_count(d1 - 1, 6, *attributes, skill_points, modifier) + tier_count_d2(
                        d1 as int,
                        d2 - 1,
                        6,
                        *attributes,
                        skill_points,
                        modifier,
                    ),
                ),
        {
            for d3 in 1i32..21i32
                invariant
                    1 <= d1 <= 20,
                    1 <= d2 <= 20,
                    counters_hold(
                        quality_level_successes,
                        successes,
                        tier_count(d1 - 1, 2, *attributes, skill_points, modifier) + tier_count_d2(
                            d1 as int,
                            d2 - 1,
                            2,
                            *attributes,
                            skill_points,
                            modifier,
                        ) + tier_count_d3(
                            d1 as int,
                            d2 as int,
                            d3 - 1,
                            2,
                            *attributes,
                            skill_points,
                            modifier,
                        ),
                        tier_count(d1 - 1, 3, *attributes, skill_points, modifier) + tier_count_d2(
                            d1 as int,
                            d2 - 1,
                            3,
                            *attributes,
                            skill_points,
                            modifier,
                        ) + tier_count_d3(
                            d1 as int,
                            d2 as int,
                            d3 - 1,
                            3,
                            *attributes,
                            skill_points,
                            modifier,
                        ),
                        tier_count(d1 - 1, 4, *attributes, skill_points, modifier) + tier_count_d2(
                            d1 as int,
                            d2 - 1,
                            4,
                            *attributes,
                            skill_points,
                            modifier,
                        ) + tier_count_d3(
                            d1 as int,
                            d2 as int,
                            d3 - 1,
                            4,
                            *attributes,
                            skill_points,
                            modifier,
                        ),
                        tier_count(d1 - 1, 5, *attributes, skill_points, modifier) + tier_count_d2(
                            d1 as int,
                            d2 - 1,
                            5,
                            *attributes,
                            skill_points,
                            modifier,
                        ) + tier_count_d3(
                            d1 as int,
                            d2 as int,
                            d3 - 1,
                            5,
                            *attributes,
                            skill_points,
                            modifier,
                        ),
                        tier_count(d1 - 1, 6, *attributes, skill_points, modifier) + tier_count_d2(
                            d1 as int,
                            d2 - 1,
                            6,
                            *attributes,
                            skill_points,
                            modifier,
                        ) + tier_count_d3(
                            d1 as int,
                            d2 as int,
                            d3 - 1,
                            6,
                            *attributes,
                            skill_points,
                            modifier,
                        ),
                    ),
            {
                let rolls: Rolls = [d1, d2, d3];
                let quality_level = skill_check_fast(&rolls, attributes, skill_points, modifier);
                if quality_level > SUCCESS_TIER_THRESHOLD {
                    proof {
                        lemma_tier_count_sum(d1 - 1, *attributes, skill_points, modifier);
                        lemma_tier_count_d2_sum(
                            d1 as int,
                            d2 - 1,
                            *attributes,
                            skill_points,
                            modifier,
                        );
                        lemma_tier_count_d3_sum(
                            d1 as int,
                            d2 as int,
                            d3 - 1,
                            *attributes,
                            skill_points,
                            modifier,
                        );
                    }
                    let index = (quality_level - 1) as usize;
                    successes = successes + 1;
                    quality_level_successes[index] = quality_level_successes[index] + 1;
                }
            }
        }
    }
    proof {
        lemma_tier_count_sum(20, *attributes, skill_points, modifier);
    }
    Chance { success: successes, quality: quality_level_successes }
}

} // verus!
