//! The fitness score: a pure, total, deterministic map from one sensory
//! input vector and the four primary action channels to a scalar reward.
//!
//! Scoring rule (a tunable design choice, fixed here): the first sensory
//! channel is read as a food-proximity signal and rewarded as is, forward
//! thrust (channel 0) is rewarded, and a firing request (channel 2 above
//! the fire threshold) is charged a flat penalty. Every term is saturated
//! to the activation range first, so the score is defined and bounded for
//! every input.

use vstd::prelude::*;

use crate::{A_BOUND, FIRE_PENALTY, FIRE_THRESHOLD, NUM_ACTION_CHANNELS};
use crate::net::clamp_act_spec;

verus! {

/// The scoring rule, stated over mathematical integers.
pub open spec fn spec_fitness(inputs: Seq<i64>, actions: Seq<i64>) -> int {
    let food = if inputs.len() > 0 {
        clamp_act_spec(inputs[0] as int)
    } else {
        0
    };
    let thrust = clamp_act_spec(actions[0] as int);
    let fire_cost: int = if actions[2] > FIRE_THRESHOLD {
        FIRE_PENALTY as int
    } else {
        0
    };
    food + thrust - fire_cost
}

/// Evaluates the scoring rule. Total: accepts every input vector and every
/// action vector of the four primary channels; deterministic: the result
/// is a function of the arguments alone.
pub fn fitness(inputs: &Vec<i64>, actions: &Vec<i64>) -> (r: i64)
    requires
        actions@.len() >= NUM_ACTION_CHANNELS,
    ensures
        r as int == spec_fitness(inputs@, actions@),
        -(2 * A_BOUND + FIRE_PENALTY) <= r <= 2 * A_BOUND,
{
    let food: i64 = if inputs.len() > 0 {
        clamp_i64(inputs[0])
    } else {
        0
    };
    let thrust = clamp_i64(actions[0]);
    let fire_cost: i64 = if actions[2] > FIRE_THRESHOLD {
        FIRE_PENALTY
    } else {
        0
    };
    food + thrust - fire_cost
}

/// Two fitness evaluations with identical inputs and identical action
/// channels return identical scalars.
pub proof fn lemma_fitness_deterministic(
    inputs1: Seq<i64>,
    actions1: Seq<i64>,
    inputs2: Seq<i64>,
    actions2: Seq<i64>,
)
    requires
        inputs1 == inputs2,
        actions1 == actions2,
    ensures
        spec_fitness(inputs1, actions1) == spec_fitness(inputs2, actions2),
{
}

fn clamp_i64(x: i64) -> (r: i64)
    ensures
        r as int == clamp_act_spec(x as int),
        -A_BOUND <= r <= A_BOUND,
{
    if x < -A_BOUND {
        -A_BOUND
    } else if x > A_BOUND {
        A_BOUND
    } else {
        x
    }
}

} // verus!
