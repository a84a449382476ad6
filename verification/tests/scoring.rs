use vai_cells::action::decode_action;
use vai_cells::fitness::fitness;
use vai_cells::sched::should_update;
use vai_cells::{A_BOUND, FIRE_COOLDOWN, FIRE_PENALTY, FIRE_THRESHOLD, UPDATE_INTERVAL};

/// Fitness is total and deterministic: two calls with identical inputs
/// and action channels return identical scalars.
#[test]
fn fitness_is_deterministic() {
    let inputs = vec![123, -456, 789];
    let actions = vec![1000, -2000, 600, 5];
    assert_eq!(fitness(&inputs, &actions), fitness(&inputs, &actions));
}

/// Exact values of the scoring rule: food signal plus thrust reward,
/// minus the flat penalty for a firing request.
#[test]
fn fitness_exact_values() {
    // no firing request: food + thrust
    assert_eq!(fitness(&vec![10], &vec![100, 0, 0, 0]), 110);
    // the fire channel must strictly exceed the threshold to be charged
    assert_eq!(fitness(&vec![10], &vec![100, 0, FIRE_THRESHOLD, 0]), 110);
    assert_eq!(
        fitness(&vec![10], &vec![100, 0, FIRE_THRESHOLD + 1, 0]),
        110 - FIRE_PENALTY
    );
    // an empty sensory vector contributes no food signal
    assert_eq!(fitness(&vec![], &vec![7, 0, 0, 0]), 7);
}

/// Fitness saturates its terms, so it stays bounded for any finite input.
#[test]
fn fitness_is_bounded_on_wild_inputs() {
    let f = fitness(&vec![i64::MAX / 2], &vec![i64::MAX / 2, 0, i64::MAX / 2, 0]);
    assert_eq!(f, A_BOUND + A_BOUND - FIRE_PENALTY);
}

/// The decoder reads thrust and torque straight from the channels and
/// accepts a fire request only above the threshold.
#[test]
fn decode_reads_channels_independently() {
    let out = vec![300, -40, FIRE_THRESHOLD + 1, 0];
    let (action, last_fired) = decode_action(&out, FIRE_COOLDOWN, 0);
    assert_eq!(action.thrust, 300);
    assert_eq!(action.torque, -40);
    assert!(action.fire);
    assert_eq!(last_fired, FIRE_COOLDOWN);
}

/// A fire request within the minimum inter-fire interval is silently
/// downgraded to "no fire" and the timestamp is kept.
#[test]
fn fire_request_within_cooldown_is_downgraded() {
    let out = vec![300, -40, FIRE_THRESHOLD + 1, 0];
    let (action, last_fired) = decode_action(&out, FIRE_COOLDOWN - 1, 0);
    assert!(!action.fire);
    assert_eq!(last_fired, 0);
}

/// A channel at or below the threshold is no fire request at all.
#[test]
fn no_fire_intent_means_no_fire() {
    let out = vec![300, -40, FIRE_THRESHOLD, 0];
    let (action, last_fired) = decode_action(&out, 10 * FIRE_COOLDOWN, 3);
    assert!(!action.fire);
    assert_eq!(last_fired, 3);
}

/// Both scheduling gates must be open: enough ticks since the agent's
/// last update, and the cycle clock at or past its phase offset.
#[test]
fn update_gates() {
    // both gates open
    assert!(should_update(UPDATE_INTERVAL, 0, 400, 400));
    // updated too recently
    assert!(!should_update(UPDATE_INTERVAL - 1, 0, 400, 400));
    // cycle clock not yet at the agent's phase offset
    assert!(!should_update(UPDATE_INTERVAL, 0, 399, 400));
}
