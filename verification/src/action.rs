//! The action decoder: reads the output layer of a forward pass as a
//! concrete action, and gates firing by a per-agent cooldown.
//!
//! Channels are interpreted independently: channel 0 is the thrust, channel
//! 1 the torque, channel 2 the fire intent (a request when it exceeds the
//! fire threshold), channel 3 is reserved. A fire request that falls within
//! the minimum inter-fire interval is silently downgraded to "no fire";
//! an accepted one resets the last-fired timestamp.

use vstd::prelude::*;

use crate::{FIRE_COOLDOWN, FIRE_THRESHOLD, NUM_ACTION_CHANNELS};

verus! {

/// The concrete action one decoded output vector asks for: a thrust to
/// apply as a force, a torque, and whether to fire a projectile. Applying
/// the force and spawning the projectile belong to the physics and world
/// collaborators outside this engine.
pub struct CellAction {
    pub thrust: i64,
    pub torque: i64,
    pub fire: bool,
}

/// Whether a fire request at `now` is accepted, given when the agent
/// last fired.
pub open spec fn spec_fire_allowed(now: u64, last_fired: u64) -> bool {
    now - last_fired >= FIRE_COOLDOWN
}

/// What the decoder reads out of an output vector.
pub open spec fn spec_decode(out: Seq<i64>, now: u64, last_fired: u64) -> CellAction {
    CellAction {
        thrust: out[0],
        torque: out[1],
        fire: out[2] > FIRE_THRESHOLD && spec_fire_allowed(now, last_fired),
    }
}

/// The last-fired timestamp after decoding: reset to `now` exactly when
/// the fire request was accepted.
pub open spec fn spec_decode_last_fired(out: Seq<i64>, now: u64, last_fired: u64) -> u64 {
    if spec_decode(out, now, last_fired).fire {
        now
    } else {
        last_fired
    }
}

/// Decodes the output layer into an action, downgrading a fire request
/// that falls within the cooldown, and returns the new last-fired
/// timestamp alongside.
pub fn decode_action(out: &Vec<i64>, now: u64, last_fired: u64) -> (r: (CellAction, u64))
    requires
        out@.len() >= NUM_ACTION_CHANNELS,
        last_fired <= now,
    ensures
        r.0 == spec_decode(out@, now, last_fired),
        r.1 == spec_decode_last_fired(out@, now, last_fired),
        r.1 <= now,
{
    let intent = out[2] > FIRE_THRESHOLD;
    let fire = intent && now - last_fired >= FIRE_COOLDOWN;
    let action = CellAction { thrust: out[0], torque: out[1], fire };
    let new_last_fired = if fire {
        now
    } else {
        last_fired
    };
    (action, new_last_fired)
}

} // verus!
