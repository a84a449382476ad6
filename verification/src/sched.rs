//! The per-agent update scheduler: two independent periodic gates decide
//! whether an agent runs its (expensive) forward pass this tick.
//!
//! Gate one bounds how often any one agent may be updated: at least
//! `UPDATE_INTERVAL` ticks must have passed since its last update. Gate
//! two staggers the population's work across the shared repeating cycle:
//! the cycle clock must have reached the agent's own phase offset, a value
//! drawn once at birth. An agent whose gates are not both open performs no
//! computation that tick.

use vstd::prelude::*;

use crate::UPDATE_INTERVAL;

verus! {

/// Both gates: enough ticks since the agent's last update, and the cycle
/// clock at or past the agent's phase offset.
pub open spec fn spec_should_update(
    now: u64,
    last_updated: u64,
    cycle_pos: u64,
    phase_offset: u64,
) -> bool {
    &&& now - last_updated >= UPDATE_INTERVAL
    &&& cycle_pos >= phase_offset
}

/// Evaluates the two scheduling gates.
pub fn should_update(now: u64, last_updated: u64, cycle_pos: u64, phase_offset: u64) -> (r: bool)
    requires
        last_updated <= now,
    ensures
        r == spec_should_update(now, last_updated, cycle_pos, phase_offset),
{
    now - last_updated >= UPDATE_INTERVAL && cycle_pos >= phase_offset
}

} // verus!
