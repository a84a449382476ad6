//! A small neuroevolution engine for a population of autonomous agents
//! ("cells"): a fixed-topology feed-forward network with a forward pass and
//! an in-place mutation operator, a pure fitness score, an action decoder
//! with a fire cooldown, a per-agent update scheduler, and a population
//! controller that bootstraps an empty population and performs
//! fitness-proportional asexual reproduction under a hard cap.
//!
//! All numeric state is held in fixed point: the constant [`SCALE`] stands
//! for the real value 1.0, so a weight of 512 means 0.5. Callers that work
//! in real units convert at the boundary.

pub mod net;
pub mod fitness;
pub mod action;
pub mod sched;
pub mod population;
mod rng;

use vstd::prelude::*;

verus! {

/// Fixed-point unit: this value stands for the real number 1.0.
pub const SCALE: i64 = 1024;

/// Largest magnitude a network weight may have (1024.0 in real units).
pub const W_BOUND: i64 = 1048576;

/// Activations are clamped to [-A_BOUND, A_BOUND] (1024.0 in real units).
pub const A_BOUND: i64 = 1048576;

/// Widest layer a network may be built with; keeps every neuron sum
/// far below `i64` overflow.
pub const MAX_WIDTH: usize = 256;

/// Mutation strength used when a fresh network is first built (5.0 in
/// real units): a wide spread, so starting brains differ a lot.
pub const INIT_STRENGTH: i64 = 5120;

/// Mutation strength used at every reproduction event (1.0 in real
/// units): a small spread, so a child varies only a little from its
/// parent. Distinct from `INIT_STRENGTH` by design; reusing the wide
/// spread here would turn evolution into repeated random restarts.
pub const REPRO_STRENGTH: i64 = 1024;

/// Number of output channels the fitness score and the action decoder read.
pub const NUM_ACTION_CHANNELS: usize = 4;

/// Minimum number of ticks between two forward passes of the same agent.
pub const UPDATE_INTERVAL: u64 = 100;

/// Length of the shared repeating clock cycle that the per-agent phase
/// offsets are drawn from.
pub const CYCLE: u64 = 1000;

/// Minimum number of ticks between two accepted fire actions of one agent.
pub const FIRE_COOLDOWN: u64 = 500;

/// A fire-intent channel must exceed this value for the decoder to read
/// it as a request to fire (0.5 in real units).
pub const FIRE_THRESHOLD: i64 = 512;

/// Fitness penalty charged for a firing request (1.0 in real units).
pub const FIRE_PENALTY: i64 = 1024;

/// Largest energy magnitude the reproduction rule accepts.
pub const E_BOUND: i64 = 1000000000;

/// Largest half-extent the world bounds may have.
pub const WORLD_BOUND: i64 = 1000000000;

} // verus!
