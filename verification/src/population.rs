//! The population controller: agents, the population, bootstrap spawning,
//! fitness-proportional reproduction under a hard cap, and the per-tick
//! agent update pass.
//!
//! Over the whole population the controller is a state machine
//! Empty -> Bootstrapping -> Steady-State: the bootstrap check spawns a
//! full population exactly when no agent is left (a partially depleted
//! population is never refilled, by design), and the reproduction pass
//! lets each agent reproduce with probability proportional to its
//! externally tracked energy, normalized by the population-wide maximum.
//! Population size never exceeds the cap.

use vstd::prelude::*;
use vstd::pervasive::VecAdditionalExecFns;
use std::collections::HashMap;

use crate::{CYCLE, E_BOUND, NUM_ACTION_CHANNELS, MAX_WIDTH, REPRO_STRENGTH, SCALE, WORLD_BOUND};
use crate::action::{CellAction, spec_decode, spec_decode_last_fired, decode_action};
use crate::fitness::{spec_fitness, fitness};
use crate::net::VaiNet;
use crate::rng::random_in;
use crate::sched::{spec_should_update, should_update};

verus! {

broadcast use vstd::std_specs::hash::group_hash_axioms;

/// The explicit configuration threaded into every pass: the population
/// cap, the world bounds positions are drawn from, and the network shape
/// every agent is built with.
pub struct WorldConfig {
    pub max_population: usize,
    pub half_width: i64,
    pub half_height: i64,
    pub input_width: usize,
    pub hidden_width: usize,
    pub output_width: usize,
}

impl WorldConfig {
    pub open spec fn wf(self) -> bool {
        &&& 1 <= self.max_population
        &&& 1 <= self.half_width <= WORLD_BOUND
        &&& 1 <= self.half_height <= WORLD_BOUND
        &&& 1 <= self.input_width <= MAX_WIDTH
        &&& 1 <= self.hidden_width <= MAX_WIDTH
        &&& NUM_ACTION_CHANNELS <= self.output_width <= MAX_WIDTH
    }
}

/// One simulated individual: a unique id, a position and orientation, a
/// brain, a rolling append-only fitness history, the phase offset drawn
/// once at birth, an offspring counter, and the timestamps that rate-limit
/// firing and updating.
pub struct Agent {
    pub id: u64,
    pub x: i64,
    pub y: i64,
    pub rot: i64,
    pub net: VaiNet,
    pub fitness_history: Vec<i64>,
    pub phase_offset: u64,
    pub offspring: u64,
    pub last_fired: u64,
    pub last_updated: u64,
}

pub open spec fn agent_wf(a: Agent, cfg: WorldConfig) -> bool {
    &&& a.net.wf()
    &&& a.net.input_width == cfg.input_width
    &&& a.net.hidden_width == cfg.hidden_width
    &&& a.net.output_width == cfg.output_width
    &&& a.phase_offset <= CYCLE
    &&& -cfg.half_width <= a.x < cfg.half_width
    &&& -cfg.half_height <= a.y < cfg.half_height
    &&& 0 <= a.rot < 6 * SCALE
}

/// The set of live agents. Members are added by bootstrap or reproduction
/// only; external culling may shrink the vector between ticks and every
/// pass tolerates that.
pub struct Population {
    pub agents: Vec<Agent>,
    pub next_id: u64,
}

impl Population {
    /// The population invariant: never above the cap, every agent well
    /// formed, and ids unique (all below the next id to be handed out).
    pub open spec fn wf(self, cfg: WorldConfig) -> bool {
        &&& self.agents@.len() <= cfg.max_population
        &&& forall|i: int|
            0 <= i < self.agents@.len() ==> agent_wf(#[trigger] self.agents@[i], cfg)
        &&& forall|i: int| 0 <= i < self.agents@.len() ==> (#[trigger] self.agents@[i]).id
            < self.next_id
        &&& forall|i: int, j: int|
            0 <= i < j < self.agents@.len() ==> (#[trigger] self.agents@[i]).id != (
            #[trigger] self.agents@[j]).id
    }

    /// The population cap invariant: a well-formed population never
    /// exceeds `max_population`. Every pass of the controller takes
    /// well-formedness in and gives it back, so the bound holds after
    /// any sequence of bootstrap, reproduction and update ticks.
    pub proof fn lemma_cap_invariant(self, cfg: WorldConfig)
        requires
            self.wf(cfg),
        ensures
            self.agents@.len() <= cfg.max_population,
    {
    }

    /// An empty population, from which only the bootstrap check can grow
    /// the first generation.
    pub fn empty() -> (r: Population)
        ensures
            r.agents@.len() == 0,
            r.next_id == 0,
            forall|cfg: WorldConfig| r.wf(cfg),
    {
        Population { agents: Vec::new(), next_id: 0 }
    }
}

/// Builds one agent around a given brain: a fresh position and orientation
/// drawn uniformly over the world bounds, a phase offset drawn once for
/// the agent's lifetime, and empty history and counters.
pub fn make_agent(cfg: &WorldConfig, id: u64, net: VaiNet) -> (a: Agent)
    requires
        cfg.wf(),
        net.wf(),
        net.input_width == cfg.input_width,
        net.hidden_width == cfg.hidden_width,
        net.output_width == cfg.output_width,
    ensures
        agent_wf(a, *cfg),
        a.id == id,
        a.net == net,
        a.fitness_history@.len() == 0,
        a.offspring == 0,
        a.last_fired == 0,
        a.last_updated == 0,
{
    let x = random_in(-cfg.half_width, cfg.half_width);
    let y = random_in(-cfg.half_height, cfg.half_height);
    let rot = random_in(0, 6 * SCALE);
    let off = random_in(0, CYCLE as i64 + 1);
    Agent {
        id,
        x,
        y,
        rot,
        net,
        fitness_history: Vec::new(),
        phase_offset: off as u64,
        offspring: 0,
        last_fired: 0,
        last_updated: 0,
    }
}

/// The bootstrap check: when and only when the population is exactly
/// empty, spawns a full population of `max_population` fresh agents with
/// distinct ids, freshly initialized brains, and randomized positions and
/// phase offsets. A population of one or more agents is left untouched,
/// so a partially depleted population is never refilled.
pub fn bootstrap_tick(pop: &mut Population, cfg: &WorldConfig)
    requires
        cfg.wf(),
        old(pop).wf(*cfg),
        old(pop).next_id + cfg.max_population <= u64::MAX,
    ensures
        final(pop).wf(*cfg),
        final(pop).agents@.len() <= cfg.max_population,
        old(pop).agents@.len() > 0 ==> *final(pop) == *old(pop),
        old(pop).agents@.len() == 0 ==> final(pop).agents@.len() == cfg.max_population,
        old(pop).next_id <= final(pop).next_id <= old(pop).next_id + cfg.max_population,
{
    if pop.agents.len() > 0 {
        return ;
    }
    let n = cfg.max_population;
    let base = pop.next_id;
    let mut k: usize = 0;
    while k < n
        invariant
            cfg.wf(),
            0 <= k <= n,
            n == cfg.max_population,
            base + n <= u64::MAX,
            pop.agents@.len() == k,
            pop.next_id == base + k,
            forall|i: int| 0 <= i < k ==> agent_wf(#[trigger] pop.agents@[i], *cfg),
            forall|i: int| 0 <= i < k ==> (#[trigger] pop.agents@[i]).id == base + i,
        decreases n - k,
    {
        let net = VaiNet::new(cfg.input_width, cfg.hidden_width, cfg.output_width);
        let a = make_agent(cfg, pop.next_id, net);
        pop.agents.push(a);
        pop.next_id = pop.next_id + 1;
        k = k + 1;
    }
}

/// Whether one uniform draw in `[0, SCALE)` lets an agent with the given
/// energy reproduce: exactly when `draw / SCALE < energy / max_energy`.
pub open spec fn spec_should_reproduce(draw: i64, energy: i64, max_energy: i64) -> bool {
    (draw as int) * (max_energy as int) < (energy as int) * (SCALE as int)
}

/// Decides reproduction from one uniform draw in `[0, SCALE)`:
/// reproduction probability is the energy normalized by the population
/// maximum.
pub fn should_reproduce(draw: i64, energy: i64, max_energy: i64) -> (r: bool)
    requires
        0 <= draw < SCALE,
        0 <= energy <= E_BOUND,
        0 < max_energy <= E_BOUND,
    ensures
        r == spec_should_reproduce(draw, energy, max_energy),
{
    proof {
        assert((draw as int) * (max_energy as int) <= (SCALE as int) * (E_BOUND as int))
            by (nonlinear_arith)
            requires
                0 <= (draw as int) <= (SCALE as int),
                0 <= (max_energy as int) <= (E_BOUND as int),
        ;
        assert(0 <= (draw as int) * (max_energy as int)) by (nonlinear_arith)
            requires
                0 <= (draw as int),
                0 <= (max_energy as int),
        ;
        assert((energy as int) * (SCALE as int) <= (E_BOUND as int) * (SCALE as int))
            by (nonlinear_arith)
            requires
                0 <= (energy as int) <= (E_BOUND as int),
        ;
        assert(0 <= (energy as int) * (SCALE as int)) by (nonlinear_arith)
            requires
                0 <= (energy as int),
        ;
    }
    draw * max_energy < energy * SCALE
}

/// Reproduction probability is monotone in energy: every draw that lets an
/// agent with energy `e1` reproduce also lets an agent with energy
/// `e2 >= e1` reproduce under the same population maximum, so the expected
/// reproduction rate of the higher-energy agent is at least as large.
pub proof fn lemma_reproduction_monotone(draw: i64, e1: i64, e2: i64, max_energy: i64)
    requires
        0 <= draw < SCALE,
        0 <= e1 <= e2 <= E_BOUND,
        0 < max_energy <= E_BOUND,
        spec_should_reproduce(draw, e1, max_energy),
    ensures
        spec_should_reproduce(draw, e2, max_energy),
{
    assert((e1 as int) * (SCALE as int) <= (e2 as int) * (SCALE as int)) by (nonlinear_arith)
        requires
            (e1 as int) <= (e2 as int),
    ;
}

/// An agent whose energy equals the population maximum reproduces on
/// every draw: its reproduction probability evaluates to 1.
pub proof fn lemma_max_energy_always_reproduces(draw: i64, max_energy: i64)
    requires
        0 <= draw < SCALE,
        0 < max_energy <= E_BOUND,
    ensures
        spec_should_reproduce(draw, max_energy, max_energy),
{
    assert((draw as int) * (max_energy as int) < (SCALE as int) * (max_energy as int))
        by (nonlinear_arith)
        requires
            0 <= (draw as int),
            (draw as int) < (SCALE as int),
            0 < (max_energy as int),
    ;
}

/// What the reproduction pass may do to an agent that was already alive
/// when the pass began: every field kept, except the offspring counter,
/// which may only grow.
pub open spec fn parent_kept(pre: Agent, post: Agent) -> bool {
    &&& post.id == pre.id
    &&& post.x == pre.x
    &&& post.y == pre.y
    &&& post.rot == pre.rot
    &&& post.net == pre.net
    &&& post.fitness_history == pre.fitness_history
    &&& post.phase_offset == pre.phase_offset
    &&& post.last_fired == pre.last_fired
    &&& post.last_updated == pre.last_updated
    &&& post.offspring >= pre.offspring
}

/// The steady-state reproduction pass. For every agent alive at the start
/// of the pass: if the population (children included) has reached the cap,
/// it is skipped; if the energy collaborator does not yet track the agent,
/// it is skipped; otherwise a uniform draw decides reproduction with
/// probability energy / max_energy. A reproducing parent's brain is
/// cloned, the clone mutated with the small reproduction strength, and the
/// child is spawned with a fresh unique id, a fresh random position, and a
/// fresh random phase offset; the parent's offspring counter grows by one
/// (it saturates at the counter's range end rather than wrap).
pub fn reproduction_tick(
    pop: &mut Population,
    cfg: &WorldConfig,
    energies: &HashMap<u64, i64>,
    max_energy: i64,
)
    requires
        cfg.wf(),
        old(pop).wf(*cfg),
        0 < max_energy <= E_BOUND,
        forall|k: u64| #[trigger] energies@.contains_key(k) ==> 0 <= energies@[k] <= E_BOUND,
        old(pop).next_id + cfg.max_population <= u64::MAX,
    ensures
        final(pop).wf(*cfg),
        final(pop).agents@.len() <= cfg.max_population,
        old(pop).agents@.len() <= final(pop).agents@.len(),
        old(pop).next_id <= final(pop).next_id <= old(pop).next_id + cfg.max_population,
        forall|i: int|
            0 <= i < old(pop).agents@.len() ==> parent_kept(
                old(pop).agents@[i],
                #[trigger] final(pop).agents@[i],
            ),
        old(pop).agents@.len() >= cfg.max_population ==> *final(pop) == *old(pop),
        (0 < old(pop).agents@.len() && old(pop).agents@.len() < cfg.max_population
            && energies@.contains_key(old(pop).agents@[0].id) && energies@[old(
            pop,
        ).agents@[0].id] == max_energy) ==> final(pop).agents@.len() > old(pop).agents@.len(),
{
    let n = pop.agents.len();
    let dummy_net = VaiNet::new(cfg.input_width, cfg.hidden_width, cfg.output_width);
    let mut slot = make_agent(cfg, 0, dummy_net);
    let mut i: usize = 0;
    while i < n
        invariant
            cfg.wf(),
            0 <= i <= n,
            n == old(pop).agents@.len(),
            n <= cfg.max_population,
            0 < max_energy <= E_BOUND,
            forall|k: u64| #[trigger] energies@.contains_key(k) ==> 0 <= energies@[k] <= E_BOUND,
            old(pop).next_id + cfg.max_population <= u64::MAX,
            n <= pop.agents@.len() <= cfg.max_population,
            pop.next_id == old(pop).next_id + pop.agents@.len() - n,
            forall|j: int| 0 <= j < pop.agents@.len() ==> agent_wf(#[trigger] pop.agents@[j], *cfg),
            forall|j: int| 0 <= j < pop.agents@.len() ==> (#[trigger] pop.agents@[j]).id
                < pop.next_id,
            forall|j: int, l: int|
                0 <= j < l < pop.agents@.len() ==> (#[trigger] pop.agents@[j]).id != (
                #[trigger] pop.agents@[l]).id,
            forall|j: int|
                0 <= j < n ==> parent_kept(old(pop).agents@[j], #[trigger] pop.agents@[j]),
            n >= cfg.max_population ==> *pop == *old(pop),
            i == 0 ==> pop.agents@.len() == n,
            (0 < n && n < cfg.max_population && energies@.contains_key(old(pop).agents@[0].id)
                && energies@[old(pop).agents@[0].id] == max_energy && i > 0)
                ==> pop.agents@.len() > n,
        decreases n - i,
    {
        if pop.agents.len() >= cfg.max_population {
            i = i + 1;
            continue ;
        }
        let parent = &pop.agents[i];
        let id = parent.id;
        match energies.get(&id) {
            None => {},
            Some(e_ref) => {
                let e = *e_ref;
                let u = random_in(0, SCALE);
                proof {
                    lemma_max_energy_always_reproduces(u, max_energy);
                }
                if should_reproduce(u, e, max_energy) {
                    let parent = &pop.agents[i];
                    let mut child_net = parent.net.duplicate();
                    child_net.mutate(REPRO_STRENGTH);
                    let child = make_agent(cfg, pop.next_id, child_net);
                    pop.next_id = pop.next_id + 1;
                    pop.agents.set_and_swap(i, &mut slot);
                    if slot.offspring < u64::MAX {
                        slot.offspring = slot.offspring + 1;
                    }
                    pop.agents.set_and_swap(i, &mut slot);
                    pop.agents.push(child);
                }
            },
        }
        i = i + 1;
    }
}

/// Everything one agent's update produces when its scheduling gates are
/// open: the activation of every layer from the forward pass (the output
/// layer last, as the action vector), and the decoded action. Exposed so
/// the host can apply forces, spawn projectiles, and show a focused
/// agent's full activations.
pub struct StepOutput {
    pub activations: Vec<Vec<i64>>,
    pub action: CellAction,
}

/// The fitness value one open-gated update records.
pub open spec fn spec_step_fitness(pre: Agent, inputs: Seq<i64>) -> i64 {
    spec_fitness(inputs, pre.net.spec_output(inputs)) as i64
}

/// How one update tick relates an agent's state before and after, and
/// what it returns: closed gates mean no computation and no change at
/// all; open gates mean one forward pass, exactly one fitness value
/// appended to the history, the decoded (cooldown-gated) action, and
/// fresh timestamps. The brain, identity, position and phase offset are
/// never touched by an update.
pub open spec fn stepped(
    pre: Agent,
    post: Agent,
    out: Option<StepOutput>,
    inputs: Seq<i64>,
    now: u64,
    cycle_pos: u64,
) -> bool {
    if !spec_should_update(now, pre.last_updated, cycle_pos, pre.phase_offset) {
        &&& post == pre
        &&& out is None
    } else {
        &&& out is Some
        &&& out->Some_0.activations@.len() == 2
        &&& out->Some_0.activations@[0]@ == pre.net.spec_hidden(inputs)
        &&& out->Some_0.activations@[1]@ == pre.net.spec_output(inputs)
        &&& out->Some_0.action == spec_decode(pre.net.spec_output(inputs), now, pre.last_fired)
        &&& post.fitness_history@ == pre.fitness_history@.push(spec_step_fitness(pre, inputs))
        &&& post.last_updated == now
        &&& post.last_fired == spec_decode_last_fired(
            pre.net.spec_output(inputs),
            now,
            pre.last_fired,
        )
        &&& post.id == pre.id
        &&& post.x == pre.x
        &&& post.y == pre.y
        &&& post.rot == pre.rot
        &&& post.net == pre.net
        &&& post.phase_offset == pre.phase_offset
        &&& post.offspring == pre.offspring
    }
}

impl Agent {
    /// One scheduling tick for this agent: when both scheduling gates are
    /// open, runs the forward pass on the given sensory inputs, appends
    /// exactly one fitness value to the history, and decodes the action;
    /// when either gate is closed, performs no computation and changes
    /// nothing.
    pub fn step(&mut self, inputs: &Vec<i64>, now: u64, cycle_pos: u64, cfg: &WorldConfig) -> (r:
        Option<StepOutput>)
        requires
            cfg.wf(),
            agent_wf(*old(self), *cfg),
            inputs@.len() == cfg.input_width,
            old(self).last_updated <= now,
            old(self).last_fired <= now,
        ensures
            stepped(*old(self), *final(self), r, inputs@, now, cycle_pos),
            agent_wf(*final(self), *cfg),
            final(self).last_updated <= now,
            final(self).last_fired <= now,
    {
        if !should_update(now, self.last_updated, cycle_pos, self.phase_offset) {
            return None;
        }
        let acts = self.net.predict(inputs);
        let out_layer: &Vec<i64> = &acts[1];
        let f = fitness(inputs, out_layer);
        self.fitness_history.push(f);
        self.last_updated = now;
        let decoded = decode_action(out_layer, now, self.last_fired);
        let action = decoded.0;
        self.last_fired = decoded.1;
        Some(StepOutput { activations: acts, action })
    }
}

/// The agent-update pass: steps every agent once against its own sensory
/// input vector and returns the outcomes in agent order, so the host can
/// apply the actions and inspect the focused agent's activations and
/// fitness history. Agents whose gates are closed are left exactly as
/// they were; membership and ids never change in this pass.
pub fn update_tick(
    pop: &mut Population,
    cfg: &WorldConfig,
    inputs: &Vec<Vec<i64>>,
    now: u64,
    cycle_pos: u64,
) -> (outs: Vec<Option<StepOutput>>)
    requires
        cfg.wf(),
        old(pop).wf(*cfg),
        inputs@.len() == old(pop).agents@.len(),
        forall|i: int|
            0 <= i < inputs@.len() ==> (#[trigger] inputs@[i])@.len() == cfg.input_width,
        forall|i: int|
            0 <= i < old(pop).agents@.len() ==> (#[trigger] old(pop).agents@[i]).last_updated
                <= now,
        forall|i: int|
            0 <= i < old(pop).agents@.len() ==> (#[trigger] old(pop).agents@[i]).last_fired <= now,
    ensures
        final(pop).wf(*cfg),
        final(pop).agents@.len() == old(pop).agents@.len(),
        final(pop).next_id == old(pop).next_id,
        outs@.len() == old(pop).agents@.len(),
        forall|i: int|
            0 <= i < outs@.len() ==> stepped(
                old(pop).agents@[i],
                final(pop).agents@[i],
                #[trigger] outs@[i],
                inputs@[i]@,
                now,
                cycle_pos,
            ),
{
    let n = pop.agents.len();
    let dummy_net = VaiNet::new(cfg.input_width, cfg.hidden_width, cfg.output_width);
    let mut slot = make_agent(cfg, 0, dummy_net);
    let mut outs: Vec<Option<StepOutput>> = Vec::new();
    let mut i: usize = 0;
    while i < n
        invariant
            cfg.wf(),
            0 <= i <= n,
            n == old(pop).agents@.len(),
            pop.agents@.len() == n,
            pop.next_id == old(pop).next_id,
            inputs@.len() == n,
            forall|j: int|
                0 <= j < inputs@.len() ==> (#[trigger] inputs@[j])@.len() == cfg.input_width,
            forall|j: int|
                0 <= j < n ==> (#[trigger] old(pop).agents@[j]).last_updated <= now,
            forall|j: int| 0 <= j < n ==> (#[trigger] old(pop).agents@[j]).last_fired <= now,
            n <= cfg.max_population,
            forall|j: int| 0 <= j < pop.agents@.len() ==> agent_wf(#[trigger] pop.agents@[j], *cfg),
            forall|j: int| 0 <= j < pop.agents@.len() ==> (#[trigger] pop.agents@[j]).id
                < pop.next_id,
            forall|j: int, l: int|
                0 <= j < l < pop.agents@.len() ==> (#[trigger] pop.agents@[j]).id != (
                #[trigger] pop.agents@[l]).id,
            outs@.len() == i,
            forall|j: int|
                0 <= j < i ==> stepped(
                    old(pop).agents@[j],
                    pop.agents@[j],
                    #[trigger] outs@[j],
                    inputs@[j]@,
                    now,
                    cycle_pos,
                ),
            forall|j: int| i <= j < n ==> #[trigger] pop.agents@[j] == old(pop).agents@[j],
        decreases n - i,
    {
        pop.agents.set_and_swap(i, &mut slot);
        let input_i: &Vec<i64> = &inputs[i];
        let out = slot.step(input_i, now, cycle_pos, cfg);
        pop.agents.set_and_swap(i, &mut slot);
        outs.push(out);
        i = i + 1;
    }
    outs
}

} // verus!
