use std::collections::HashMap;
use std::collections::HashSet;

use vai_cells::net::VaiNet;
use vai_cells::population::{
    bootstrap_tick, make_agent, reproduction_tick, should_reproduce, update_tick, Population,
    WorldConfig,
};
use vai_cells::{CYCLE, SCALE, UPDATE_INTERVAL};

fn test_config(cap: usize) -> WorldConfig {
    WorldConfig {
        max_population: cap,
        half_width: 300,
        half_height: 200,
        input_width: 3,
        hidden_width: 5,
        output_width: 4,
    }
}

fn single_agent_population(cfg: &WorldConfig) -> Population {
    let net = VaiNet::new(cfg.input_width, cfg.hidden_width, cfg.output_width);
    let agent = make_agent(cfg, 0, net);
    Population { agents: vec![agent], next_id: 1 }
}

/// Scenario: cap of 4, empty population: the bootstrap tick spawns
/// exactly 4 agents with 4 distinct ids and positions within the world
/// bounds.
#[test]
fn bootstrap_fills_empty_population() {
    let cfg = test_config(4);
    let mut pop = Population::empty();
    bootstrap_tick(&mut pop, &cfg);
    assert_eq!(pop.agents.len(), 4);
    let ids: HashSet<u64> = pop.agents.iter().map(|a| a.id).collect();
    assert_eq!(ids.len(), 4);
    for a in &pop.agents {
        assert!(-cfg.half_width <= a.x && a.x < cfg.half_width);
        assert!(-cfg.half_height <= a.y && a.y < cfg.half_height);
        assert!(a.phase_offset <= CYCLE);
        assert!(a.fitness_history.is_empty());
    }
}

/// Bootstrap idempotence: running the bootstrap check again while the
/// population is non-empty spawns zero additional agents.
#[test]
fn bootstrap_is_idempotent_on_nonempty_population() {
    let cfg = test_config(4);
    let mut pop = Population::empty();
    bootstrap_tick(&mut pop, &cfg);
    let ids_before: Vec<u64> = pop.agents.iter().map(|a| a.id).collect();
    bootstrap_tick(&mut pop, &cfg);
    assert_eq!(pop.agents.len(), 4);
    let ids_after: Vec<u64> = pop.agents.iter().map(|a| a.id).collect();
    assert_eq!(ids_before, ids_after);
}

/// A partially depleted population is never refilled: only an exactly
/// empty population triggers bootstrap.
#[test]
fn bootstrap_never_refills_partial_population() {
    let cfg = test_config(4);
    let mut pop = Population::empty();
    bootstrap_tick(&mut pop, &cfg);
    pop.agents.truncate(1);
    bootstrap_tick(&mut pop, &cfg);
    assert_eq!(pop.agents.len(), 1);
}

/// Scenario: a population of 4 at the cap; the reproduction tick spawns
/// zero new agents regardless of energy values.
#[test]
fn reproduction_at_cap_spawns_nothing() {
    let cfg = test_config(4);
    let mut pop = Population::empty();
    bootstrap_tick(&mut pop, &cfg);
    let max_energy = 1000;
    let mut energies: HashMap<u64, i64> = HashMap::new();
    for a in &pop.agents {
        energies.insert(a.id, max_energy);
    }
    reproduction_tick(&mut pop, &cfg, &energies, max_energy);
    assert_eq!(pop.agents.len(), 4);
    for a in &pop.agents {
        assert_eq!(a.offspring, 0);
    }
}

/// Scenario: a single agent whose energy equals the population maximum
/// reproduces on every eligible tick until the population reaches the
/// cap, and never beyond it.
#[test]
fn max_energy_agent_reproduces_until_cap() {
    let cfg = test_config(4);
    let mut pop = single_agent_population(&cfg);
    let max_energy = 750;
    let mut energies: HashMap<u64, i64> = HashMap::new();
    energies.insert(0, max_energy);
    reproduction_tick(&mut pop, &cfg, &energies, max_energy);
    assert_eq!(pop.agents.len(), 2);
    assert_eq!(pop.agents[0].offspring, 1);
    for _ in 0..10 {
        // children are not in the energy map yet: only the first agent
        // is tracked, and it keeps reproducing until the cap is reached
        reproduction_tick(&mut pop, &cfg, &energies, max_energy);
    }
    assert_eq!(pop.agents.len(), 4);
}

/// An agent the energy collaborator does not yet track is skipped.
#[test]
fn untracked_agent_is_skipped() {
    let cfg = test_config(4);
    let mut pop = single_agent_population(&cfg);
    let energies: HashMap<u64, i64> = HashMap::new();
    reproduction_tick(&mut pop, &cfg, &energies, 1000);
    assert_eq!(pop.agents.len(), 1);
    assert_eq!(pop.agents[0].offspring, 0);
}

/// An agent with zero energy never reproduces.
#[test]
fn zero_energy_agent_never_reproduces() {
    let cfg = test_config(4);
    let mut pop = single_agent_population(&cfg);
    let mut energies: HashMap<u64, i64> = HashMap::new();
    energies.insert(0, 0);
    for _ in 0..20 {
        reproduction_tick(&mut pop, &cfg, &energies, 1000);
    }
    assert_eq!(pop.agents.len(), 1);
}

/// A child carries a mutated copy of its parent's brain and a fresh id.
#[test]
fn child_brain_derives_from_parent() {
    let cfg = test_config(2);
    let mut pop = single_agent_population(&cfg);
    let parent_weights = pop.agents[0].net.weights.clone();
    let max_energy = 10;
    let mut energies: HashMap<u64, i64> = HashMap::new();
    energies.insert(0, max_energy);
    reproduction_tick(&mut pop, &cfg, &energies, max_energy);
    assert_eq!(pop.agents.len(), 2);
    assert_eq!(pop.agents[0].net.weights, parent_weights);
    let child = &pop.agents[1];
    assert_eq!(child.id, 1);
    assert_eq!(child.net.weights.len(), parent_weights.len());
    assert_ne!(child.net.weights, parent_weights);
    assert!(child.fitness_history.is_empty());
}

/// The reproduction decision on concrete draws: probability is the energy
/// normalized by the population maximum, monotone in energy.
#[test]
fn reproduction_decision_on_concrete_draws() {
    // energy == max: every draw in [0, SCALE) reproduces
    for draw in [0, 1, SCALE / 2, SCALE - 1] {
        assert!(should_reproduce(draw, 800, 800));
    }
    // zero energy: no draw reproduces
    for draw in [0, 1, SCALE - 1] {
        assert!(!should_reproduce(draw, 0, 800));
    }
    // half energy: exactly the lower half of the draws reproduce
    assert!(should_reproduce(SCALE / 2 - 1, 400, 800));
    assert!(!should_reproduce(SCALE / 2, 400, 800));
    // monotone: every draw that lets energy 100 reproduce lets 300 too
    for draw in 0..SCALE {
        if should_reproduce(draw, 100, 800) {
            assert!(should_reproduce(draw, 300, 800));
        }
    }
}

/// The update pass: open gates run the forward pass and record exactly
/// one fitness value; closed gates change nothing at all.
#[test]
fn update_pass_gates_and_records_fitness() {
    let cfg = test_config(3);
    let mut pop = Population::empty();
    bootstrap_tick(&mut pop, &cfg);
    let inputs: Vec<Vec<i64>> = vec![vec![SCALE, 0, -SCALE]; pop.agents.len()];
    // cycle clock at the end of the cycle: every phase offset has passed
    let outs = update_tick(&mut pop, &cfg, &inputs, UPDATE_INTERVAL, CYCLE);
    assert_eq!(outs.len(), 3);
    for (a, out) in pop.agents.iter().zip(outs.iter()) {
        let step = out.as_ref().expect("both gates are open");
        assert_eq!(step.activations.len(), 2);
        assert_eq!(step.activations[1].len(), cfg.output_width);
        assert_eq!(a.fitness_history.len(), 1);
        assert_eq!(a.last_updated, UPDATE_INTERVAL);
    }
    // the same instant again: the first gate is closed for every agent,
    // so no computation happens and no fitness is recorded
    let outs2 = update_tick(&mut pop, &cfg, &inputs, UPDATE_INTERVAL, CYCLE);
    assert!(outs2.iter().all(|o| o.is_none()));
    for a in &pop.agents {
        assert_eq!(a.fitness_history.len(), 1);
    }
    // enough ticks later, but a cycle clock before every offset: closed
    let outs3 = update_tick(&mut pop, &cfg, &inputs, 10 * UPDATE_INTERVAL, 0);
    for (a, out) in pop.agents.iter().zip(outs3.iter()) {
        if a.phase_offset > 0 {
            assert!(out.is_none());
        }
    }
}

/// The population cap invariant: after an arbitrary interleaving of
/// bootstrap and reproduction ticks the size never exceeds the cap.
#[test]
fn cap_invariant_over_tick_sequences() {
    let cfg = test_config(5);
    let mut pop = Population::empty();
    let max_energy = 100;
    for round in 0..30 {
        bootstrap_tick(&mut pop, &cfg);
        assert!(pop.agents.len() <= cfg.max_population);
        let mut energies: HashMap<u64, i64> = HashMap::new();
        for a in &pop.agents {
            energies.insert(a.id, max_energy);
        }
        reproduction_tick(&mut pop, &cfg, &energies, max_energy);
        assert!(pop.agents.len() <= cfg.max_population);
        if round % 7 == 0 {
            // external culling may shrink the population between ticks
            pop.agents.truncate(pop.agents.len() / 2);
        }
    }
}
