use corgis::config::Config;
use corgis::energy::energy_tick;
use corgis::errors::CoreError;
use corgis::evolution::World;
use corgis::genes::Topology;

fn base_config() -> Config {
    Config {
        topology: Topology { input_size: 6, hidden_layers: vec![4], output_size: 3 },
        grid_width: 8,
        grid_height: 8,
        population_cap: 20,
        death_threshold: 0,
        death_hysteresis: 3,
        mutation_prob_millis: 0,
        mutation_magnitude: 0,
        reproduce_threshold: 6000,
        birth_energy: 1000,
        max_energy: 10000,
        max_mass: 10000,
        base_cost: 1,
        mass_rate: 0,
        move_rate: 0,
        claim_gain: 10,
        max_speed: 512,
        claim_threshold: 0,
        genesis_mass: 5120,
        genesis_energy: 5000,
    }
}

#[test]
fn genesis_rejects_invalid_configuration() {
    let mut cfg = base_config();
    cfg.population_cap = 0;
    let r = World::new(cfg, 1, 1);
    assert!(matches!(r, Err(CoreError::MalformedGenome)));
}

#[test]
fn genesis_rejects_empty_or_oversized_population() {
    let r = World::new(base_config(), 1, 0);
    assert!(matches!(r, Err(CoreError::EmptyPopulation)));
    let r2 = World::new(base_config(), 1, 21);
    assert!(matches!(r2, Err(CoreError::EmptyPopulation)));
}

#[test]
fn runs_are_deterministic_for_a_fixed_seed() {
    let mut w1 = World::new(base_config(), 777, 6).unwrap();
    let mut w2 = World::new(base_config(), 777, 6).unwrap();
    for _ in 0..50 {
        let s1 = w1.step().unwrap();
        let s2 = w2.step().unwrap();
        assert_eq!(s1, s2);
    }
    assert_eq!(w1.corgi_count(), w2.corgi_count());
    assert_eq!(w1.rng_state(), w2.rng_state());
    for i in 0..w1.corgi_count() {
        assert_eq!(w1.corgi_energy(i), w2.corgi_energy(i));
        assert_eq!(w1.corgi_position(i), w2.corgi_position(i));
        assert_eq!(w1.corgi_team(i), w2.corgi_team(i));
    }
    for y in 0..8 {
        for x in 0..8 {
            assert_eq!(w1.tile_owner(x, y), w2.tile_owner(x, y));
        }
    }
}

#[test]
fn idle_landless_agent_loses_energy_every_tick() {
    // Zero movement, no tile held, positive base cost: strictly
    // monotone decline, tick over tick.
    let mut e: i64 = 100;
    for _ in 0..30 {
        let next = energy_tick(e, 5120, 0, false, 7, 100, 0, 10);
        assert!(next < e);
        e = next;
    }
    assert!(e < 0);
}

#[test]
fn population_dies_out_and_signals_empty() {
    let mut cfg = base_config();
    cfg.death_threshold = 100;
    cfg.death_hysteresis = 1;
    cfg.genesis_energy = 0;
    let mut w = World::new(cfg, 9, 1).unwrap();
    let stats = w.step().unwrap();
    assert_eq!(stats.deaths, 1);
    assert_eq!(w.corgi_count(), 0);
    let r = w.step();
    assert!(matches!(r, Err(CoreError::EmptyPopulation)));
}

#[test]
fn no_mutation_control_run_keeps_population_alive() {
    // Ten agents, fixed seed, a thousand ticks under zero mutation
    // variance: the run must end with a non-empty population.
    let mut w = World::new(base_config(), 4242, 10).unwrap();
    for _ in 0..1000 {
        w.step().unwrap();
    }
    assert!(w.corgi_count() >= 1);
    assert!(w.corgi_count() <= 20);
}

#[test]
fn population_never_exceeds_the_cap() {
    let mut cfg = base_config();
    cfg.population_cap = 4;
    cfg.reproduce_threshold = 100;
    cfg.birth_energy = 50;
    cfg.genesis_energy = 5000;
    let mut w = World::new(cfg, 5, 2).unwrap();
    let mut births = 0;
    for _ in 0..20 {
        let stats = w.step().unwrap();
        births += stats.births;
        assert!(w.corgi_count() <= 4);
    }
    assert!(births > 0);
}
