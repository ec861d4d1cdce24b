//! Run configuration: the tunable surface of the simulation.

use vstd::prelude::*;

use crate::action::SPEED_LIMIT;
use crate::corgi::{ENERGY_LIMIT, MASS_LIMIT};
use crate::energy::{BASE_COST_LIMIT, GAIN_LIMIT, RATE_LIMIT};
use crate::fixed::{SCALE, WEIGHT_LIMIT};
use crate::genes::Topology;
use crate::perception::{NORM_MAX_LIMIT, SENSOR_CHANNELS};
use crate::universe::MAX_GRID_EDGE;

verus! {

/// Number of controller output slots the action convention reads.
pub const ACTION_CHANNELS: usize = 3;

/// Largest allowed population cap.
pub const POPULATION_LIMIT: usize = 100000;

/// All recognized options of a run. The topology is shared by every
/// genome of the run.
pub struct Config {
    pub topology: Topology,
    pub grid_width: usize,
    pub grid_height: usize,
    pub population_cap: usize,
    pub death_threshold: i64,
    pub death_hysteresis: u32,
    pub mutation_prob_millis: u64,
    pub mutation_magnitude: i64,
    pub reproduce_threshold: i64,
    pub birth_energy: i64,
    pub max_energy: i64,
    pub max_mass: i64,
    pub base_cost: i64,
    pub mass_rate: i64,
    pub move_rate: i64,
    pub claim_gain: i64,
    pub max_speed: i64,
    pub claim_threshold: i64,
    pub genesis_mass: i64,
    pub genesis_energy: i64,
}

impl Config {
    pub open spec fn wf(&self) -> bool {
        &&& self.topology.wf()
        &&& self.topology.input_size == SENSOR_CHANNELS
        &&& self.topology.output_size == ACTION_CHANNELS
        &&& 1 <= self.grid_width <= MAX_GRID_EDGE
        &&& 1 <= self.grid_height <= MAX_GRID_EDGE
        &&& 1 <= self.population_cap <= POPULATION_LIMIT
        &&& -ENERGY_LIMIT < self.death_threshold < ENERGY_LIMIT
        &&& 1 <= self.death_hysteresis <= 1000000
        &&& self.mutation_prob_millis <= 1000
        &&& 0 <= self.mutation_magnitude <= WEIGHT_LIMIT
        &&& 0 <= self.birth_energy <= self.reproduce_threshold
        &&& self.reproduce_threshold <= ENERGY_LIMIT
        &&& 1 <= self.max_energy <= NORM_MAX_LIMIT
        &&& 1 <= self.max_mass <= NORM_MAX_LIMIT
        &&& 0 <= self.base_cost <= BASE_COST_LIMIT
        &&& 0 <= self.mass_rate <= RATE_LIMIT
        &&& 0 <= self.move_rate <= RATE_LIMIT
        &&& 0 <= self.claim_gain <= GAIN_LIMIT
        &&& 0 <= self.max_speed <= SPEED_LIMIT
        &&& -SCALE <= self.claim_threshold <= SCALE
        &&& 0 <= self.genesis_mass <= MASS_LIMIT
        &&& 0 <= self.genesis_energy <= ENERGY_LIMIT
    }

    /// Checks every recognized option against its valid range.
    pub fn check_wf(&self) -> (r: bool)
        ensures
            r == self.wf(),
    {
        self.topology.check_wf() && self.topology.input_size == SENSOR_CHANNELS
            && self.topology.output_size == ACTION_CHANNELS && 1 <= self.grid_width
            && self.grid_width <= MAX_GRID_EDGE && 1 <= self.grid_height && self.grid_height
            <= MAX_GRID_EDGE && 1 <= self.population_cap && self.population_cap <= POPULATION_LIMIT
            && -ENERGY_LIMIT < self.death_threshold && self.death_threshold < ENERGY_LIMIT && 1
            <= self.death_hysteresis && self.death_hysteresis <= 1000000
            && self.mutation_prob_millis <= 1000 && 0 <= self.mutation_magnitude
            && self.mutation_magnitude <= WEIGHT_LIMIT && 0 <= self.birth_energy
            && self.birth_energy <= self.reproduce_threshold && self.reproduce_threshold
            <= ENERGY_LIMIT && 1 <= self.max_energy && self.max_energy <= NORM_MAX_LIMIT && 1
            <= self.max_mass && self.max_mass <= NORM_MAX_LIMIT && 0 <= self.base_cost
            && self.base_cost <= BASE_COST_LIMIT && 0 <= self.mass_rate && self.mass_rate
            <= RATE_LIMIT && 0 <= self.move_rate && self.move_rate <= RATE_LIMIT && 0
            <= self.claim_gain && self.claim_gain <= GAIN_LIMIT && 0 <= self.max_speed
            && self.max_speed <= SPEED_LIMIT && -SCALE <= self.claim_threshold
            && self.claim_threshold <= SCALE && 0 <= self.genesis_mass && self.genesis_mass
            <= MASS_LIMIT && 0 <= self.genesis_energy && self.genesis_energy <= ENERGY_LIMIT
    }
}

} // verus!
