//! The agents: corgis with a physique, an energy store, a team and a
//! genome.

use vstd::prelude::*;

use crate::genes::{topo_eq, Genome, Topology};
use crate::universe::TileType;

verus! {

/// Largest representable mass.
pub const MASS_LIMIT: i64 = 1000000;

/// Largest representable energy magnitude (the energy store saturates
/// here; agents die long before reaching the floor).
pub const ENERGY_LIMIT: i64 = 1000000000000;

/// Which side an agent claims territory for; fixed at birth.
#[derive(Clone, Copy, Debug, PartialEq, Eq, Structural)]
pub enum Team {
    Blue,
    Red,
}

/// The tile color a team's claims produce.
pub open spec fn team_tile(team: Team) -> TileType {
    match team {
        Team::Blue => TileType::Blue,
        Team::Red => TileType::Red,
    }
}

/// Whether a team owns a tile of the given type.
pub open spec fn owns(team: Team, t: TileType) -> bool {
    team_tile(team) == t
}

/// An agent's body: mass is stable within a lifetime.
#[derive(Clone, Copy, Debug, PartialEq, Eq, Structural)]
pub struct Physique {
    pub mass: i64,
}

impl Physique {
    pub open spec fn wf(&self) -> bool {
        0 <= self.mass <= MASS_LIMIT
    }
}

/// One agent. Positions are fixed-point world coordinates; one tile is
/// SCALE wide.
pub struct Corgi {
    pub energy: i64,
    pub physique: Physique,
    pub genome: Genome,
    pub team: Team,
    pub px: i64,
    pub py: i64,
    pub low_energy_ticks: u32,
}

impl Corgi {
    /// Well-formedness against the run's shared topology.
    pub open spec fn wf(&self, topology: Topology) -> bool {
        &&& self.physique.wf()
        &&& self.genome.wf()
        &&& topo_eq(self.genome.topology, topology)
        &&& -ENERGY_LIMIT <= self.energy <= ENERGY_LIMIT
        &&& self.px >= 0
        &&& self.py >= 0
    }
}

} // verus!
