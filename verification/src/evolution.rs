//! The evolutionary state machine: the per-tick update of the whole
//! world, and reproduction with selection pressure.
//!
//! A tick runs in phases with a barrier between computing actions and
//! committing consequences, so no agent's fate depends on iteration
//! order: perceive and decide for every agent against the tick-start
//! snapshot; move; resolve all tile claims; settle the energy economy;
//! remove agents that stayed under the death threshold for the
//! configured number of consecutive ticks; then possibly spawn one
//! offspring by tournament selection, crossover and mutation.
//!
//! Every phase is an exact function of the previous state and the
//! seeded random stream, which is what makes runs reproducible.

use vstd::prelude::*;
use vstd::pervasive::VecAdditionalExecFns;

use crate::action::{
    interpret_spec, move_coord_spec, movement_magnitude, tile_coord_spec, ActionExecutor,
    ActionIntent,
};
use crate::brain::{eval_from, NeuralController};
use crate::config::Config;
use crate::corgi::{owns, Corgi, Physique, Team};
use crate::energy::energy_tick_spec;
use crate::errors::CoreError;
use crate::fixed::SCALE;
use crate::genes::{crossover, crossover_weights, mutate, mutate_weights, random_genome, topo_eq};
use crate::perception::observe_spec;
use crate::rng::{rng_iter, Rng};
use crate::universe::{create_tiles, resolve_tile_spec, TerritoryGrid, Tile, TileType};

verus! {

/// The ghost view of one agent: everything the tick function reads.
pub ghost struct CorgiV {
    pub energy: i64,
    pub mass: i64,
    pub weights: Seq<i64>,
    pub team: Team,
    pub px: i64,
    pub py: i64,
    pub low: u32,
}

/// The ghost view of the configuration.
pub ghost struct CfgV {
    pub sizes: Seq<int>,
    pub grid_width: usize,
    pub grid_height: usize,
    pub population_cap: usize,
    pub death_threshold: i64,
    pub death_hysteresis: u32,
    pub mutation_prob_millis: u64,
    pub mutation_magnitude: i64,
    pub reproduce_threshold: i64,
    pub birth_energy: i64,
    pub max_energy: i64,
    pub max_mass: i64,
    pub base_cost: i64,
    pub mass_rate: i64,
    pub move_rate: i64,
    pub claim_gain: i64,
    pub max_speed: i64,
    pub claim_threshold: i64,
    pub genesis_mass: i64,
    pub genesis_energy: i64,
}

/// The ghost view of the whole mutable world state.
pub ghost struct WorldV {
    pub corgis: Seq<CorgiV>,
    pub tiles: Seq<Tile>,
    pub rng: u64,
}

pub open spec fn cv(c: Corgi) -> CorgiV {
    CorgiV {
        energy: c.energy,
        mass: c.physique.mass,
        weights: c.genome.weights@,
        team: c.team,
        px: c.px,
        py: c.py,
        low: c.low_energy_ticks,
    }
}

pub open spec fn cvs(s: Seq<Corgi>) -> Seq<CorgiV> {
    s.map_values(|c: Corgi| cv(c))
}

pub open spec fn cfgv(c: Config) -> CfgV {
    CfgV {
        sizes: c.topology.sizes(),
        grid_width: c.grid_width,
        grid_height: c.grid_height,
        population_cap: c.population_cap,
        death_threshold: c.death_threshold,
        death_hysteresis: c.death_hysteresis,
        mutation_prob_millis: c.mutation_prob_millis,
        mutation_magnitude: c.mutation_magnitude,
        reproduce_threshold: c.reproduce_threshold,
        birth_energy: c.birth_energy,
        max_energy: c.max_energy,
        max_mass: c.max_mass,
        base_cost: c.base_cost,
        mass_rate: c.mass_rate,
        move_rate: c.move_rate,
        claim_gain: c.claim_gain,
        max_speed: c.max_speed,
        claim_threshold: c.claim_threshold,
        genesis_mass: c.genesis_mass,
        genesis_energy: c.genesis_energy,
    }
}

/// Index of the tile an agent stands on.
pub open spec fn tile_idx(c: CorgiV, width: usize) -> int {
    tile_coord_spec(c.py) * width + tile_coord_spec(c.px)
}

/// Whether agents i and j stand on the same tile.
pub open spec fn same_tile(cs: Seq<CorgiV>, i: int, j: int) -> bool {
    tile_coord_spec(cs[i].px) == tile_coord_spec(cs[j].px) && tile_coord_spec(cs[i].py)
        == tile_coord_spec(cs[j].py)
}

/// The nearby-agent sensor: some other agent stands on agent i's tile.
pub open spec fn nearby_spec(cs: Seq<CorgiV>, i: int) -> bool {
    exists|j: int| 0 <= j < cs.len() && j != i && #[trigger] same_tile(cs, i, j)
}

/// What agent i decides this tick: perception of the tick-start
/// snapshot, fed through its network, interpreted by the fixed slot
/// convention.
pub open spec fn action_of(cs: Seq<CorgiV>, tiles: Seq<Tile>, c: CfgV, i: int) -> ActionIntent {
    let own_tile = tiles[tile_idx(cs[i], c.grid_width)].ttype;
    let inputs = observe_spec(
        cs[i].energy,
        cs[i].mass,
        c.max_energy,
        c.max_mass,
        own_tile,
        cs[i].team,
        nearby_spec(cs, i),
    );
    interpret_spec(eval_from(cs[i].weights, c.sizes, 1, inputs), c.max_speed, c.claim_threshold)
}

pub open spec fn actions_of(cs: Seq<CorgiV>, tiles: Seq<Tile>, c: CfgV) -> Seq<ActionIntent> {
    Seq::new(cs.len(), |i: int| action_of(cs, tiles, c, i))
}

/// One agent after its movement is applied (clamped into the world).
pub open spec fn moved_corgi(v: CorgiV, a: ActionIntent, c: CfgV) -> CorgiV {
    CorgiV {
        energy: v.energy,
        mass: v.mass,
        weights: v.weights,
        team: v.team,
        px: move_coord_spec(v.px, a.dx, (c.grid_width * SCALE) as i64) as i64,
        py: move_coord_spec(v.py, a.dy, (c.grid_height * SCALE) as i64) as i64,
        low: v.low,
    }
}

pub open spec fn moved_all(cs: Seq<CorgiV>, acts: Seq<ActionIntent>, c: CfgV) -> Seq<CorgiV> {
    Seq::new(cs.len(), |i: int| moved_corgi(cs[i], acts[i], c))
}

/// The strongest claim the given team makes on tile t among the first
/// n agents; an agent claims the tile it stands on with its mass as
/// claim strength.
pub open spec fn best_claim_upto(
    cs: Seq<CorgiV>,
    acts: Seq<ActionIntent>,
    n: int,
    t: int,
    team: Team,
    width: usize,
) -> i64
    decreases n,
{
    if n <= 0 {
        0
    } else {
        let prev = best_claim_upto(cs, acts, n - 1, t, team, width);
        if acts[n - 1].claim && cs[n - 1].team == team && tile_idx(cs[n - 1], width) == t && cs[n
            - 1].mass > prev {
            cs[n - 1].mass
        } else {
            prev
        }
    }
}

/// All tiles after this tick's claims are resolved.
pub open spec fn resolved_tiles(
    tiles: Seq<Tile>,
    cs: Seq<CorgiV>,
    acts: Seq<ActionIntent>,
    c: CfgV,
) -> Seq<Tile> {
    Seq::new(
        tiles.len(),
        |t: int|
            resolve_tile_spec(
                tiles[t],
                best_claim_upto(cs, acts, cs.len() as int, t, Team::Blue, c.grid_width),
                best_claim_upto(cs, acts, cs.len() as int, t, Team::Red, c.grid_width),
            ),
    )
}

/// One agent after the energy economy settles its tick: metabolic
/// cost, territory gain when it holds the tile it stands on, and the
/// death-hysteresis counter.
pub open spec fn energy_updated_corgi(v: CorgiV, a: ActionIntent, tiles: Seq<Tile>, c: CfgV) -> CorgiV {
    let holds = owns(v.team, tiles[tile_idx(v, c.grid_width)].ttype);
    let e = energy_tick_spec(
        v.energy,
        v.mass,
        movement_magnitude(a),
        holds,
        c.base_cost,
        c.mass_rate,
        c.move_rate,
        c.claim_gain,
    ) as i64;
    let low = if e < c.death_threshold {
        if v.low < c.death_hysteresis {
            (v.low + 1) as u32
        } else {
            v.low
        }
    } else {
        0u32
    };
    CorgiV {
        energy: e,
        mass: v.mass,
        weights: v.weights,
        team: v.team,
        px: v.px,
        py: v.py,
        low,
    }
}

pub open spec fn energy_updated_all(
    cs: Seq<CorgiV>,
    acts: Seq<ActionIntent>,
    tiles: Seq<Tile>,
    c: CfgV,
) -> Seq<CorgiV> {
    Seq::new(cs.len(), |i: int| energy_updated_corgi(cs[i], acts[i], tiles, c))
}

/// Whether an agent survives the death check: it has not been under
/// the death threshold for the configured number of consecutive ticks.
pub open spec fn alive(v: CorgiV, hysteresis: u32) -> bool {
    v.low < hysteresis
}

/// The agents left after the death check, in order.
pub open spec fn survivors_of(cs: Seq<CorgiV>, hysteresis: u32) -> Seq<CorgiV>
    decreases cs.len(),
{
    if cs.len() == 0 {
        Seq::empty()
    } else {
        let head = survivors_of(cs.drop_last(), hysteresis);
        if alive(cs.last(), hysteresis) {
            head.push(cs.last())
        } else {
            head
        }
    }
}

/// Index of the first agent whose energy reaches the reproduction
/// threshold, or -1.
pub open spec fn first_parent_from(cs: Seq<CorgiV>, threshold: i64, i: int) -> int
    decreases cs.len() - i,
{
    if i < 0 || i >= cs.len() {
        -1
    } else if cs[i].energy >= threshold {
        i
    } else {
        first_parent_from(cs, threshold, i + 1)
    }
}

/// Tournament selection of the second parent: two uniform draws from
/// the population, each falling back to the first parent when it hits
/// an incompatible team, and the higher current energy wins (the first
/// candidate on a tie).
pub open spec fn tournament_pick(cs: Seq<CorgiV>, p1: int, v1: u64, v2: u64) -> int {
    let i1 = (v1 as int) % (cs.len() as int);
    let i2 = (v2 as int) % (cs.len() as int);
    let c1 = if cs[i1].team == cs[p1].team {
        i1
    } else {
        p1
    };
    let c2 = if cs[i2].team == cs[p1].team {
        i2
    } else {
        p1
    };
    if cs[c2].energy > cs[c1].energy {
        c2
    } else {
        c1
    }
}

/// The population after the reproduction phase: when there is room
/// under the cap and some agent's energy reaches the reproduction
/// threshold, that agent and a tournament-selected mate of its team
/// produce one child by crossover and mutation; the parent pays the
/// child's birth energy. Returns the new population, the random state
/// after the draws, and the number of births.
pub open spec fn reproduce_spec(cs: Seq<CorgiV>, s: u64, c: CfgV) -> (Seq<CorgiV>, u64, int) {
    if cs.len() == 0 || cs.len() >= c.population_cap {
        (cs, s, 0)
    } else {
        let p1 = first_parent_from(cs, c.reproduce_threshold, 0);
        if p1 < 0 {
            (cs, s, 0)
        } else {
            let v1 = rng_iter(s, 1);
            let v2 = rng_iter(s, 2);
            let p2 = tournament_pick(cs, p1, v1, v2);
            let s0 = rng_iter(s, 2);
            let cw = crossover_weights(cs[p1].weights, cs[p2].weights, s0);
            let s1 = rng_iter(s0, cs[p1].weights.len());
            let mw = mutate_weights(cw, s1, c.mutation_prob_millis, c.mutation_magnitude);
            let s2 = rng_iter(s1, cw.len());
            let parent = cs[p1];
            let parent2 = CorgiV {
                energy: (parent.energy - c.birth_energy) as i64,
                mass: parent.mass,
                weights: parent.weights,
                team: parent.team,
                px: parent.px,
                py: parent.py,
                low: parent.low,
            };
            let child = CorgiV {
                energy: c.birth_energy,
                mass: parent.mass,
                weights: mw,
                team: parent.team,
                px: parent.px,
                py: parent.py,
                low: 0u32,
            };
            (cs.update(p1, parent2).push(child), s2, 1)
        }
    }
}

/// The whole tick as a function of the world view: actions from the
/// snapshot, movement, claim resolution, energy economy, deaths,
/// reproduction. Returns the next view, the number of deaths and the
/// number of births.
pub open spec fn tick_view(v: WorldV, c: CfgV) -> (WorldV, int, int) {
    let acts = actions_of(v.corgis, v.tiles, c);
    let m = moved_all(v.corgis, acts, c);
    let tiles2 = resolved_tiles(v.tiles, m, acts, c);
    let e = energy_updated_all(m, acts, tiles2, c);
    let sv = survivors_of(e, c.death_hysteresis);
    let r = reproduce_spec(sv, v.rng, c);
    (WorldV { corgis: r.0, tiles: tiles2, rng: r.1 }, v.corgis.len() - sv.len(), r.2)
}

/// The view after n ticks.
pub open spec fn run_view(v: WorldV, c: CfgV, n: nat) -> WorldV
    decreases n,
{
    if n == 0 {
        v
    } else {
        tick_view(run_view(v, c, (n - 1) as nat), c).0
    }
}

/// Law (determinism): the tick and hence any run is a pure function of
/// the initial view and the configuration view: two runs with
/// identical initial population, territory, random seed and
/// configuration pass through identical world states — identical
/// deaths, births and tile ownership — for any number of ticks.
pub proof fn lemma_run_deterministic(v1: WorldV, v2: WorldV, c1: CfgV, c2: CfgV, n: nat)
    requires
        v1 == v2,
        c1 == c2,
    ensures
        run_view(v1, c1, n) == run_view(v2, c2, n),
        tick_view(run_view(v1, c1, n), c1) == tick_view(run_view(v2, c2, n), c2),
{
}

/// What one tick reports besides the new state.
#[derive(Clone, Copy, Debug, PartialEq, Eq, Structural)]
pub struct TickStats {
    pub deaths: usize,
    pub births: usize,
}


/// An agent's ghost view at genesis: alternating teams, positions laid
/// out row-major over the grid, configured mass and energy, genome
/// drawn from the seeded stream (agent i consumes draws
/// [i * weight_count, (i + 1) * weight_count)).
pub open spec fn genesis_corgi(c: CfgV, seed: u64, wc: nat, i: int) -> CorgiV {
    CorgiV {
        energy: c.genesis_energy,
        mass: c.genesis_mass,
        weights: crate::genes::genesis_weights(wc, rng_iter(seed, (i * wc) as nat)),
        team: if i % 2 == 0 {
            Team::Blue
        } else {
            Team::Red
        },
        px: ((i % (c.grid_width as int)) * SCALE) as i64,
        py: (((i / (c.grid_width as int)) % (c.grid_height as int)) * SCALE) as i64,
        low: 0u32,
    }
}

/// One corgi satisfies everything the world invariant asks of it.
pub open spec fn corgi_ok(c: Corgi, cfg: Config) -> bool {
    &&& c.wf(cfg.topology)
    &&& c.px < cfg.grid_width * SCALE
    &&& c.py < cfg.grid_height * SCALE
    &&& c.low_energy_ticks <= cfg.death_hysteresis
}

/// The whole simulation state of a run.
pub struct World {
    pub cfg: Config,
    pub corgis: Vec<Corgi>,
    pub grid: TerritoryGrid,
    pub rng: Rng,
}

/// The ghost view of a world.
pub open spec fn view_w(w: World) -> WorldV {
    WorldV { corgis: cvs(w.corgis@), tiles: w.grid.tiles@, rng: w.rng.state }
}

impl World {
    /// The world invariant: valid configuration, grid of the
    /// configured dimensions, every agent well-formed, inside the
    /// world, sharing the run's topology, population under the cap.
    pub open spec fn wf(&self) -> bool {
        &&& self.cfg.wf()
        &&& self.grid.wf()
        &&& self.grid.width == self.cfg.grid_width
        &&& self.grid.height == self.cfg.grid_height
        &&& self.corgis@.len() <= self.cfg.population_cap
        &&& forall|i: int|
            0 <= i < self.corgis@.len() ==> corgi_ok(#[trigger] self.corgis@[i], self.cfg)
    }

    pub fn corgi_count(&self) -> (r: usize)
        ensures
            r == self.corgis@.len(),
    {
        self.corgis.len()
    }

    pub fn corgi_energy(&self, i: usize) -> (r: i64)
        requires
            i < self.corgis@.len(),
        ensures
            r == self.corgis@[i as int].energy,
    {
        self.corgis[i].energy
    }

    pub fn corgi_position(&self, i: usize) -> (r: (i64, i64))
        requires
            i < self.corgis@.len(),
        ensures
            r.0 == self.corgis@[i as int].px,
            r.1 == self.corgis@[i as int].py,
    {
        (self.corgis[i].px, self.corgis[i].py)
    }

    pub fn corgi_team(&self, i: usize) -> (r: Team)
        requires
            i < self.corgis@.len(),
        ensures
            r == self.corgis@[i as int].team,
    {
        self.corgis[i].team
    }

    pub fn tile_owner(&self, x: usize, y: usize) -> (r: TileType)
        requires
            self.wf(),
            x < self.cfg.grid_width,
            y < self.cfg.grid_height,
        ensures
            r == self.grid.spec_tile_at(x as int, y as int).ttype,
    {
        self.grid.tile_at(x, y).ttype
    }

    pub fn rng_state(&self) -> (r: u64)
        ensures
            r == self.rng.state,
    {
        self.rng.state
    }

    /// World genesis: an all-neutral territory and `count` agents with
    /// random genomes, alternating teams, at row-major positions.
    /// Succeeds exactly when the configuration is valid and the count
    /// fits under the population cap.
    pub fn new(cfg: Config, seed: u64, count: usize) -> (r: Result<World, CoreError>)
        ensures
            r is Ok <==> (cfg.wf() && 1 <= count <= cfg.population_cap),
            r is Err ==> r->Err_0 == (if !cfg.wf() {
                CoreError::MalformedGenome
            } else {
                CoreError::EmptyPopulation
            }),
            r is Ok ==> ({
                let w = r->Ok_0;
                let wc = cfg.topology.weight_count() as nat;
                &&& w.wf()
                &&& w.cfg == cfg
                &&& w.corgis@.len() == count
                &&& forall|i: int|
                    0 <= i < count ==> cv(#[trigger] w.corgis@[i]) == genesis_corgi(
                        cfgv(cfg),
                        seed,
                        wc,
                        i,
                    )
                &&& forall|t: int|
                    0 <= t < w.grid.tiles@.len() ==> #[trigger] w.grid.tiles@[t] == (Tile {
                        ttype: TileType::Neutral,
                        claim: 0i64,
                    })
                &&& w.rng.state == rng_iter(seed, (count * wc) as nat)
            }),
    {
        if !cfg.check_wf() {
            return Err(CoreError::MalformedGenome);
        }
        if count == 0 || count > cfg.population_cap {
            return Err(CoreError::EmptyPopulation);
        }
        let grid = create_tiles(cfg.grid_width, cfg.grid_height);
        let mut rng = Rng::new(seed);
        let wc = cfg.topology.compute_weight_count();
        let mut corgis: Vec<Corgi> = Vec::new();
        let mut i: usize = 0;
        while i < count
            invariant
                cfg.wf(),
                wc as int == cfg.topology.weight_count(),
                0 <= i <= count,
                count <= cfg.population_cap,
                rng.state == rng_iter(seed, (i * wc) as nat),
                corgis@.len() == i,
                forall|j: int|
                    0 <= j < i ==> cv(#[trigger] corgis@[j]) == genesis_corgi(
                        cfgv(cfg),
                        seed,
                        wc as nat,
                        j,
                    ),
                forall|j: int| 0 <= j < i ==> corgi_ok(#[trigger] corgis@[j], cfg),
            decreases count - i,
        {
            proof {
                crate::rng::lemma_rng_iter_add(seed, (i * wc) as nat, wc as nat);
                assert((i * wc) as int + wc as int == ((i + 1) * wc) as int) by (nonlinear_arith);
            }
            let genome = random_genome(&cfg.topology, &mut rng);
            let team = if i % 2 == 0 {
                Team::Blue
            } else {
                Team::Red
            };
            let px: i64 = ((i % cfg.grid_width) as i64) * SCALE;
            let py: i64 = (((i / cfg.grid_width) % cfg.grid_height) as i64) * SCALE;
            proof {
                assert((i as int % (cfg.grid_width as int)) * SCALE < cfg.grid_width * SCALE)
                    by (nonlinear_arith)
                    requires
                        1 <= cfg.grid_width,
                        0 <= i as int % (cfg.grid_width as int) < cfg.grid_width as int,
                ;
                assert(((i as int / (cfg.grid_width as int)) % (cfg.grid_height as int)) * SCALE
                    < cfg.grid_height * SCALE) by (nonlinear_arith)
                    requires
                        1 <= cfg.grid_height,
                        0 <= (i as int / (cfg.grid_width as int)) % (cfg.grid_height as int)
                            < cfg.grid_height as int,
                ;
            }
            let c = Corgi {
                energy: cfg.genesis_energy,
                physique: Physique { mass: cfg.genesis_mass },
                genome,
                team,
                px,
                py,
                low_energy_ticks: 0,
            };
            corgis.push(c);
            i = i + 1;
        }
        Ok(World { cfg, corgis, grid, rng })
    }
}

/// Whether some other agent stands on agent i's tile.
fn nearby_scan(corgis: &Vec<Corgi>, i: usize, cfg: &Config) -> (r: bool)
    requires
        cfg.wf(),
        i < corgis@.len(),
        forall|k: int| 0 <= k < corgis@.len() ==> corgi_ok(#[trigger] corgis@[k], *cfg),
    ensures
        r == nearby_spec(cvs(corgis@), i as int),
{
    let ghost cs = cvs(corgis@);
    let txi = crate::action::tile_coord(corgis[i].px, cfg.grid_width);
    let tyi = crate::action::tile_coord(corgis[i].py, cfg.grid_height);
    let mut j: usize = 0;
    while j < corgis.len()
        invariant
            cfg.wf(),
            cs == cvs(corgis@),
            i < corgis@.len(),
            forall|k: int| 0 <= k < corgis@.len() ==> corgi_ok(#[trigger] corgis@[k], *cfg),
            txi as int == tile_coord_spec(cs[i as int].px),
            tyi as int == tile_coord_spec(cs[i as int].py),
            0 <= j <= corgis@.len(),
            forall|jj: int| 0 <= jj < j ==> !(jj != i && #[trigger] same_tile(cs, i as int, jj)),
        decreases corgis@.len() - j,
    {
        if j != i {
            let txj = crate::action::tile_coord(corgis[j].px, cfg.grid_width);
            let tyj = crate::action::tile_coord(corgis[j].py, cfg.grid_height);
            if txj == txi && tyj == tyi {
                proof {
                    assert(same_tile(cs, i as int, j as int));
                }
                return true;
            }
        }
        j = j + 1;
    }
    false
}

/// Phase one of a tick: every agent's decision against the tick-start
/// snapshot. Pure in the world state; agents are mutually independent.
fn compute_actions(corgis: &Vec<Corgi>, grid: &TerritoryGrid, cfg: &Config) -> (r: Vec<
    ActionIntent,
>)
    requires
        cfg.wf(),
        grid.wf(),
        grid.width == cfg.grid_width,
        grid.height == cfg.grid_height,
        forall|k: int| 0 <= k < corgis@.len() ==> corgi_ok(#[trigger] corgis@[k], *cfg),
    ensures
        r@ == actions_of(cvs(corgis@), grid.tiles@, cfgv(*cfg)),
        r@.len() == corgis@.len(),
        forall|k: int|
            0 <= k < r@.len() ==> -cfg.max_speed <= (#[trigger] r@[k]).dx <= cfg.max_speed
                && -cfg.max_speed <= r@[k].dy <= cfg.max_speed,
{
    let ghost cs = cvs(corgis@);
    let ghost c = cfgv(*cfg);
    let ghost target = actions_of(cs, grid.tiles@, c);
    let mut r: Vec<ActionIntent> = Vec::new();
    let mut i: usize = 0;
    while i < corgis.len()
        invariant
            cfg.wf(),
            grid.wf(),
            grid.width == cfg.grid_width,
            grid.height == cfg.grid_height,
            forall|k: int| 0 <= k < corgis@.len() ==> corgi_ok(#[trigger] corgis@[k], *cfg),
            cs == cvs(corgis@),
            c == cfgv(*cfg),
            target == actions_of(cs, grid.tiles@, c),
            0 <= i <= corgis@.len(),
            r@.len() == i,
            forall|k: int| 0 <= k < i ==> #[trigger] r@[k] == target[k],
            forall|k: int|
                0 <= k < i ==> -cfg.max_speed <= (#[trigger] r@[k]).dx <= cfg.max_speed
                    && -cfg.max_speed <= r@[k].dy <= cfg.max_speed,
        decreases corgis@.len() - i,
    {
        let corgi = &corgis[i];
        let nearby = nearby_scan(corgis, i, cfg);
        let tx = crate::action::tile_coord(corgi.px, cfg.grid_width);
        let ty = crate::action::tile_coord(corgi.py, cfg.grid_height);
        let own_tile = grid.tile_at(tx, ty).ttype;
        proof {
            grid.lemma_index_in_bounds(tx as int, ty as int);
            assert(grid.spec_index_of(tx as int, ty as int) == tile_idx(cs[i as int], cfg.grid_width));
        }
        let inputs = crate::perception::observe(corgi, own_tile, nearby, cfg.max_energy, cfg.max_mass);
        proof {
            corgi.genome.topology.lemma_eq_shape(&cfg.topology);
        }
        let outputs = NeuralController::evaluate(&corgi.genome, &inputs);
        let act = ActionExecutor::interpret(&outputs, cfg.max_speed, cfg.claim_threshold);
        proof {
            assert(act == action_of(cs, grid.tiles@, c, i as int));
        }
        r.push(act);
        i = i + 1;
    }
    proof {
        assert(r@ =~= target);
    }
    r
}

/// Phase two: apply every agent's movement, clamped into the world.
fn apply_movement(corgis: &Vec<Corgi>, acts: &Vec<ActionIntent>, cfg: &Config) -> (r: Vec<Corgi>)
    requires
        cfg.wf(),
        acts@.len() == corgis@.len(),
        forall|k: int| 0 <= k < corgis@.len() ==> corgi_ok(#[trigger] corgis@[k], *cfg),
        forall|k: int|
            0 <= k < acts@.len() ==> -cfg.max_speed <= (#[trigger] acts@[k]).dx <= cfg.max_speed
                && -cfg.max_speed <= acts@[k].dy <= cfg.max_speed,
    ensures
        cvs(r@) == moved_all(cvs(corgis@), acts@, cfgv(*cfg)),
        r@.len() == corgis@.len(),
        forall|k: int| 0 <= k < r@.len() ==> corgi_ok(#[trigger] r@[k], *cfg),
{
    let ghost cs = cvs(corgis@);
    let ghost c = cfgv(*cfg);
    let ghost target = moved_all(cs, acts@, c);
    let w_limit: i64 = (cfg.grid_width as i64) * SCALE;
    let h_limit: i64 = (cfg.grid_height as i64) * SCALE;
    proof {
        assert(1 <= cfg.grid_width * SCALE <= 1048576) by (nonlinear_arith)
            requires
                1 <= cfg.grid_width <= 1024,
        ;
        assert(1 <= cfg.grid_height * SCALE <= 1048576) by (nonlinear_arith)
            requires
                1 <= cfg.grid_height <= 1024,
        ;
    }
    let mut r: Vec<Corgi> = Vec::new();
    let mut i: usize = 0;
    while i < corgis.len()
        invariant
            cfg.wf(),
            acts@.len() == corgis@.len(),
            forall|k: int| 0 <= k < corgis@.len() ==> corgi_ok(#[trigger] corgis@[k], *cfg),
            forall|k: int|
                0 <= k < acts@.len() ==> -cfg.max_speed <= (#[trigger] acts@[k]).dx
                    <= cfg.max_speed && -cfg.max_speed <= acts@[k].dy <= cfg.max_speed,
            cs == cvs(corgis@),
            c == cfgv(*cfg),
            target == moved_all(cs, acts@, c),
            w_limit as int == cfg.grid_width * SCALE,
            h_limit as int == cfg.grid_height * SCALE,
            1 <= w_limit <= 1048576,
            1 <= h_limit <= 1048576,
            0 <= i <= corgis@.len(),
            r@.len() == i,
            forall|k: int| 0 <= k < i ==> cv(#[trigger] r@[k]) == target[k],
            forall|k: int| 0 <= k < i ==> corgi_ok(#[trigger] r@[k], *cfg),
        decreases corgis@.len() - i,
    {
        let corgi = &corgis[i];
        let a = acts[i];
        let px = crate::action::move_coord(corgi.px, a.dx, w_limit);
        let py = crate::action::move_coord(corgi.py, a.dy, h_limit);
        let genome = corgi.genome.clone_g();
        proof {
            genome.topology.lemma_eq_shape(&corgi.genome.topology);
        }
        let moved = Corgi {
            energy: corgi.energy,
            physique: corgi.physique,
            genome,
            team: corgi.team,
            px,
            py,
            low_energy_ticks: corgi.low_energy_ticks,
        };
        proof {
            assert(cv(moved) == moved_corgi(cs[i as int], acts@[i as int], c));
        }
        r.push(moved);
        i = i + 1;
    }
    proof {
        assert(cvs(r@) =~= target);
    }
    r
}

/// Phase three: resolve this tick's claims, tile by tile, against the
/// claims collected from all agents (the barrier between deciding and
/// committing keeps the outcome independent of agent order).
fn commit_claims(grid: &TerritoryGrid, moved: &Vec<Corgi>, acts: &Vec<ActionIntent>, cfg: &Config) -> (r: Vec<Tile>)
    requires
        cfg.wf(),
        grid.wf(),
        grid.width == cfg.grid_width,
        grid.height == cfg.grid_height,
        acts@.len() == moved@.len(),
        forall|k: int| 0 <= k < moved@.len() ==> corgi_ok(#[trigger] moved@[k], *cfg),
    ensures
        r@ == resolved_tiles(grid.tiles@, cvs(moved@), acts@, cfgv(*cfg)),
        r@.len() == grid.tiles@.len(),
        forall|t: int| 0 <= t < r@.len() ==> (#[trigger] r@[t]).wf(),
{
    let ghost cs = cvs(moved@);
    let ghost c = cfgv(*cfg);
    let total = grid.tiles.len();
    let mut bb: Vec<i64> = Vec::new();
    let mut br: Vec<i64> = Vec::new();
    let mut t: usize = 0;
    while t < total
        invariant
            0 <= t <= total,
            bb@.len() == t,
            br@.len() == t,
            forall|k: int| 0 <= k < t ==> #[trigger] bb@[k] == 0i64,
            forall|k: int| 0 <= k < t ==> #[trigger] br@[k] == 0i64,
        decreases total - t,
    {
        bb.push(0);
        br.push(0);
        t = t + 1;
    }
    let mut n: usize = 0;
    while n < moved.len()
        invariant
            cfg.wf(),
            grid.wf(),
            grid.width == cfg.grid_width,
            grid.height == cfg.grid_height,
            acts@.len() == moved@.len(),
            forall|k: int| 0 <= k < moved@.len() ==> corgi_ok(#[trigger] moved@[k], *cfg),
            cs == cvs(moved@),
            c == cfgv(*cfg),
            total == grid.tiles@.len(),
            bb@.len() == total,
            br@.len() == total,
            0 <= n <= moved@.len(),
            forall|ti: int|
                0 <= ti < total ==> #[trigger] bb@[ti] == best_claim_upto(
                    cs,
                    acts@,
                    n as int,
                    ti,
                    Team::Blue,
                    cfg.grid_width,
                ),
            forall|ti: int|
                0 <= ti < total ==> #[trigger] br@[ti] == best_claim_upto(
                    cs,
                    acts@,
                    n as int,
                    ti,
                    Team::Red,
                    cfg.grid_width,
                ),
            forall|ti: int| 0 <= ti < total ==> #[trigger] bb@[ti] >= 0,
            forall|ti: int| 0 <= ti < total ==> #[trigger] br@[ti] >= 0,
        decreases moved@.len() - n,
    {
        let ghost bb_old = bb@;
        let ghost br_old = br@;
        let corgi = &moved[n];
        let a = acts[n];
        if a.claim {
            let tx = crate::action::tile_coord(corgi.px, cfg.grid_width);
            let ty = crate::action::tile_coord(corgi.py, cfg.grid_height);
            let ti = grid.index_of(tx, ty);
            proof {
                assert(ti as int == tile_idx(cs[n as int], cfg.grid_width));
            }
            let mass = corgi.physique.mass;
            match corgi.team {
                Team::Blue => {
                    if mass > bb[ti] {
                        bb.set(ti, mass);
                    }
                },
                Team::Red => {
                    if mass > br[ti] {
                        br.set(ti, mass);
                    }
                },
            }
        }
        proof {
            assert forall|ti: int| 0 <= ti < total implies #[trigger] bb@[ti] == best_claim_upto(
                cs,
                acts@,
                n + 1,
                ti,
                Team::Blue,
                cfg.grid_width,
            ) by {
                assert(bb_old[ti] == best_claim_upto(cs, acts@, n as int, ti, Team::Blue, cfg.grid_width));
            }
            assert forall|ti: int| 0 <= ti < total implies #[trigger] br@[ti] == best_claim_upto(
                cs,
                acts@,
                n + 1,
                ti,
                Team::Red,
                cfg.grid_width,
            ) by {
                assert(br_old[ti] == best_claim_upto(cs, acts@, n as int, ti, Team::Red, cfg.grid_width));
            }
        }
        n = n + 1;
    }
    let ghost target = resolved_tiles(grid.tiles@, cs, acts@, c);
    let mut r: Vec<Tile> = Vec::new();
    let mut ti: usize = 0;
    while ti < total
        invariant
            grid.wf(),
            cs == cvs(moved@),
            c == cfgv(*cfg),
            cfg.grid_width == c.grid_width,
            total == grid.tiles@.len(),
            bb@.len() == total,
            br@.len() == total,
            cs.len() == moved@.len(),
            target == resolved_tiles(grid.tiles@, cs, acts@, c),
            forall|k: int|
                0 <= k < total ==> #[trigger] bb@[k] == best_claim_upto(
                    cs,
                    acts@,
                    cs.len() as int,
                    k,
                    Team::Blue,
                    c.grid_width,
                ),
            forall|k: int|
                0 <= k < total ==> #[trigger] br@[k] == best_claim_upto(
                    cs,
                    acts@,
                    cs.len() as int,
                    k,
                    Team::Red,
                    c.grid_width,
                ),
            forall|k: int| 0 <= k < total ==> #[trigger] bb@[k] >= 0,
            forall|k: int| 0 <= k < total ==> #[trigger] br@[k] >= 0,
            0 <= ti <= total,
            r@.len() == ti,
            forall|k: int| 0 <= k < ti ==> #[trigger] r@[k] == target[k],
            forall|k: int| 0 <= k < ti ==> (#[trigger] r@[k]).wf(),
        decreases total - ti,
    {
        let old_tile = grid.tiles[ti];
        let new_tile = crate::universe::resolve_tile(old_tile, bb[ti], br[ti]);
        proof {
            crate::universe::lemma_resolve_wf(old_tile, bb@[ti as int], br@[ti as int]);
        }
        r.push(new_tile);
        ti = ti + 1;
    }
    proof {
        assert(r@ =~= target);
    }
    r
}

/// Phase four: the energy economy settles every agent's tick, and the
/// death-hysteresis counter advances.
fn settle_energy(moved: &Vec<Corgi>, acts: &Vec<ActionIntent>, tiles: &Vec<Tile>, cfg: &Config) -> (r: Vec<Corgi>)
    requires
        cfg.wf(),
        acts@.len() == moved@.len(),
        tiles@.len() == cfg.grid_width * cfg.grid_height,
        forall|k: int| 0 <= k < moved@.len() ==> corgi_ok(#[trigger] moved@[k], *cfg),
        forall|k: int|
            0 <= k < acts@.len() ==> -cfg.max_speed <= (#[trigger] acts@[k]).dx <= cfg.max_speed
                && -cfg.max_speed <= acts@[k].dy <= cfg.max_speed,
    ensures
        cvs(r@) == energy_updated_all(cvs(moved@), acts@, tiles@, cfgv(*cfg)),
        r@.len() == moved@.len(),
        forall|k: int| 0 <= k < r@.len() ==> corgi_ok(#[trigger] r@[k], *cfg),
{
    let ghost cs = cvs(moved@);
    let ghost c = cfgv(*cfg);
    let ghost target = energy_updated_all(cs, acts@, tiles@, c);
    let mut r: Vec<Corgi> = Vec::new();
    let mut i: usize = 0;
    while i < moved.len()
        invariant
            cfg.wf(),
            acts@.len() == moved@.len(),
            tiles@.len() == cfg.grid_width * cfg.grid_height,
            forall|k: int| 0 <= k < moved@.len() ==> corgi_ok(#[trigger] moved@[k], *cfg),
            forall|k: int|
                0 <= k < acts@.len() ==> -cfg.max_speed <= (#[trigger] acts@[k]).dx
                    <= cfg.max_speed && -cfg.max_speed <= acts@[k].dy <= cfg.max_speed,
            cs == cvs(moved@),
            c == cfgv(*cfg),
            target == energy_updated_all(cs, acts@, tiles@, c),
            0 <= i <= moved@.len(),
            r@.len() == i,
            forall|k: int| 0 <= k < i ==> cv(#[trigger] r@[k]) == target[k],
            forall|k: int| 0 <= k < i ==> corgi_ok(#[trigger] r@[k], *cfg),
        decreases moved@.len() - i,
    {
        let corgi = &moved[i];
        let a = acts[i];
        let tx = crate::action::tile_coord(corgi.px, cfg.grid_width);
        let ty = crate::action::tile_coord(corgi.py, cfg.grid_height);
        proof {
            assert(ty * cfg.grid_width + tx < cfg.grid_width * cfg.grid_height
                && ty * cfg.grid_width >= 0 && ty * cfg.grid_width + tx < 1048576)
                by (nonlinear_arith)
                requires
                    0 <= tx < cfg.grid_width <= 1024,
                    0 <= ty < cfg.grid_height <= 1024,
            ;
        }
        let ti: usize = ty * cfg.grid_width + tx;
        proof {
            assert(ti as int == tile_idx(cs[i as int], cfg.grid_width));
        }
        let own_tile = tiles[ti].ttype;
        let holds = match (corgi.team, own_tile) {
            (Team::Blue, TileType::Blue) => true,
            (Team::Red, TileType::Red) => true,
            _ => false,
        };
        proof {
            assert(holds == owns(cs[i as int].team, tiles@[tile_idx(cs[i as int], c.grid_width)].ttype));
        }
        let mdx: i64 = if a.dx >= 0 {
            a.dx
        } else {
            -a.dx
        };
        let mdy: i64 = if a.dy >= 0 {
            a.dy
        } else {
            -a.dy
        };
        let movement: i64 = mdx + mdy;
        proof {
            assert(movement as int == movement_magnitude(acts@[i as int]));
        }
        let e = crate::energy::energy_tick(
            corgi.energy,
            corgi.physique.mass,
            movement,
            holds,
            cfg.base_cost,
            cfg.mass_rate,
            cfg.move_rate,
            cfg.claim_gain,
        );
        let low: u32 = if e < cfg.death_threshold {
            if corgi.low_energy_ticks < cfg.death_hysteresis {
                corgi.low_energy_ticks + 1
            } else {
                corgi.low_energy_ticks
            }
        } else {
            0
        };
        let genome = corgi.genome.clone_g();
        proof {
            genome.topology.lemma_eq_shape(&corgi.genome.topology);
        }
        let settled = Corgi {
            energy: e,
            physique: corgi.physique,
            genome,
            team: corgi.team,
            px: corgi.px,
            py: corgi.py,
            low_energy_ticks: low,
        };
        proof {
            assert(cv(settled) == energy_updated_corgi(cs[i as int], acts@[i as int], tiles@, c));
        }
        r.push(settled);
        i = i + 1;
    }
    proof {
        assert(cvs(r@) =~= target);
    }
    r
}

/// Phase five: the death check removes every agent that has stayed
/// under the death threshold for the configured number of consecutive
/// ticks.
fn filter_survivors(settled: &Vec<Corgi>, cfg: &Config) -> (r: Vec<Corgi>)
    requires
        cfg.wf(),
        forall|k: int| 0 <= k < settled@.len() ==> corgi_ok(#[trigger] settled@[k], *cfg),
    ensures
        cvs(r@) == survivors_of(cvs(settled@), cfg.death_hysteresis),
        r@.len() <= settled@.len(),
        forall|k: int| 0 <= k < r@.len() ==> corgi_ok(#[trigger] r@[k], *cfg),
{
    let ghost cs = cvs(settled@);
    let mut r: Vec<Corgi> = Vec::new();
    let mut i: usize = 0;
    while i < settled.len()
        invariant
            cfg.wf(),
            forall|k: int| 0 <= k < settled@.len() ==> corgi_ok(#[trigger] settled@[k], *cfg),
            cs == cvs(settled@),
            0 <= i <= settled@.len(),
            r@.len() <= i,
            cvs(r@) == survivors_of(cs.subrange(0, i as int), cfg.death_hysteresis),
            forall|k: int| 0 <= k < r@.len() ==> corgi_ok(#[trigger] r@[k], *cfg),
        decreases settled@.len() - i,
    {
        let ghost prefix = cs.subrange(0, i as int);
        let ghost prefix2 = cs.subrange(0, i + 1);
        proof {
            assert(prefix2.drop_last() =~= prefix);
            assert(prefix2.last() == cs[i as int]);
        }
        let corgi = &settled[i];
        if corgi.low_energy_ticks < cfg.death_hysteresis {
            let genome = corgi.genome.clone_g();
            proof {
                genome.topology.lemma_eq_shape(&corgi.genome.topology);
            }
            let kept = Corgi {
                energy: corgi.energy,
                physique: corgi.physique,
                genome,
                team: corgi.team,
                px: corgi.px,
                py: corgi.py,
                low_energy_ticks: corgi.low_energy_ticks,
            };
            proof {
                assert(cv(kept) == cs[i as int]);
            }
            r.push(kept);
            proof {
                assert(cvs(r@) =~= survivors_of(prefix2, cfg.death_hysteresis));
            }
        } else {
            proof {
                assert(cvs(r@) =~= survivors_of(prefix2, cfg.death_hysteresis));
            }
        }
        i = i + 1;
    }
    proof {
        assert(cs.subrange(0, cs.len() as int) =~= cs);
    }
    r
}

impl World {
    /// One tick of the world: every agent perceives, decides and acts
    /// exactly once; claims are resolved; the energy economy settles;
    /// agents dead past the hysteresis are removed; at most one
    /// offspring is spawned by tournament selection, crossover and
    /// mutation. The new state, the deaths and the births are exactly
    /// `tick_view` of the old state: runs are reproducible from the
    /// seed. An empty population is reported as a terminal condition
    /// and the world is left unchanged.
    #[verifier::rlimit(50)]
    pub fn step(&mut self) -> (r: Result<TickStats, CoreError>)
        requires
            old(self).wf(),
        ensures
            final(self).wf(),
            final(self).cfg == old(self).cfg,
            old(self).corgis@.len() == 0 ==> r is Err && r->Err_0 == CoreError::EmptyPopulation
                && *final(self) == *old(self),
            old(self).corgis@.len() > 0 ==> r is Ok && ({
                let t = tick_view(view_w(*old(self)), cfgv(old(self).cfg));
                &&& view_w(*final(self)) == t.0
                &&& r->Ok_0.deaths as int == t.1
                &&& r->Ok_0.births as int == t.2
            }),
    {
        if self.corgis.len() == 0 {
            return Err(CoreError::EmptyPopulation);
        }
        let ghost v0 = view_w(*self);
        let ghost c = cfgv(self.cfg);
        let acts = compute_actions(&self.corgis, &self.grid, &self.cfg);
        let moved = apply_movement(&self.corgis, &acts, &self.cfg);
        let new_tiles = commit_claims(&self.grid, &moved, &acts, &self.cfg);
        let settled = settle_energy(&moved, &acts, &new_tiles, &self.cfg);
        let mut survivors = filter_survivors(&settled, &self.cfg);
        let ghost sv = cvs(survivors@);
        let deaths: usize = self.corgis.len() - survivors.len();
        proof {
            assert(sv == survivors_of(
                energy_updated_all(
                    moved_all(v0.corgis, actions_of(v0.corgis, v0.tiles, c), c),
                    actions_of(v0.corgis, v0.tiles, c),
                    resolved_tiles(v0.tiles, moved_all(v0.corgis, actions_of(v0.corgis, v0.tiles, c), c), actions_of(v0.corgis, v0.tiles, c), c),
                    c,
                ),
                c.death_hysteresis,
            ));
        }
        let ghost s_pre = self.rng.state;
        let n = survivors.len();
        let mut births: usize = 0;
        if n == 0 || n >= self.cfg.population_cap {
            proof {
                assert(reproduce_spec(sv, s_pre, c).0 == sv);
                assert(cvs(survivors@) == reproduce_spec(sv, s_pre, c).0);
                assert(self.rng.state == reproduce_spec(sv, s_pre, c).1);
            }
        } else {
            let threshold = self.cfg.reproduce_threshold;
            let mut p1: usize = n;
            let mut j: usize = 0;
            while j < n
                invariant
                    n == sv.len(),
                    sv == cvs(survivors@),
                    0 <= j <= n,
                    p1 <= n,
                    p1 == n ==> first_parent_from(sv, threshold, 0) == first_parent_from(
                        sv,
                        threshold,
                        j as int,
                    ),
                    p1 < n ==> first_parent_from(sv, threshold, 0) == p1 as int,
                    p1 < n ==> sv[p1 as int].energy >= threshold,
                decreases n - j,
            {
                if p1 == n && survivors[j].energy >= threshold {
                    p1 = j;
                }
                j = j + 1;
            }
            if p1 < n {
                let ghost p1i = p1 as int;
                let v1 = self.rng.next_u64();
                let v2 = self.rng.next_u64();
                proof {
                    crate::rng::lemma_rng_iter_unfold(s_pre, 0);
                    crate::rng::lemma_rng_iter_unfold(s_pre, 1);
                    assert(v1 == rng_iter(s_pre, 1));
                    assert(v2 == rng_iter(s_pre, 2));
                }
                let i1 = (v1 % (n as u64)) as usize;
                let i2 = (v2 % (n as u64)) as usize;
                let c1 = if survivors[i1].team == survivors[p1].team {
                    i1
                } else {
                    p1
                };
                let c2 = if survivors[i2].team == survivors[p1].team {
                    i2
                } else {
                    p1
                };
                let p2 = if survivors[c2].energy > survivors[c1].energy {
                    c2
                } else {
                    c1
                };
                proof {
                    assert(p2 as int == tournament_pick(sv, p1i, v1, v2));
                    assert(topo_eq(survivors@[p1 as int].genome.topology, survivors@[p2 as int].genome.topology));
                }
                let crossed = crossover(&survivors[p1].genome, &survivors[p2].genome, &mut self.rng);
                let child_genome = mutate(
                    &crossed,
                    &mut self.rng,
                    self.cfg.mutation_prob_millis,
                    self.cfg.mutation_magnitude,
                );
                let parent_energy = survivors[p1].energy;
                let parent_mass = survivors[p1].physique.mass;
                let parent_team = survivors[p1].team;
                let parent_px = survivors[p1].px;
                let parent_py = survivors[p1].py;
                let parent_low = survivors[p1].low_energy_ticks;
                let parent_genome = survivors[p1].genome.clone_g();
                proof {
                    parent_genome.topology.lemma_eq_shape(&survivors@[p1 as int].genome.topology);
                    child_genome.topology.lemma_eq_shape(&crossed.topology);
                }
                let parent_new = Corgi {
                    energy: parent_energy - self.cfg.birth_energy,
                    physique: Physique { mass: parent_mass },
                    genome: parent_genome,
                    team: parent_team,
                    px: parent_px,
                    py: parent_py,
                    low_energy_ticks: parent_low,
                };
                let child = Corgi {
                    energy: self.cfg.birth_energy,
                    physique: Physique { mass: parent_mass },
                    genome: child_genome,
                    team: parent_team,
                    px: parent_px,
                    py: parent_py,
                    low_energy_ticks: 0,
                };
                let ghost sv_repro = reproduce_spec(sv, s_pre, c);
                let ghost survivors_before = survivors@;
                survivors.set(p1, parent_new);
                survivors.push(child);
                births = 1;
                proof {
                    let s0 = rng_iter(s_pre, 2);
                    let cw = crossover_weights(sv[p1i].weights, sv[p2 as int].weights, s0);
                    let s1 = rng_iter(s0, sv[p1i].weights.len());
                    let mw = mutate_weights(cw, s1, c.mutation_prob_millis, c.mutation_magnitude);
                    let parent2 = CorgiV {
                        energy: (sv[p1i].energy - c.birth_energy) as i64,
                        mass: sv[p1i].mass,
                        weights: sv[p1i].weights,
                        team: sv[p1i].team,
                        px: sv[p1i].px,
                        py: sv[p1i].py,
                        low: sv[p1i].low,
                    };
                    let childv = CorgiV {
                        energy: c.birth_energy,
                        mass: sv[p1i].mass,
                        weights: mw,
                        team: sv[p1i].team,
                        px: sv[p1i].px,
                        py: sv[p1i].py,
                        low: 0u32,
                    };
                    assert(cv(parent_new) == parent2);
                    assert(cv(child) == childv);
                    assert(survivors@ == survivors_before.update(p1i, parent_new).push(child));
                    assert(cvs(survivors@) =~= sv.update(p1i, parent2).push(childv));
                    assert(sv_repro.0 == sv.update(p1i, parent2).push(childv));
                    assert(self.rng.state == sv_repro.1);
                    assert(corgi_ok(parent_new, self.cfg));
                    assert(corgi_ok(child, self.cfg));
                    assert forall|k: int| 0 <= k < survivors@.len() implies corgi_ok(
                        #[trigger] survivors@[k],
                        self.cfg,
                    ) by {
                        if k < survivors_before.len() && k != p1i {
                            assert(corgi_ok(survivors_before[k], self.cfg));
                        }
                    }
                }
            } else {
                proof {
                    assert(first_parent_from(sv, c.reproduce_threshold, 0) == first_parent_from(
                        sv,
                        c.reproduce_threshold,
                        n as int,
                    ));
                    assert(reproduce_spec(sv, s_pre, c).0 == sv);
                    assert(cvs(survivors@) == reproduce_spec(sv, s_pre, c).0);
                    assert(self.rng.state == reproduce_spec(sv, s_pre, c).1);
                }
            }
        }
        let gw = self.grid.width;
        let gh = self.grid.height;
        self.grid = TerritoryGrid { width: gw, height: gh, tiles: new_tiles };
        self.corgis = survivors;
        let ghost t = tick_view(v0, c);
        proof {
            let acts_s = actions_of(v0.corgis, v0.tiles, c);
            assert(acts@ == acts_s);
            let m_s = moved_all(v0.corgis, acts_s, c);
            assert(cvs(moved@) == m_s);
            let tiles_s = resolved_tiles(v0.tiles, m_s, acts_s, c);
            assert(self.grid.tiles@ == tiles_s);
            let e_s = energy_updated_all(m_s, acts_s, tiles_s, c);
            assert(cvs(settled@) == e_s);
            let sv_s = survivors_of(e_s, c.death_hysteresis);
            assert(sv == sv_s);
            assert(v0.rng == s_pre);
            let r_s = reproduce_spec(sv_s, s_pre, c);
            assert(cvs(self.corgis@) == r_s.0);
            assert(self.rng.state == r_s.1);
            assert(view_w(*self) == t.0);
        }
        Ok(TickStats { deaths, births })
    }
}
} // verus!
