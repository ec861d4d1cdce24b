//! Perception: gathering and normalizing an agent's sensor values
//! into the fixed-order input vector the neural controller consumes.
//!
//! The channel order is fixed for the whole run; weight position in a
//! genome encodes sensor identity, so heterogeneous orderings would
//! make crossover meaningless. All channels are clamped into the
//! signal range before inference: a malformed reading can never
//! corrupt the network.

use vstd::prelude::*;

use crate::corgi::{owns, Corgi, Team};
use crate::fixed::{clamp_i64, clamp_spec, sig_ok, SCALE};
use crate::universe::TileType;

verus! {

/// Number of sensor channels: body energy, body mass, then the
/// environment channels (own-tile ownership one-hot, nearby-agent
/// presence).
pub const SENSOR_CHANNELS: usize = 6;

/// Largest allowed normalization maximum.
pub const NORM_MAX_LIMIT: i64 = 1000000000000;

/// A raw reading normalized to [0, SCALE] by a configured maximum:
/// out-of-range readings (negative, or beyond the maximum) are clamped
/// to the nearest valid value first.
pub open spec fn norm_spec(v: int, max: int) -> int
    recommends
        1 <= max,
{
    clamp_spec(v, 0, max) * SCALE / max
}

/// Exact executable normalization.
pub fn normalize(v: i64, max: i64) -> (r: i64)
    requires
        1 <= max <= NORM_MAX_LIMIT,
    ensures
        r as int == norm_spec(v as int, max as int),
        0 <= r <= SCALE,
{
    let c = clamp_i64(v, 0, max);
    proof {
        assert(c * SCALE <= max * SCALE) by (nonlinear_arith)
            requires
                0 <= c <= max,
                SCALE >= 1,
        ;
        assert(c * SCALE >= 0) by (nonlinear_arith)
            requires
                c >= 0,
                SCALE >= 1,
        ;
        vstd::arithmetic::div_mod::lemma_multiply_divide_le(
            c as int * SCALE as int,
            max as int,
            SCALE as int,
        );
        vstd::arithmetic::div_mod::lemma_div_pos_is_pos(c as int * SCALE as int, max as int);
    }
    let prod: u64 = (c as u64) * (SCALE as u64);
    let q: u64 = prod / (max as u64);
    q as i64
}

/// The two body channels of an agent's perception, normalized.
#[derive(Clone, Copy, Debug, PartialEq, Eq, Structural)]
pub struct BodyPerception {
    pub energy: i64,
    pub mass: i64,
}

/// Body perception: the agent's own energy and mass, each normalized
/// by its configured maximum. Tolerates zero or negative readings.
pub fn perceive_body(energy: i64, mass: i64, max_energy: i64, max_mass: i64) -> (r:
    BodyPerception)
    requires
        1 <= max_energy <= NORM_MAX_LIMIT,
        1 <= max_mass <= NORM_MAX_LIMIT,
    ensures
        r.energy as int == norm_spec(energy as int, max_energy as int),
        r.mass as int == norm_spec(mass as int, max_mass as int),
        0 <= r.energy <= SCALE,
        0 <= r.mass <= SCALE,
{
    BodyPerception { energy: normalize(energy, max_energy), mass: normalize(mass, max_mass) }
}

/// The full sensor vector of one agent for one tick: body energy, body
/// mass, one-hot ownership of the tile it stands on (neutral / its own
/// team / the enemy team), and nearby-agent presence.
pub open spec fn observe_spec(
    energy: i64,
    mass: i64,
    max_energy: i64,
    max_mass: i64,
    own_tile: TileType,
    team: Team,
    nearby: bool,
) -> Seq<i64> {
    seq![
        norm_spec(energy as int, max_energy as int) as i64,
        norm_spec(mass as int, max_mass as int) as i64,
        if own_tile is Neutral {
            SCALE
        } else {
            0i64
        },
        if owns(team, own_tile) {
            SCALE
        } else {
            0i64
        },
        if !(own_tile is Neutral) && !owns(team, own_tile) {
            SCALE
        } else {
            0i64
        },
        if nearby {
            SCALE
        } else {
            0i64
        },
    ]
}

/// Gathers one agent's sensor vector. Pure: reads the agent's body
/// state and the supplied environment channels, mutates nothing.
pub fn observe(
    c: &Corgi,
    own_tile: TileType,
    nearby: bool,
    max_energy: i64,
    max_mass: i64,
) -> (r: Vec<i64>)
    requires
        1 <= max_energy <= NORM_MAX_LIMIT,
        1 <= max_mass <= NORM_MAX_LIMIT,
    ensures
        r@ == observe_spec(c.energy, c.physique.mass, max_energy, max_mass, own_tile, c.team, nearby),
        r@.len() == SENSOR_CHANNELS,
        forall|i: int| 0 <= i < r@.len() ==> sig_ok((#[trigger] r@[i]) as int),
{
    let body = perceive_body(c.energy, c.physique.mass, max_energy, max_mass);
    let mut r: Vec<i64> = Vec::new();
    r.push(body.energy);
    r.push(body.mass);
    r.push(
        match own_tile {
            TileType::Neutral => SCALE,
            _ => 0,
        },
    );
    let own = match (c.team, own_tile) {
        (Team::Blue, TileType::Blue) => true,
        (Team::Red, TileType::Red) => true,
        _ => false,
    };
    r.push(if own { SCALE } else { 0 });
    r.push(
        if !matches!(own_tile, TileType::Neutral) && !own {
            SCALE
        } else {
            0
        },
    );
    r.push(if nearby { SCALE } else { 0 });
    proof {
        assert(r@ =~= observe_spec(
            c.energy,
            c.physique.mass,
            max_energy,
            max_mass,
            own_tile,
            c.team,
            nearby,
        ));
    }
    r
}

} // verus!
