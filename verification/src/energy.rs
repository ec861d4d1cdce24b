//! The energy economy: every tick an agent pays a metabolic cost that
//! grows with its mass and with how much it moved, and gains energy
//! for holding territory. Energy is the selection pressure: heavier or
//! more active agents pay more.

use vstd::prelude::*;

use crate::action::SPEED_LIMIT;
use crate::corgi::{ENERGY_LIMIT, MASS_LIMIT};
use crate::fixed::{clamp_i64, clamp_spec, SCALE};

verus! {

/// Largest allowed per-tick base metabolic cost.
pub const BASE_COST_LIMIT: i64 = 1000000000;

/// Largest allowed metabolic rate coefficient.
pub const RATE_LIMIT: i64 = 1000000;

/// Largest allowed per-tick territory gain.
pub const GAIN_LIMIT: i64 = 1000000000;

/// Upper bound on any one tick's metabolic cost under the limits
/// above.
pub const COST_LIMIT: i64 = 2000000000000;

/// The metabolic cost of one tick: a base cost, a mass term, and a
/// movement term that scales with both mass and movement magnitude.
pub open spec fn metabolic_cost_spec(
    mass: i64,
    movement: int,
    base: i64,
    mass_rate: i64,
    move_rate: i64,
) -> int {
    base + mass * mass_rate / (SCALE as int) + mass * movement * move_rate / (
    SCALE as int * SCALE as int)
}

/// An agent's energy after one tick: pay the metabolic cost, collect
/// the territory gain when holding a tile, saturate at the
/// representable energy range.
pub open spec fn energy_tick_spec(
    energy: i64,
    mass: i64,
    movement: int,
    holds_tile: bool,
    base: i64,
    mass_rate: i64,
    move_rate: i64,
    claim_gain: i64,
) -> int {
    clamp_spec(
        energy - metabolic_cost_spec(mass, movement, base, mass_rate, move_rate) + if holds_tile {
            claim_gain as int
        } else {
            0
        },
        -ENERGY_LIMIT as int,
        ENERGY_LIMIT as int,
    )
}

/// Executable metabolic cost, exactly the specification.
pub fn metabolic_cost(mass: i64, movement: i64, base: i64, mass_rate: i64, move_rate: i64) -> (r:
    i64)
    requires
        0 <= mass <= MASS_LIMIT,
        0 <= movement <= 2 * SPEED_LIMIT,
        0 <= base <= BASE_COST_LIMIT,
        0 <= mass_rate <= RATE_LIMIT,
        0 <= move_rate <= RATE_LIMIT,
    ensures
        r as int == metabolic_cost_spec(mass, movement as int, base, mass_rate, move_rate),
        base <= r <= COST_LIMIT,
{
    proof {
        assert(0 <= mass * mass_rate <= 1000000000000) by (nonlinear_arith)
            requires
                0 <= mass <= MASS_LIMIT,
                0 <= mass_rate <= RATE_LIMIT,
        ;
        assert(0 <= mass * movement <= 2048000000) by (nonlinear_arith)
            requires
                0 <= mass <= MASS_LIMIT,
                0 <= movement <= 2 * SPEED_LIMIT,
        ;
        assert(0 <= mass * movement * move_rate <= 2048000000000000000) by (nonlinear_arith)
            requires
                0 <= mass <= MASS_LIMIT,
                0 <= movement <= 2 * SPEED_LIMIT,
                0 <= move_rate <= RATE_LIMIT,
        ;
        vstd::arithmetic::div_mod::lemma_div_pos_is_pos(mass as int * mass_rate as int, SCALE as int);
        vstd::arithmetic::div_mod::lemma_div_is_ordered(
            mass as int * mass_rate as int,
            1000000000000,
            SCALE as int,
        );
        vstd::arithmetic::div_mod::lemma_div_pos_is_pos(
            mass as int * movement as int * move_rate as int,
            SCALE as int * SCALE as int,
        );
        vstd::arithmetic::div_mod::lemma_div_is_ordered(
            mass as int * movement as int * move_rate as int,
            2048000000000000000,
            SCALE as int * SCALE as int,
        );
    }
    let t1: u64 = (mass as u64) * (mass_rate as u64) / (SCALE as u64);
    let mm: u64 = (mass as u64) * (movement as u64);
    let t2: u64 = mm * (move_rate as u64) / ((SCALE as u64) * (SCALE as u64));
    base + (t1 as i64) + (t2 as i64)
}

/// Executable energy update, exactly the specification.
pub fn energy_tick(
    energy: i64,
    mass: i64,
    movement: i64,
    holds_tile: bool,
    base: i64,
    mass_rate: i64,
    move_rate: i64,
    claim_gain: i64,
) -> (r: i64)
    requires
        -ENERGY_LIMIT <= energy <= ENERGY_LIMIT,
        0 <= mass <= MASS_LIMIT,
        0 <= movement <= 2 * SPEED_LIMIT,
        0 <= base <= BASE_COST_LIMIT,
        0 <= mass_rate <= RATE_LIMIT,
        0 <= move_rate <= RATE_LIMIT,
        0 <= claim_gain <= GAIN_LIMIT,
    ensures
        r as int == energy_tick_spec(
            energy,
            mass,
            movement as int,
            holds_tile,
            base,
            mass_rate,
            move_rate,
            claim_gain,
        ),
        -ENERGY_LIMIT <= r <= ENERGY_LIMIT,
{
    let cost = metabolic_cost(mass, movement, base, mass_rate, move_rate);
    let gain: i64 = if holds_tile {
        claim_gain
    } else {
        0
    };
    clamp_i64(energy - cost + gain, -ENERGY_LIMIT, ENERGY_LIMIT)
}

/// Law (cost monotonicity): the metabolic cost is monotonically
/// increasing in both mass and movement magnitude — heavier or more
/// active agents never pay less.
pub proof fn lemma_cost_monotone(
    m1: i64,
    v1: int,
    m2: i64,
    v2: int,
    base: i64,
    mass_rate: i64,
    move_rate: i64,
)
    requires
        0 <= m1 <= m2 <= MASS_LIMIT,
        0 <= v1 <= v2 <= 2 * SPEED_LIMIT,
        0 <= base,
        0 <= mass_rate <= RATE_LIMIT,
        0 <= move_rate <= RATE_LIMIT,
    ensures
        metabolic_cost_spec(m1, v1, base, mass_rate, move_rate) <= metabolic_cost_spec(
            m2,
            v2,
            base,
            mass_rate,
            move_rate,
        ),
{
    assert(m1 * mass_rate <= m2 * mass_rate) by (nonlinear_arith)
        requires
            0 <= m1 <= m2,
            0 <= mass_rate,
    ;
    vstd::arithmetic::div_mod::lemma_div_is_ordered(
        m1 as int * mass_rate as int,
        m2 as int * mass_rate as int,
        SCALE as int,
    );
    assert(m1 * v1 * move_rate <= m2 * v2 * move_rate) by (nonlinear_arith)
        requires
            0 <= m1 <= m2,
            0 <= v1 <= v2,
            0 <= move_rate,
    ;
    vstd::arithmetic::div_mod::lemma_div_is_ordered(
        m1 as int * v1 * move_rate as int,
        m2 as int * v2 * move_rate as int,
        SCALE as int * SCALE as int,
    );
}

/// Law (energy monotonicity): an agent that takes no action (zero
/// movement) and holds no tile loses energy strictly, tick over tick,
/// whenever the base metabolic cost is positive and its energy is
/// still above the representable floor — so an idle, landless agent
/// marches monotonically toward death.
pub proof fn lemma_idle_energy_strictly_decreases(
    energy: i64,
    mass: i64,
    base: i64,
    mass_rate: i64,
    move_rate: i64,
    claim_gain: i64,
)
    requires
        -ENERGY_LIMIT < energy <= ENERGY_LIMIT,
        0 <= mass <= MASS_LIMIT,
        1 <= base <= BASE_COST_LIMIT,
        0 <= mass_rate <= RATE_LIMIT,
        0 <= move_rate <= RATE_LIMIT,
    ensures
        energy_tick_spec(energy, mass, 0, false, base, mass_rate, move_rate, claim_gain) < energy,
{
    assert(mass * mass_rate >= 0) by (nonlinear_arith)
        requires
            0 <= mass,
            0 <= mass_rate,
    ;
    vstd::arithmetic::div_mod::lemma_div_pos_is_pos(mass as int * mass_rate as int, SCALE as int);
    assert(mass * 0 * move_rate == 0) by (nonlinear_arith);
    assert(metabolic_cost_spec(mass, 0, base, mass_rate, move_rate) >= base);
}

} // verus!
