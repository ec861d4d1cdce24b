//! Action interpretation: turning the controller's output vector into
//! a concrete movement delta and tile-claim intent, by fixed slot
//! convention.

use vstd::prelude::*;

use crate::fixed::{clamp_i64, clamp_spec, div_scale, div_trunc, sig_ok, SCALE};

verus! {

/// Largest allowed maximum speed: one tile width per tick.
pub const SPEED_LIMIT: i64 = 1024;

/// What one agent wants to do this tick: a movement delta (fixed-point
/// world units, clamped to the configured maximum speed) and whether
/// it attempts to claim the tile it stands on.
#[derive(Clone, Copy, Debug, PartialEq, Eq, Structural)]
pub struct ActionIntent {
    pub dx: i64,
    pub dy: i64,
    pub claim: bool,
}

/// A signal in [-SCALE, SCALE] scaled to a movement component in
/// [-max_speed, max_speed].
pub open spec fn scaled_speed(v: i64, max_speed: i64) -> int {
    clamp_spec(div_trunc(v * max_speed, SCALE as int), -max_speed as int, max_speed as int)
}

/// Output slot convention: slots 0 and 1 are the movement vector,
/// slot 2 is claim intent (attempted when above the threshold).
pub open spec fn interpret_spec(out: Seq<i64>, max_speed: i64, claim_threshold: i64) -> ActionIntent
    recommends
        out.len() >= 3,
{
    ActionIntent {
        dx: scaled_speed(out[0], max_speed) as i64,
        dy: scaled_speed(out[1], max_speed) as i64,
        claim: out[2] > claim_threshold,
    }
}

/// The movement magnitude an action is billed for (taxicab norm of the
/// movement vector).
pub open spec fn movement_magnitude(a: ActionIntent) -> int {
    (if a.dx >= 0 {
        a.dx as int
    } else {
        -a.dx as int
    }) + (if a.dy >= 0 {
        a.dy as int
    } else {
        -a.dy as int
    })
}

/// The stateless action interpreter.
pub struct ActionExecutor;

impl ActionExecutor {
    /// Scales one output signal to a movement component.
    fn speed_component(v: i64, max_speed: i64) -> (r: i64)
        requires
            sig_ok(v as int),
            0 <= max_speed <= SPEED_LIMIT,
        ensures
            r as int == scaled_speed(v, max_speed),
            -max_speed <= r <= max_speed,
    {
        proof {
            crate::fixed::lemma_mul_bound(v as int, max_speed as int, SCALE as int, SPEED_LIMIT as int);
        }
        let q = div_scale(v * max_speed);
        clamp_i64(q, -max_speed, max_speed)
    }

    /// Interprets a controller output vector as a concrete action.
    /// Pure; exact by slot convention.
    pub fn interpret(outputs: &Vec<i64>, max_speed: i64, claim_threshold: i64) -> (a: ActionIntent)
        requires
            outputs@.len() >= 3,
            forall|i: int| 0 <= i < outputs@.len() ==> sig_ok((#[trigger] outputs@[i]) as int),
            0 <= max_speed <= SPEED_LIMIT,
        ensures
            a == interpret_spec(outputs@, max_speed, claim_threshold),
            -max_speed <= a.dx <= max_speed,
            -max_speed <= a.dy <= max_speed,
            0 <= movement_magnitude(a) <= 2 * max_speed,
    {
        let dx = Self::speed_component(outputs[0], max_speed);
        let dy = Self::speed_component(outputs[1], max_speed);
        let claim = outputs[2] > claim_threshold;
        ActionIntent { dx, dy, claim }
    }
}

/// One position coordinate after a movement delta, kept inside the
/// world: clamped into [0, limit - 1].
pub open spec fn move_coord_spec(p: i64, d: i64, limit: i64) -> int
    recommends
        limit >= 1,
{
    clamp_spec(p + d, 0, limit - 1)
}

pub fn move_coord(p: i64, d: i64, limit: i64) -> (r: i64)
    requires
        0 <= p,
        p < 2000000000,
        -SPEED_LIMIT <= d <= SPEED_LIMIT,
        1 <= limit <= 2000000000,
    ensures
        r as int == move_coord_spec(p, d, limit),
        0 <= r < limit,
{
    clamp_i64(p + d, 0, limit - 1)
}

/// The tile coordinate a world coordinate falls in (one tile is SCALE
/// wide).
pub open spec fn tile_coord_spec(p: i64) -> int
    recommends
        p >= 0,
{
    p as int / SCALE as int
}

pub fn tile_coord(p: i64, edge: usize) -> (r: usize)
    requires
        0 <= p,
        1 <= edge,
        p < edge * SCALE,
    ensures
        r as int == tile_coord_spec(p),
        r < edge,
{
    proof {
        vstd::arithmetic::div_mod::lemma_div_by_multiple_is_strongly_ordered(
            p as int,
            edge as int * SCALE as int,
            edge as int,
            SCALE as int,
        );
        vstd::arithmetic::div_mod::lemma_div_by_multiple(edge as int, SCALE as int);
        vstd::arithmetic::div_mod::lemma_div_pos_is_pos(p as int, SCALE as int);
    }
    ((p as u64) / (SCALE as u64)) as usize
}

} // verus!
