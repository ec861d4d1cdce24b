//! Fixed-point arithmetic base for the simulation core.
//!
//! All real-valued quantities of the design (weights, sensor signals,
//! energy, mass) are carried as `i64` values scaled by `SCALE`, so that
//! the whole core is exact integer arithmetic.

use vstd::prelude::*;

verus! {

/// The fixed-point unit: a stored value of `SCALE` means 1.0.
pub const SCALE: i64 = 1024;

/// Largest magnitude a network parameter (weight or bias) may have.
pub const WEIGHT_LIMIT: i64 = 8192;

/// Clamping of an integer into `[lo, hi]`.
pub open spec fn clamp_spec(x: int, lo: int, hi: int) -> int {
    if x < lo {
        lo
    } else if x > hi {
        hi
    } else {
        x
    }
}

/// Division by a positive divisor, truncating toward zero.
pub open spec fn div_trunc(x: int, d: int) -> int
    recommends
        d > 0,
{
    if x >= 0 {
        x / d
    } else {
        -((-x) / d)
    }
}

/// A signal value (sensor reading or activation) is a fixed-point
/// number in [-1.0, 1.0].
pub open spec fn sig_ok(x: int) -> bool {
    -SCALE <= x <= SCALE
}

/// A network parameter lies in the representable parameter range.
pub open spec fn weight_ok(x: int) -> bool {
    -WEIGHT_LIMIT <= x <= WEIGHT_LIMIT
}

pub fn clamp_i64(x: i64, lo: i64, hi: i64) -> (r: i64)
    requires
        lo <= hi,
    ensures
        r as int == clamp_spec(x as int, lo as int, hi as int),
{
    if x < lo {
        lo
    } else if x > hi {
        hi
    } else {
        x
    }
}

/// Exact division of a fixed-point product by `SCALE`, truncating
/// toward zero.
pub fn div_scale(x: i64) -> (r: i64)
    requires
        i64::MIN < x,
    ensures
        r as int == div_trunc(x as int, SCALE as int),
{
    if x >= 0 {
        ((x as u64) / (SCALE as u64)) as i64
    } else {
        let m: u64 = ((-x) as u64) / (SCALE as u64);
        -(m as i64)
    }
}

/// Products of bounded factors are bounded: |a| <= ba and |b| <= bb
/// give |a * b| <= ba * bb.
pub proof fn lemma_mul_bound(a: int, b: int, ba: int, bb: int)
    requires
        -ba <= a <= ba,
        -bb <= b <= bb,
        0 <= ba,
        0 <= bb,
    ensures
        -(ba * bb) <= a * b <= ba * bb,
{
    assert(-(ba * bb) <= a * b <= ba * bb) by (nonlinear_arith)
        requires
            -ba <= a <= ba,
            -bb <= b <= bb,
            0 <= ba,
            0 <= bb,
    ;
}

} // verus!
