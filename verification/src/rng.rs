//! Deterministic pseudo-random stream for the genetic operators.
//!
//! Crossover and mutation must be reproducible given a fixed seed, so
//! the generator is a plain xorshift state machine with an exact
//! functional specification: every draw is a function of the seed and
//! of how many draws came before it.

use vstd::prelude::*;

verus! {

/// One xorshift transition of the generator state.
pub open spec fn rng_step(s: u64) -> u64 {
    let a = s ^ (s >> 12);
    let b = a ^ (a << 25);
    b ^ (b >> 27)
}

/// The state after `n` transitions from `s`.
pub open spec fn rng_iter(s: u64, n: nat) -> u64
    decreases n,
{
    if n == 0 {
        s
    } else {
        rng_step(rng_iter(s, (n - 1) as nat))
    }
}

/// Iterating one more step applies `rng_step` to the last state.
pub proof fn lemma_rng_iter_unfold(s: u64, n: nat)
    ensures
        rng_iter(s, n + 1) == rng_step(rng_iter(s, n)),
{
}

/// Iteration composes additively.
pub proof fn lemma_rng_iter_add(s: u64, a: nat, b: nat)
    ensures
        rng_iter(s, a + b) == rng_iter(rng_iter(s, a), b),
    decreases b,
{
    if b > 0 {
        lemma_rng_iter_add(s, a, (b - 1) as nat);
    }
}

/// Deterministic generator; the whole evolutionary process draws from
/// a single seeded instance.
pub struct Rng {
    pub state: u64,
}

impl Rng {
    pub fn new(seed: u64) -> (r: Rng)
        ensures
            r.state == seed,
    {
        Rng { state: seed }
    }

    /// Advances the state once and returns it.
    pub fn next_u64(&mut self) -> (r: u64)
        ensures
            final(self).state == rng_step(old(self).state),
            r == final(self).state,
    {
        let s = self.state;
        let a = s ^ (s >> 12u64);
        let b = a ^ (a << 25u64);
        let c = b ^ (b >> 27u64);
        self.state = c;
        c
    }
}

} // verus!
