//! Error kinds of the simulation core.

use vstd::prelude::*;

verus! {

/// The only failures the core can report.
///
/// A malformed genome (weight vector not matching the topology) is a
/// fatal construction error; an empty population is a terminal run
/// condition, reported to the caller rather than ignored.
#[derive(Clone, Copy, Debug, PartialEq, Eq, Structural)]
pub enum CoreError {
    MalformedGenome,
    EmptyPopulation,
}

} // verus!
