//! Core of a corgi population simulation: agents on a tiled territory
//! sense their body and surroundings, feed the signals through an
//! evolvable feedforward network, act, pay energy for what they do,
//! and reproduce by crossover and mutation of their genomes.
//!
//! Everything is exact fixed-point integer arithmetic, so every tick
//! is a pure function of the previous state and the seeded random
//! stream.

pub mod action;
pub mod brain;
pub mod config;
pub mod corgi;
pub mod energy;
pub mod errors;
pub mod evolution;
pub mod fixed;
pub mod genes;
pub mod perception;
pub mod rng;
pub mod universe;
