//! A small genetic algorithm that evolves fixed-length word sequences
//! toward higher grammatical-plausibility scores.
//!
//! Fitness arithmetic is carried out in fixed-point integers measured in
//! twentieths of a point, so every rule weight of the scoring heuristic is
//! a whole number.

use vstd::prelude::*;

pub mod chromosome;
pub mod evolution;
pub mod population;
pub mod fitness;
pub mod gene;
pub mod rng;
pub mod words;

verus! {

/// The errors the library reports.
#[derive(Clone, Copy, PartialEq, Eq, Structural, Debug)]
pub enum GaError {
    /// The configuration asked for a non-positive generation count or a
    /// population too small to select parents and an elite from.
    ConfigurationError,
    /// A population of negative size was requested.
    InvalidPopulationSize,
}

} // verus!
