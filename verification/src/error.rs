//! Errors surfaced by construction and food placement.

use vstd::prelude::*;

verus! {

/// The failures the simulation can surface; per-tick numeric work is total
/// and cannot fail.
#[derive(Debug, Clone, Copy, PartialEq, Eq, Structural)]
pub enum SimError {
    /// Rank-0 access on an empty agent collection.
    EmptyPopulation,
    /// Rejection sampling found no free cell for the food item.
    FoodPlacementExhausted,
    /// A vector crossing the network boundary has the wrong length.
    VisionVectorSize,
    /// Genetic parameters that break `elite <= pool <= size`.
    InvalidConfig,
}

} // verus!
