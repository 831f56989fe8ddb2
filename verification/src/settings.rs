//! Grid dimensions shared by the whole simulation.

use vstd::prelude::*;

verus! {

/// Number of grid cells along the x axis.
pub const CELL_AMOUNT_X: i32 = 48;

/// Number of grid cells along the y axis.
pub const CELL_AMOUNT_Y: i32 = 48;

} // verus!
