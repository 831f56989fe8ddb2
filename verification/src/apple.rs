//! The food item the agents seek: a single grid cell.

use vstd::prelude::*;
use rand::rngs::StdRng;
use crate::rng::rng_below;
use crate::settings::{CELL_AMOUNT_X, CELL_AMOUNT_Y};

verus! {

/// One food item on the grid.
#[derive(Debug, Clone, Copy, PartialEq, Eq, Structural)]
pub struct Apple {
    pub x: i32,
    pub y: i32,
}

impl Apple {
    /// Whether this food item lies on the board.
    pub open spec fn in_grid(self) -> bool {
        &&& 0 <= self.x < CELL_AMOUNT_X as int
        &&& 0 <= self.y < CELL_AMOUNT_Y as int
    }

    /// A food item on a uniformly random cell of the grid; the very first
    /// item of a life is unconstrained, later placements avoid the snake.
    pub fn new(rng: &mut StdRng) -> (a: Apple)
        ensures
            a.in_grid(),
    {
        let x = rng_below(rng, CELL_AMOUNT_X as u32) as i32;
        let y = rng_below(rng, CELL_AMOUNT_Y as u32) as i32;
        Apple { x, y }
    }

    /// The cell this food item occupies.
    #[inline]
    pub fn position(&self) -> (p: (i32, i32))
        ensures
            p.0 == self.x,
            p.1 == self.y,
    {
        (self.x, self.y)
    }
}

} // verus!
