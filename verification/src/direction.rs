//! The four movement headings of an agent on the grid.

use vstd::prelude::*;

verus! {

/// A compass heading the snake can travel in.
#[derive(Debug, Clone, Copy, PartialEq, Eq, Structural)]
pub enum Direction {
    Up,
    Down,
    Left,
    Right,
}

impl Direction {
    /// The heading pointing the opposite way.
    pub open spec fn invert(self) -> Direction {
        match self {
            Direction::Right => Direction::Left,
            Direction::Up => Direction::Down,
            Direction::Left => Direction::Right,
            Direction::Down => Direction::Up,
        }
    }

    /// Returns the opposite heading; a snake may never turn onto it directly.
    pub fn inverted(&self) -> (r: Direction)
        ensures
            r == self.invert(),
    {
        match self {
            Direction::Right => Direction::Left,
            Direction::Up => Direction::Down,
            Direction::Left => Direction::Right,
            Direction::Down => Direction::Up,
        }
    }

    /// The unit step on each axis for this heading, with y growing downward.
    pub open spec fn step_x(self) -> int {
        match self {
            Direction::Right => 1,
            Direction::Left => -1,
            Direction::Up => 0,
            Direction::Down => 0,
        }
    }

    /// The unit step on the y axis for this heading, with y growing downward.
    pub open spec fn step_y(self) -> int {
        match self {
            Direction::Right => 0,
            Direction::Left => 0,
            Direction::Up => -1,
            Direction::Down => 1,
        }
    }

    /// The `(dx, dy)` unit vector of this heading.
    pub fn delta(&self) -> (r: (i32, i32))
        ensures
            r.0 as int == self.step_x(),
            r.1 as int == self.step_y(),
    {
        match self {
            Direction::Right => (1, 0),
            Direction::Left => (-1, 0),
            Direction::Up => (0, -1),
            Direction::Down => (0, 1),
        }
    }
}

} // verus!
