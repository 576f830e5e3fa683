//! Movement directions and their unit vectors.

use crate::grid::{Cell, Point};
use vstd::prelude::*;

verus! {

/// One of the four directions the snake can move in.
#[derive(Copy, Clone, Debug, PartialEq, Eq, Structural)]
pub enum SnakeDirection {
    Up,
    Down,
    Right,
    Left,
}

impl SnakeDirection {
    /// The direction pointing the other way.
    pub open spec fn reversed(self) -> SnakeDirection {
        match self {
            SnakeDirection::Up => SnakeDirection::Down,
            SnakeDirection::Down => SnakeDirection::Up,
            SnakeDirection::Right => SnakeDirection::Left,
            SnakeDirection::Left => SnakeDirection::Right,
        }
    }

    /// The displacement of one move: rows grow downwards, columns to the right.
    pub open spec fn unit(self) -> Cell {
        match self {
            SnakeDirection::Up => Cell { x: 0, y: -1 },
            SnakeDirection::Down => Cell { x: 0, y: 1 },
            SnakeDirection::Right => Cell { x: 1, y: 0 },
            SnakeDirection::Left => Cell { x: -1, y: 0 },
        }
    }

    /// The direction pointing the other way.
    pub fn opposite(self) -> (other: SnakeDirection)
        ensures
            other == self.reversed(),
    {
        match self {
            SnakeDirection::Up => SnakeDirection::Down,
            SnakeDirection::Down => SnakeDirection::Up,
            SnakeDirection::Right => SnakeDirection::Left,
            SnakeDirection::Left => SnakeDirection::Right,
        }
    }

    /// The displacement of one move in this direction.
    pub fn unit_vector(self) -> (step: Point)
        ensures
            step@ == self.unit(),
    {
        match self {
            SnakeDirection::Up => Point(0, -1),
            SnakeDirection::Down => Point(0, 1),
            SnakeDirection::Right => Point(1, 0),
            SnakeDirection::Left => Point(-1, 0),
        }
    }
}

/// Reversing twice gives the direction back, and no direction is its own
/// reverse.
pub proof fn lemma_reversed_is_involution(d: SnakeDirection)
    ensures
        d.reversed().reversed() == d,
        d.reversed() != d,
{
}

} // verus!
