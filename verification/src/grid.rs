//! Grid geometry: the board's dimensions, positions on it, and wraparound.

use std::ops::Add;
use vstd::prelude::*;
use vstd::std_specs::ops::AddSpecImpl;

verus! {

/// Number of columns of the board.
pub const GRID_X_SIZE: u32 = 15;

/// Number of rows of the board.
pub const GRID_Y_SIZE: u32 = 15;

/// Edge length of one board cell on screen, in pixels.
pub const CELL_SIZE: u32 = 20;

/// A position as a pair of mathematical integers. This is what a [`Point`]
/// stands for in contracts.
pub struct Cell {
    pub x: int,
    pub y: int,
}

/// Folds one coordinate back onto an axis of length `size`: stepping past the
/// far edge lands on 0, stepping below 0 lands on the far edge.
pub open spec fn wrap_axis(v: int, size: int) -> int {
    if v >= size {
        0
    } else if v < 0 {
        size - 1
    } else {
        v
    }
}

impl Cell {
    /// Component-wise sum.
    pub open spec fn plus(self, other: Cell) -> Cell {
        Cell { x: self.x + other.x, y: self.y + other.y }
    }

    /// Whether the position lies on the board.
    pub open spec fn in_grid(self) -> bool {
        0 <= self.x < GRID_X_SIZE && 0 <= self.y < GRID_Y_SIZE
    }

    /// The position after toroidal wraparound, each axis on its own.
    pub open spec fn wrapped(self) -> Cell {
        Cell { x: wrap_axis(self.x, GRID_X_SIZE as int), y: wrap_axis(self.y, GRID_Y_SIZE as int) }
    }

    /// Whether both coordinates fit the machine integers of a [`Point`].
    pub open spec fn representable(self) -> bool {
        i32::MIN <= self.x <= i32::MAX && i32::MIN <= self.y <= i32::MAX
    }
}

/// A position: `.0` is the column, `.1` the row.
#[derive(Copy, Clone, Debug, PartialEq, Eq, Structural)]
pub struct Point(pub i32, pub i32);

impl View for Point {
    type V = Cell;

    open spec fn view(&self) -> Cell {
        Cell { x: self.0 as int, y: self.1 as int }
    }
}

impl AddSpecImpl<Point> for Point {
    open spec fn obeys_add_spec() -> bool {
        true
    }

    open spec fn add_req(self, rhs: Point) -> bool {
        self@.plus(rhs@).representable()
    }

    open spec fn add_spec(self, rhs: Point) -> Point {
        Point((self.0 + rhs.0) as i32, (self.1 + rhs.1) as i32)
    }
}

impl Add<Point> for Point {
    type Output = Point;

    /// Component-wise sum, defined wherever both sums fit in an `i32`.
    fn add(self, rhs: Point) -> (sum: Point)
        ensures
            sum@ == self@.plus(rhs@),
    {
        Point(self.0 + rhs.0, self.1 + rhs.1)
    }
}

impl Point {
    /// The point in column `column` and row `row`.
    pub fn at(column: u32, row: u32) -> (point: Point)
        requires
            column <= i32::MAX,
            row <= i32::MAX,
        ensures
            point@ == (Cell { x: column as int, y: row as int }),
    {
        Point(column as i32, row as i32)
    }

    /// Whether the point lies on the board.
    pub fn in_grid(&self) -> (inside: bool)
        ensures
            inside == self@.in_grid(),
    {
        0 <= self.0 && self.0 < GRID_X_SIZE as i32 && 0 <= self.1 && self.1 < GRID_Y_SIZE as i32
    }

    /// Applies toroidal wraparound to each axis independently.
    pub fn wrapped(self) -> (folded: Point)
        ensures
            folded@ == self@.wrapped(),
            folded@.in_grid(),
    {
        let mut folded = self;
        if folded.0 >= GRID_X_SIZE as i32 {
            folded.0 = 0;
        }
        if folded.0 < 0 {
            folded.0 = GRID_X_SIZE as i32 - 1;
        }
        if folded.1 >= GRID_Y_SIZE as i32 {
            folded.1 = 0;
        }
        if folded.1 < 0 {
            folded.1 = GRID_Y_SIZE as i32 - 1;
        }
        folded
    }
}

/// The cells that a sequence of points stands for, in the same order.
pub open spec fn cells(points: Seq<Point>) -> Seq<Cell> {
    points.map_values(|p: Point| p@)
}

} // verus!
