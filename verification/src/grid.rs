//! Cells and directions of the fixed play grid.

use vstd::prelude::*;

verus! {

/// Number of columns of the grid.
pub const GRID_WIDTH: i32 = 32;

/// Number of rows of the grid.
pub const GRID_HEIGHT: i32 = 24;

/// Number of cells of the grid.
pub const GRID_AREA: usize = 768;

/// Column of the grid's centre, where every run starts.
pub const CENTER_X: i32 = 16;

/// Row of the grid's centre.
pub const CENTER_Y: i32 = 12;

/// One of the four ways a snake can head. There is no diagonal.
#[derive(Copy, Clone, PartialEq, Eq, Hash, Debug, Structural)]
pub enum Direction {
    Up,
    Down,
    Left,
    Right,
}

impl Direction {
    /// The direction that points the other way.
    pub open spec fn spec_opposite(self) -> Direction {
        match self {
            Direction::Up => Direction::Down,
            Direction::Down => Direction::Up,
            Direction::Left => Direction::Right,
            Direction::Right => Direction::Left,
        }
    }

    /// The next direction going round clockwise: up, right, down, left.
    pub open spec fn spec_clockwise(self) -> Direction {
        match self {
            Direction::Up => Direction::Right,
            Direction::Right => Direction::Down,
            Direction::Down => Direction::Left,
            Direction::Left => Direction::Up,
        }
    }

    /// Change of the column on one step in this direction.
    pub open spec fn dx(self) -> int {
        match self {
            Direction::Left => -1,
            Direction::Right => 1,
            _ => 0,
        }
    }

    /// Change of the row on one step in this direction. Rows grow downwards.
    pub open spec fn dy(self) -> int {
        match self {
            Direction::Up => -1,
            Direction::Down => 1,
            _ => 0,
        }
    }

    #[verifier::when_used_as_spec(spec_opposite)]
    pub fn opposite(self) -> (r: Direction)
        ensures
            r == self.spec_opposite(),
    {
        match self {
            Direction::Up => Direction::Down,
            Direction::Down => Direction::Up,
            Direction::Left => Direction::Right,
            Direction::Right => Direction::Left,
        }
    }

    #[verifier::when_used_as_spec(spec_clockwise)]
    pub fn clockwise(self) -> (r: Direction)
        ensures
            r == self.spec_clockwise(),
    {
        match self {
            Direction::Up => Direction::Right,
            Direction::Right => Direction::Down,
            Direction::Down => Direction::Left,
            Direction::Left => Direction::Up,
        }
    }
}

/// A coordinate pair. Cells on the grid have `0 <= x < 32` and `0 <= y < 24`;
/// a cell one step off the grid can be named too.
#[derive(Copy, Clone, PartialEq, Eq, Hash, Debug, Structural)]
pub struct Cell {
    pub x: i32,
    pub y: i32,
}

impl Cell {
    /// The cell lies on the grid.
    pub open spec fn spec_in_bounds(self) -> bool {
        0 <= self.x < GRID_WIDTH && 0 <= self.y < GRID_HEIGHT
    }

    /// The cell lies on the grid and not on its outer ring.
    pub open spec fn spec_is_interior(self) -> bool {
        1 <= self.x < GRID_WIDTH - 1 && 1 <= self.y < GRID_HEIGHT - 1
    }

    /// The cell lies on the outer ring of the grid.
    pub open spec fn on_border(self) -> bool {
        self.spec_in_bounds() && !self.spec_is_interior()
    }

    /// The cell lies within Chebyshev distance 2 of the centre: the block of
    /// five by five cells that is kept free for the snake to start in.
    pub open spec fn spec_in_safe_zone(self) -> bool {
        CENTER_X - 2 <= self.x <= CENTER_X + 2 && CENTER_Y - 2 <= self.y <= CENTER_Y + 2
    }

    /// Position of an on-grid cell in row-major order.
    pub open spec fn spec_index(self) -> int {
        self.y * GRID_WIDTH + self.x
    }

    /// The cell one step away in direction `d`.
    pub open spec fn spec_neighbor(self, d: Direction) -> Cell {
        Cell { x: (self.x + d.dx()) as i32, y: (self.y + d.dy()) as i32 }
    }

    /// The two cells are one step apart: they share a row or a column and
    /// differ by one in the other coordinate.
    pub open spec fn adjacent(self, other: Cell) -> bool {
        ||| self.x == other.x && (self.y - other.y == 1 || other.y - self.y == 1)
        ||| self.y == other.y && (self.x - other.x == 1 || other.x - self.x == 1)
    }

    #[verifier::when_used_as_spec(spec_in_bounds)]
    pub fn in_bounds(self) -> (r: bool)
        ensures
            r == self.spec_in_bounds(),
    {
        0 <= self.x && self.x < GRID_WIDTH && 0 <= self.y && self.y < GRID_HEIGHT
    }

    #[verifier::when_used_as_spec(spec_is_interior)]
    pub fn is_interior(self) -> (r: bool)
        ensures
            r == self.spec_is_interior(),
    {
        1 <= self.x && self.x < GRID_WIDTH - 1 && 1 <= self.y && self.y < GRID_HEIGHT - 1
    }

    #[verifier::when_used_as_spec(spec_in_safe_zone)]
    pub fn in_safe_zone(self) -> (r: bool)
        ensures
            r == self.spec_in_safe_zone(),
    {
        CENTER_X - 2 <= self.x && self.x <= CENTER_X + 2 && CENTER_Y - 2 <= self.y && self.y
            <= CENTER_Y + 2
    }

    /// Row-major position of a cell of the grid.
    pub fn index(self) -> (r: usize)
        requires
            self.spec_in_bounds(),
        ensures
            r == self.spec_index(),
            r < GRID_AREA,
    {
        (self.y * GRID_WIDTH + self.x) as usize
    }

    /// The cell one step away in direction `d`. Rows grow downwards, so `Up`
    /// lowers `y`.
    #[verifier::when_used_as_spec(spec_neighbor)]
    pub fn neighbor(self, d: Direction) -> (r: Cell)
        requires
            i32::MIN < self.x < i32::MAX,
            i32::MIN < self.y < i32::MAX,
        ensures
            r == self.spec_neighbor(d),
            r.x == self.x + d.dx(),
            r.y == self.y + d.dy(),
    {
        match d {
            Direction::Up => Cell { x: self.x, y: self.y - 1 },
            Direction::Down => Cell { x: self.x, y: self.y + 1 },
            Direction::Left => Cell { x: self.x - 1, y: self.y },
            Direction::Right => Cell { x: self.x + 1, y: self.y },
        }
    }
}

} // verus!
