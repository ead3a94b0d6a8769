use vstd::prelude::*;

verus! {

/// Width of the playing grid, in cells.
pub const GRID_W: i16 = 30;

/// Height of the playing grid, in cells.
pub const GRID_H: i16 = 30;

/// Number of cells on the grid.
pub const CELLS: usize = 900;

/// A cell position `(x, y)`; `x` grows to the right and `y` downwards.
#[derive(Clone, Copy, Debug, PartialEq, Eq, Structural)]
pub struct Point(pub i16, pub i16);

/// One of the four headings of the snake.
#[derive(Clone, Copy, Debug, PartialEq, Eq, Structural)]
pub enum Direction {
    Up,
    Down,
    Left,
    Right,
}

/// The cell lies on the grid.
pub open spec fn in_grid(p: Point) -> bool {
    0 <= p.0 < GRID_W && 0 <= p.1 < GRID_H
}

/// Row-major index of a cell in a flattened grid.
pub open spec fn cell_index(p: Point) -> int {
    p.0 + p.1 * GRID_W
}

/// The unit step of a direction.
pub open spec fn delta(d: Direction) -> Point {
    match d {
        Direction::Up => Point(0i16, -1i16),
        Direction::Down => Point(0i16, 1i16),
        Direction::Left => Point(-1i16, 0i16),
        Direction::Right => Point(1i16, 0i16),
    }
}

/// The direction that points the other way.
pub open spec fn reverse(d: Direction) -> Direction {
    match d {
        Direction::Up => Direction::Down,
        Direction::Down => Direction::Up,
        Direction::Left => Direction::Right,
        Direction::Right => Direction::Left,
    }
}

/// Component-wise sum of two points.
pub open spec fn sum(a: Point, b: Point) -> Point {
    Point((a.0 + b.0) as i16, (a.1 + b.1) as i16)
}

/// Both coordinates of the sum fit in `i16`.
pub open spec fn sum_fits(a: Point, b: Point) -> bool {
    i16::MIN <= a.0 + b.0 <= i16::MAX && i16::MIN <= a.1 + b.1 <= i16::MAX
}

impl Direction {
    pub fn to_point_delta(&self) -> (r: Point)
        ensures
            r == delta(*self),
    {
        match self {
            Direction::Up => Point(0, -1),
            Direction::Down => Point(0, 1),
            Direction::Left => Point(-1, 0),
            Direction::Right => Point(1, 0),
        }
    }

    pub fn opposite(&self) -> (r: Direction)
        ensures
            r == reverse(*self),
    {
        match self {
            Direction::Up => Direction::Down,
            Direction::Down => Direction::Up,
            Direction::Left => Direction::Right,
            Direction::Right => Direction::Left,
        }
    }
}

impl Point {
    /// Moves a point by a delta.
    pub fn add(self, other: Point) -> (r: Point)
        requires
            sum_fits(self, other),
        ensures
            r == sum(self, other),
            r.0 == self.0 + other.0,
            r.1 == self.1 + other.1,
    {
        Point(self.0 + other.0, self.1 + other.1)
    }

    pub fn is_in_grid(&self) -> (r: bool)
        ensures
            r == in_grid(*self),
    {
        0 <= self.0 && self.0 < GRID_W && 0 <= self.1 && self.1 < GRID_H
    }
}

/// A step from a cell of the grid never overflows and lands at most one cell
/// outside it.
pub proof fn lemma_step_fits(p: Point, d: Direction)
    requires
        in_grid(p),
    ensures
        sum_fits(p, delta(d)),
        -1 <= sum(p, delta(d)).0 <= GRID_W,
        -1 <= sum(p, delta(d)).1 <= GRID_H,
{
}

} // verus!
