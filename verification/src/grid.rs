//! The discrete coordinate space: cell addresses, movement directions, and
//! the bounded grid with its containment test.

use vstd::prelude::*;

verus! {

/// One cell of the playing field, addressed by column and row.
/// A value may lie outside the grid: a candidate head position is classified
/// against the bounds before it is ever committed.
#[derive(Clone, Copy, PartialEq, Eq, Structural, Debug)]
pub struct Position {
    pub x: i32,
    pub y: i32,
}

/// The four directions the snake can move in.
#[derive(Clone, Copy, PartialEq, Eq, Structural, Debug)]
pub enum Direction {
    Left,
    Right,
    Up,
    Down,
}

impl Direction {
    /// The direction pointing the opposite way.
    pub open spec fn opposite_spec(self) -> Direction {
        match self {
            Direction::Left => Direction::Right,
            Direction::Right => Direction::Left,
            Direction::Up => Direction::Down,
            Direction::Down => Direction::Up,
        }
    }

    /// Return the opposite of a direction.
    pub fn opposite(self) -> (r: Direction)
        ensures
            r == self.opposite_spec(),
    {
        match self {
            Direction::Left => Direction::Right,
            Direction::Right => Direction::Left,
            Direction::Up => Direction::Down,
            Direction::Down => Direction::Up,
        }
    }
}

/// Law: taking the opposite twice gives the direction back, and no direction
/// is its own opposite.
pub proof fn lemma_opposite_involution(d: Direction)
    ensures
        d.opposite_spec().opposite_spec() == d,
        d.opposite_spec() != d,
{
}

/// The cell one step away from `p` in direction `d`. The casts are exact
/// whenever the coordinates of `p` are strictly inside the `i32` range, which
/// the bounded grid guarantees for every committed position.
pub open spec fn step_spec(p: Position, d: Direction) -> Position {
    match d {
        Direction::Left => Position { x: (p.x - 1) as i32, y: p.y },
        Direction::Right => Position { x: (p.x + 1) as i32, y: p.y },
        Direction::Up => Position { x: p.x, y: (p.y + 1) as i32 },
        Direction::Down => Position { x: p.x, y: (p.y - 1) as i32 },
    }
}

/// Compute the cell one step away from `p` in direction `d`.
pub fn step(p: Position, d: Direction) -> (r: Position)
    requires
        i32::MIN < p.x < i32::MAX,
        i32::MIN < p.y < i32::MAX,
    ensures
        r == step_spec(p, d),
{
    match d {
        Direction::Left => Position { x: p.x - 1, y: p.y },
        Direction::Right => Position { x: p.x + 1, y: p.y },
        Direction::Up => Position { x: p.x, y: p.y + 1 },
        Direction::Down => Position { x: p.x, y: p.y - 1 },
    }
}

/// Law: a step never stays in place, so the candidate head can never collide
/// with the cell the head is vacating.
pub proof fn lemma_step_moves(p: Position, d: Direction)
    requires
        i32::MIN < p.x < i32::MAX,
        i32::MIN < p.y < i32::MAX,
    ensures
        step_spec(p, d) != p,
{
}

/// Largest accepted grid extent. It keeps every coordinate computation inside
/// `i32` and the total cell count inside `usize`.
pub const MAX_EXTENT: i32 = 0x7fff;

/// A fixed-size grid of `width` by `height` cells. Coordinates outside the
/// grid are invalid, never normalized: going off the edge is a wall collision,
/// not a wraparound.
#[derive(Clone, Copy, PartialEq, Eq, Structural, Debug)]
pub struct Grid {
    pub width: i32,
    pub height: i32,
}

impl Grid {
    /// A usable configuration: positive extents within the accepted limit.
    pub open spec fn wf(self) -> bool {
        &&& 0 < self.width <= MAX_EXTENT
        &&& 0 < self.height <= MAX_EXTENT
    }

    /// Whether `p` addresses a cell of the grid.
    pub open spec fn contains_spec(self, p: Position) -> bool {
        &&& 0 <= p.x < self.width
        &&& 0 <= p.y < self.height
    }

    /// True iff `p` lies inside the grid bounds.
    pub fn in_bounds(&self, p: Position) -> (r: bool)
        ensures
            r == self.contains_spec(p),
    {
        0 <= p.x && p.x < self.width && 0 <= p.y && p.y < self.height
    }
}

} // verus!
