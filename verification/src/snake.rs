//! The snake itself: its ordered chain of segments, the committed facing
//! direction, and the one-turn-per-tick input arbitration.

use vstd::prelude::*;

use crate::grid::{Direction, Grid, Position, step, step_spec};

verus! {

/// The snake: an ordered chain of segment positions (head first, tail last),
/// the committed movement direction, and the turn lock that limits the snake
/// to one accepted direction change per movement tick.
pub struct SnakeState {
    pub segments: Vec<Position>,
    pub facing: Direction,
    pub turn_lock: bool,
}

/// The facing after one arbitrated input event: `d` is committed only while
/// the turn lock is open and `d` does not reverse the current facing.
pub open spec fn arbitrated_facing(facing: Direction, lock: bool, d: Direction) -> Direction {
    if !lock && d != facing.opposite_spec() {
        d
    } else {
        facing
    }
}

/// The turn lock after one arbitrated input event: it closes exactly when the
/// event is accepted.
pub open spec fn arbitrated_lock(facing: Direction, lock: bool, d: Direction) -> bool {
    if !lock && d != facing.opposite_spec() {
        true
    } else {
        lock
    }
}

/// Law: once the turn lock is closed, a further input event in the same tick
/// has no effect on the facing (nor on the lock).
pub proof fn lemma_second_input_no_effect(facing: Direction, lock: bool, d1: Direction, d2: Direction)
    ensures
        arbitrated_lock(facing, lock, d1) ==> arbitrated_facing(
            arbitrated_facing(facing, lock, d1),
            arbitrated_lock(facing, lock, d1),
            d2,
        ) == arbitrated_facing(facing, lock, d1),
{
}

/// Law: whatever the event, the arbitrated facing never reverses the facing
/// the tick started with.
pub proof fn lemma_no_reversal(facing: Direction, lock: bool, d: Direction)
    ensures
        arbitrated_facing(facing, lock, d) != facing.opposite_spec(),
{
}

impl SnakeState {
    /// The cell the head occupies.
    pub open spec fn head_spec(self) -> Position
        recommends
            self.segments@.len() > 0,
    {
        self.segments@[0]
    }

    /// The cell the last segment occupies.
    pub open spec fn tail_spec(self) -> Position
        recommends
            self.segments@.len() > 0,
    {
        self.segments@.last()
    }

    /// No two segments share a cell.
    pub open spec fn distinct_segments(self) -> bool {
        forall|i: int, j: int|
            0 <= i < j < self.segments@.len() ==> self.segments@[i] != self.segments@[j]
    }

    /// A live snake on `grid`: at least head and one body segment, no segment
    /// cell occupied twice, every segment inside the grid.
    pub open spec fn wf(self, grid: Grid) -> bool {
        &&& self.segments@.len() >= 2
        &&& self.distinct_segments()
        &&& forall|i: int|
            0 <= i < self.segments@.len() ==> grid.contains_spec(#[trigger] self.segments@[i])
    }

    /// Arbitrate one direction input event. While the turn lock is open, a
    /// direction that does not reverse the current facing is committed and
    /// closes the lock; any other event is ignored silently.
    pub fn input(&mut self, d: Direction)
        ensures
            final(self).segments == old(self).segments,
            final(self).facing == arbitrated_facing(old(self).facing, old(self).turn_lock, d),
            final(self).turn_lock == arbitrated_lock(old(self).facing, old(self).turn_lock, d),
            final(self).facing != old(self).facing.opposite_spec(),
            old(self).turn_lock ==> *final(self) == *old(self),
    {
        if self.turn_lock {
            return;
        }
        if d != self.facing.opposite() {
            self.facing = d;
            self.turn_lock = true;
        }
    }

    /// The candidate cell the head would move to this tick.
    pub fn next_head(&self) -> (r: Position)
        requires
            self.segments@.len() > 0,
            i32::MIN < self.head_spec().x < i32::MAX,
            i32::MIN < self.head_spec().y < i32::MAX,
        ensures
            r == step_spec(self.head_spec(), self.facing),
    {
        let head = self.segments[0];
        step(head, self.facing)
    }
}

} // verus!
