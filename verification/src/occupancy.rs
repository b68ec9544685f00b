//! The occupancy index: which cells the snake and the food cover, the free
//! cells left for the spawner, and the static border ring around the grid.
//! Everything here is recomputed on demand from the current state.

use vstd::prelude::*;

use crate::grid::{Grid, Position};

verus! {

/// The set of cells the snake's segments cover.
pub open spec fn occupied_by_snake(segments: Seq<Position>) -> Set<Position> {
    Set::new(|p: Position| segments.contains(p))
}

/// The set of cells the outstanding food covers.
pub open spec fn occupied_by_food(food: Option<Position>) -> Set<Position> {
    Set::new(|p: Position| food == Some(p))
}

/// `p` is free: an in-bounds cell covered by neither a snake segment nor food.
pub open spec fn is_free(grid: Grid, segments: Seq<Position>, food: Option<Position>, p: Position) -> bool {
    &&& grid.contains_spec(p)
    &&& !occupied_by_snake(segments).contains(p)
    &&& !occupied_by_food(food).contains(p)
}

/// True iff some cell of `v` equals `p`.
pub fn contains_cell(v: &Vec<Position>, p: Position) -> (r: bool)
    ensures
        r == v@.contains(p),
{
    let n = v.len();
    let mut i: usize = 0;
    while i < n
        invariant
            n == v@.len(),
            0 <= i <= n,
            forall|j: int| 0 <= j < i ==> v@[j] != p,
        decreases n - i,
    {
        if v[i] == p {
            assert(v@[i as int] == p);
            return true;
        }
        i += 1;
    }
    false
}

/// The cells the row-major scan has already passed when it stands at
/// column `x`, row `y`.
spec fn scanned_before(p: Position, x: int, y: int) -> bool {
    p.x < x || (p.x == x && p.y < y)
}

/// All free cells of the grid: every in-bounds coordinate not covered by a
/// snake segment or by the food, each exactly once.
pub fn free_cells(grid: &Grid, segments: &Vec<Position>, food: &Option<Position>) -> (r: Vec<Position>)
    requires
        grid.wf(),
    ensures
        forall|k: int| 0 <= k < r@.len() ==> is_free(*grid, segments@, *food, #[trigger] r@[k]),
        forall|p: Position| is_free(*grid, segments@, *food, p) ==> r@.contains(p),
        forall|k1: int, k2: int| 0 <= k1 < k2 < r@.len() ==> r@[k1] != r@[k2],
{
    let mut r: Vec<Position> = Vec::new();
    let mut x: i32 = 0;
    while x < grid.width
        invariant
            grid.wf(),
            0 <= x <= grid.width,
            forall|k: int| 0 <= k < r@.len() ==> is_free(*grid, segments@, *food, #[trigger] r@[k])
                && r@[k].x < x,
            forall|p: Position| is_free(*grid, segments@, *food, p) && p.x < x ==> r@.contains(p),
            forall|k1: int, k2: int| 0 <= k1 < k2 < r@.len() ==> r@[k1] != r@[k2],
        decreases grid.width - x,
    {
        let mut y: i32 = 0;
        while y < grid.height
            invariant
                grid.wf(),
                0 <= x < grid.width,
                0 <= y <= grid.height,
                forall|k: int| 0 <= k < r@.len() ==> is_free(*grid, segments@, *food, #[trigger] r@[k])
                    && scanned_before(r@[k], x as int, y as int),
                forall|p: Position| is_free(*grid, segments@, *food, p)
                    && scanned_before(p, x as int, y as int) ==> r@.contains(p),
                forall|k1: int, k2: int| 0 <= k1 < k2 < r@.len() ==> r@[k1] != r@[k2],
            decreases grid.height - y,
        {
            let p = Position { x, y };
            let on_snake = contains_cell(segments, p);
            let on_food = match food {
                Some(f) => *f == p,
                None => false,
            };
            if !on_snake && !on_food {
                let ghost old_r = r@;
                r.push(p);
                assert(r@[old_r.len() as int] == p);
                assert forall|q: Position| old_r.contains(q) implies r@.contains(q) by {
                    let j = choose|j: int| 0 <= j < old_r.len() && old_r[j] == q;
                    assert(r@[j] == q);
                }
            }
            proof {
                assert forall|q: Position| is_free(*grid, segments@, *food, q)
                    && scanned_before(q, x as int, y as int + 1) implies r@.contains(q) by {
                    if !scanned_before(q, x as int, y as int) {
                        assert(q == p);
                    }
                }
            }
            y += 1;
        }
        x += 1;
    }
    r
}

/// `p` lies on the one-cell border ring that encloses the grid.
pub open spec fn on_border(grid: Grid, p: Position) -> bool {
    &&& -1 <= p.x <= grid.width
    &&& -1 <= p.y <= grid.height
    &&& (p.x == -1 || p.x == grid.width || p.y == -1 || p.y == grid.height)
}

/// The static border cells around the grid, for display: every cell of the
/// enclosing ring, each exactly once.
pub fn border_cells(grid: &Grid) -> (r: Vec<Position>)
    requires
        grid.wf(),
    ensures
        forall|k: int| 0 <= k < r@.len() ==> on_border(*grid, #[trigger] r@[k]),
        forall|p: Position| on_border(*grid, p) ==> r@.contains(p),
        forall|k1: int, k2: int| 0 <= k1 < k2 < r@.len() ==> r@[k1] != r@[k2],
{
    let mut r: Vec<Position> = Vec::new();
    // The two horizontal runs, corners included.
    let mut x: i32 = -1;
    while x <= grid.width
        invariant
            grid.wf(),
            -1 <= x <= grid.width + 1,
            forall|k: int| 0 <= k < r@.len() ==> on_border(*grid, #[trigger] r@[k])
                && (r@[k].y == -1 || r@[k].y == grid.height) && r@[k].x < x,
            forall|p: Position| on_border(*grid, p) && (p.y == -1 || p.y == grid.height)
                && p.x < x ==> r@.contains(p),
            forall|k1: int, k2: int| 0 <= k1 < k2 < r@.len() ==> r@[k1] != r@[k2],
        decreases grid.width - x + 1,
    {
        let ghost old_r = r@;
        r.push(Position { x, y: -1 });
        r.push(Position { x, y: grid.height });
        assert(r@[old_r.len() as int] == (Position { x, y: -1i32 }));
        assert(r@[old_r.len() as int + 1] == (Position { x, y: grid.height }));
        assert forall|q: Position| old_r.contains(q) implies r@.contains(q) by {
            let j = choose|j: int| 0 <= j < old_r.len() && old_r[j] == q;
            assert(r@[j] == q);
        }
        x += 1;
    }
    // The two vertical runs, corners already placed.
    let mut y: i32 = 0;
    while y < grid.height
        invariant
            grid.wf(),
            0 <= y <= grid.height,
            forall|k: int| 0 <= k < r@.len() ==> on_border(*grid, #[trigger] r@[k])
                && (r@[k].y == -1 || r@[k].y == grid.height || r@[k].y < y),
            forall|p: Position| on_border(*grid, p)
                && (p.y == -1 || p.y == grid.height || p.y < y) ==> r@.contains(p),
            forall|k1: int, k2: int| 0 <= k1 < k2 < r@.len() ==> r@[k1] != r@[k2],
        decreases grid.height - y,
    {
        let ghost old_r = r@;
        r.push(Position { x: -1, y });
        r.push(Position { x: grid.width, y });
        assert(r@[old_r.len() as int] == (Position { x: -1i32, y }));
        assert(r@[old_r.len() as int + 1] == (Position { x: grid.width, y }));
        assert forall|q: Position| old_r.contains(q) implies r@.contains(q) by {
            let j = choose|j: int| 0 <= j < old_r.len() && old_r[j] == q;
            assert(r@[j] == q);
        }
        y += 1;
    }
    r
}

} // verus!
