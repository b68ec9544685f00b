//! The authoritative simulation state and its tick state machine: candidate
//! head classification, atomic commit of a move, growth bookkeeping, food
//! placement, and the menu / playing / game-over lifecycle with score and
//! high-score carry-over.

use vstd::prelude::*;

use crate::grid::{Direction, Grid, Position, lemma_step_moves, step_spec};
use crate::occupancy::{free_cells, is_free};
use crate::rng::{fresh_rng, gen_below};
use crate::snake::{SnakeState, arbitrated_facing, arbitrated_lock};

verus! {

/// The lifecycle phase; exactly one is active at a time.
#[derive(Clone, Copy, PartialEq, Eq, Structural, Debug)]
pub enum GameState {
    Menu,
    Playing,
    GameOver,
}

/// What one movement tick did.
#[derive(Clone, Copy, PartialEq, Eq, Structural, Debug)]
pub enum TickOutcome {
    /// The snake moved onto a free cell; the tail vacated its cell.
    Moved,
    /// The snake moved onto the food and lengthened by one.
    Grew,
    /// The candidate cell was a wall or the snake's own body; the session
    /// ended without any further change to the snake.
    GameOver,
}

/// How the candidate head cell classifies, in precedence order.
#[derive(Clone, Copy, PartialEq, Eq, Structural, Debug)]
pub enum CellClass {
    /// Out of bounds: fatal.
    Wall,
    /// A body segment that will not vacate this tick: fatal.
    SelfHit,
    /// The outstanding food: move and grow.
    FoodCell,
    /// Anything else: move normally.
    Free,
}

/// Score reward for one food item.
pub const FOOD_REWARD: u32 = 1;

/// The fixed initial spawn layout: head above the first body segment,
/// facing up.
pub open spec fn initial_segments() -> Seq<Position> {
    seq![Position { x: 3, y: 3 }, Position { x: 3, y: 2 }]
}

/// The whole simulation state, owned as one value. The caller drives it
/// through `input`, `tick`, `spawn_food` and `reset_game`; rendering reads
/// the public fields.
pub struct Game {
    pub grid: Grid,
    pub snake: SnakeState,
    /// At most one food item outstanding.
    pub food: Option<Position>,
    /// The cell the tail vacated on the last committed move; kept one tick so
    /// same-tick growth can reuse it.
    pub last_tail: Option<Position>,
    pub phase: GameState,
    pub score: u32,
    pub high_score: u32,
}

impl Game {
    /// The standing invariant: a usable grid, a live snake on it, and any
    /// outstanding food inside the bounds.
    pub open spec fn wf(self) -> bool {
        &&& self.grid.wf()
        &&& self.snake.wf(self.grid)
        &&& (self.food matches Some(p) ==> self.grid.contains_spec(p))
    }

    /// The candidate head cell for the current tick.
    pub open spec fn candidate_spec(self) -> Position {
        step_spec(self.snake.head_spec(), self.snake.facing)
    }

    /// Whether this tick grows the snake: the candidate lands on the food.
    pub open spec fn grows_spec(self) -> bool {
        self.food == Some(self.candidate_spec())
    }

    /// Self-collision: the candidate equals a pre-move segment at index 1 or
    /// beyond. The tail (the last segment) is exempt when the snake is not
    /// growing, because it vacates its cell this very tick; when growing it
    /// stays put, and stepping onto it is fatal.
    pub open spec fn self_hit_spec(self) -> bool {
        exists|j: int|
            1 <= j < self.snake.segments@.len()
                && #[trigger] self.snake.segments@[j] == self.candidate_spec()
                && (self.grows_spec() || j < self.snake.segments@.len() - 1)
    }

    /// Classification of the candidate cell, first match wins.
    pub open spec fn classify_spec(self) -> CellClass {
        if !self.grid.contains_spec(self.candidate_spec()) {
            CellClass::Wall
        } else if self.self_hit_spec() {
            CellClass::SelfHit
        } else if self.grows_spec() {
            CellClass::FoodCell
        } else {
            CellClass::Free
        }
    }

    /// A fresh game on `grid`, waiting in the menu. The grid must be able to
    /// hold the fixed initial spawn layout.
    pub fn new(grid: Grid) -> (g: Game)
        requires
            grid.wf(),
            grid.width > 3,
            grid.height > 3,
        ensures
            g.wf(),
            g.grid == grid,
            g.phase == GameState::Menu,
            g.score == 0,
            g.high_score == 0,
            g.food is None,
            g.last_tail is None,
            g.snake.segments@ == initial_segments(),
            g.snake.facing == Direction::Up,
            g.snake.turn_lock == false,
    {
        let segments = vec![Position { x: 3, y: 3 }, Position { x: 3, y: 2 }];
        assert(segments@ =~= initial_segments());
        let g = Game {
            grid,
            snake: SnakeState { segments, facing: Direction::Up, turn_lock: false },
            food: None,
            last_tail: None,
            phase: GameState::Menu,
            score: 0,
            high_score: 0,
        };
        g
    }

    /// Full reset on (re)entering play: a fresh snake at the fixed spawn
    /// layout, food cleared, score zeroed, turn lock open. The high score is
    /// carried over.
    pub fn reset_game(&mut self)
        requires
            old(self).grid.wf(),
            old(self).grid.width > 3,
            old(self).grid.height > 3,
        ensures
            final(self).wf(),
            final(self).grid == old(self).grid,
            final(self).phase == GameState::Playing,
            final(self).score == 0,
            final(self).high_score == old(self).high_score,
            final(self).food is None,
            final(self).last_tail is None,
            final(self).snake.segments@ == initial_segments(),
            final(self).snake.segments@.len() == 2,
            final(self).snake.facing == Direction::Up,
            final(self).snake.turn_lock == false,
    {
        let segments = vec![Position { x: 3, y: 3 }, Position { x: 3, y: 2 }];
        assert(segments@ =~= initial_segments());
        self.snake = SnakeState { segments, facing: Direction::Up, turn_lock: false };
        self.food = None;
        self.last_tail = None;
        self.score = 0;
        self.phase = GameState::Playing;
    }

    /// Arbitrate one direction input event while playing; everything but the
    /// snake's facing and turn lock is untouched.
    pub fn input(&mut self, d: Direction)
        requires
            old(self).phase == GameState::Playing,
        ensures
            old(self).wf() ==> final(self).wf(),
            final(self).snake.segments == old(self).snake.segments,
            final(self).snake.facing == arbitrated_facing(
                old(self).snake.facing,
                old(self).snake.turn_lock,
                d,
            ),
            final(self).snake.turn_lock == arbitrated_lock(
                old(self).snake.facing,
                old(self).snake.turn_lock,
                d,
            ),
            final(self).snake.facing != old(self).snake.facing.opposite_spec(),
            old(self).snake.turn_lock ==> final(self).snake == old(self).snake,
            final(self).grid == old(self).grid,
            final(self).food == old(self).food,
            final(self).last_tail == old(self).last_tail,
            final(self).phase == old(self).phase,
            final(self).score == old(self).score,
            final(self).high_score == old(self).high_score,
    {
        self.snake.input(d);
    }

    /// One movement tick: open the turn lock, compute the candidate head
    /// cell, classify it (wall, self, food, free — first match wins), and
    /// atomically apply the consequence. On a terminal collision the snake is
    /// left untouched, the high score is snapshotted, and the phase flips to
    /// game over.
    pub fn tick(&mut self) -> (outcome: TickOutcome)
        requires
            old(self).wf(),
            old(self).phase == GameState::Playing,
            old(self).score + FOOD_REWARD <= u32::MAX,
        ensures
            final(self).wf(),
            final(self).snake.distinct_segments(),
            final(self).grid == old(self).grid,
            final(self).snake.facing == old(self).snake.facing,
            final(self).snake.turn_lock == false,
            outcome == TickOutcome::GameOver <==> (old(self).classify_spec() == CellClass::Wall
                || old(self).classify_spec() == CellClass::SelfHit),
            (old(self).classify_spec() == CellClass::Wall || old(self).classify_spec()
                == CellClass::SelfHit) ==> ({
                &&& final(self).phase == GameState::GameOver
                &&& final(self).snake.segments@ == old(self).snake.segments@
                &&& final(self).food == old(self).food
                &&& final(self).last_tail == old(self).last_tail
                &&& final(self).score == old(self).score
                &&& final(self).high_score == (if old(self).score > old(self).high_score {
                    old(self).score
                } else {
                    old(self).high_score
                })
            }),
            old(self).classify_spec() == CellClass::FoodCell ==> ({
                &&& outcome == TickOutcome::Grew
                &&& final(self).phase == GameState::Playing
                &&& final(self).snake.segments@ == seq![old(self).candidate_spec()]
                    + old(self).snake.segments@
                &&& final(self).snake.segments@.len() == old(self).snake.segments@.len() + 1
                &&& final(self).snake.segments@.last() == old(self).snake.tail_spec()
                &&& final(self).food is None
                &&& final(self).last_tail == Some(old(self).snake.tail_spec())
                &&& final(self).score == old(self).score + FOOD_REWARD
                &&& final(self).high_score == old(self).high_score
            }),
            old(self).classify_spec() == CellClass::Free ==> ({
                &&& outcome == TickOutcome::Moved
                &&& final(self).phase == GameState::Playing
                &&& final(self).snake.segments@ == seq![old(self).candidate_spec()]
                    + old(self).snake.segments@.drop_last()
                &&& final(self).snake.segments@.len() == old(self).snake.segments@.len()
                &&& final(self).food == old(self).food
                &&& final(self).last_tail == Some(old(self).snake.tail_spec())
                &&& final(self).score == old(self).score
                &&& final(self).high_score == old(self).high_score
            }),
    {
        // The turn lock opens exactly once per movement tick, before the next
        // input event is read.
        self.snake.turn_lock = false;

        proof {
            assert(self.grid.contains_spec(self.snake.segments@[0]));
        }
        let cand = self.snake.next_head();
        assert(cand == old(self).candidate_spec());

        if !self.grid.in_bounds(cand) {
            if self.score > self.high_score {
                self.high_score = self.score;
            }
            self.phase = GameState::GameOver;
            return TickOutcome::GameOver;
        }

        let grow = match &self.food {
            Some(f) => *f == cand,
            None => false,
        };
        assert(grow == old(self).grows_spec());

        let n = self.snake.segments.len();
        let mut hit = false;
        let mut i: usize = 1;
        while i < n
            invariant
                *self == old(self).tick_scan_view(),
                n == self.snake.segments@.len(),
                1 <= i <= n,
                cand == old(self).candidate_spec(),
                grow == old(self).grows_spec(),
                hit == exists|j: int|
                    1 <= j < i && #[trigger] self.snake.segments@[j] == cand && (grow || j < n
                        - 1),
            decreases n - i,
        {
            if self.snake.segments[i] == cand {
                if grow || i + 1 < n {
                    hit = true;
                    assert(self.snake.segments@[i as int] == cand);
                }
            }
            i += 1;
        }
        assert(hit == old(self).self_hit_spec());

        if hit {
            if self.score > self.high_score {
                self.high_score = self.score;
            }
            self.phase = GameState::GameOver;
            return TickOutcome::GameOver;
        }

        // Commit: the candidate becomes the head; every other segment takes
        // the pre-move position of its predecessor. Growing keeps the old
        // tail in place, so the chain lengthens by one.
        let old_tail = self.snake.segments[n - 1];
        let keep = if grow { n } else { n - 1 };
        let mut new_segments: Vec<Position> = Vec::new();
        new_segments.push(cand);
        let mut j: usize = 0;
        while j < keep
            invariant
                *self == old(self).tick_scan_view(),
                n == self.snake.segments@.len(),
                keep <= n,
                0 <= j <= keep,
                new_segments@.len() == j + 1,
                new_segments@[0] == cand,
                forall|k: int| 1 <= k <= j ==> new_segments@[k] == self.snake.segments@[k - 1],
            decreases keep - j,
        {
            new_segments.push(self.snake.segments[j]);
            j += 1;
        }

        proof {
            lemma_step_moves(old(self).snake.head_spec(), old(self).snake.facing);
            if grow {
                assert(new_segments@ =~= seq![cand] + self.snake.segments@);
            } else {
                assert(new_segments@ =~= seq![cand] + self.snake.segments@.drop_last());
            }
            // The candidate collides with no kept segment: not with the head
            // it vacates, and not with any scanned body cell.
            assert(forall|k: int| 0 <= k < keep ==> self.snake.segments@[k] != cand);
            assert(forall|k1: int, k2: int|
                0 <= k1 < k2 < new_segments@.len() ==> new_segments@[k1] != new_segments@[k2]);
        }

        self.snake.segments = new_segments;
        self.last_tail = Some(old_tail);
        if grow {
            self.food = None;
            self.score = self.score + FOOD_REWARD;
            TickOutcome::Grew
        } else {
            TickOutcome::Moved
        }
    }

    /// The state the tick scan works on: the entry state with the turn lock
    /// already opened.
    pub open spec fn tick_scan_view(self) -> Game {
        Game { snake: SnakeState { turn_lock: false, ..self.snake }, ..self }
    }

    /// Place food on a free cell picked uniformly at random, on the spawner's
    /// own timer. With a food item already outstanding, or with no free cell
    /// left, the call skips silently. Food never lands on a cell the snake or
    /// existing food covers.
    pub fn spawn_food(&mut self) -> (placed: bool)
        requires
            old(self).wf(),
            old(self).phase == GameState::Playing,
        ensures
            final(self).wf(),
            final(self).grid == old(self).grid,
            final(self).snake == old(self).snake,
            final(self).last_tail == old(self).last_tail,
            final(self).phase == old(self).phase,
            final(self).score == old(self).score,
            final(self).high_score == old(self).high_score,
            placed <==> (old(self).food is None && exists|p: Position|
                is_free(old(self).grid, old(self).snake.segments@, old(self).food, p)),
            !placed ==> final(self).food == old(self).food,
            placed ==> (final(self).food matches Some(p) && is_free(
                old(self).grid,
                old(self).snake.segments@,
                old(self).food,
                p,
            )),
    {
        if self.food.is_some() {
            return false;
        }
        let free = free_cells(&self.grid, &self.snake.segments, &self.food);
        if free.len() == 0 {
            proof {
                assert forall|p: Position| !is_free(self.grid, self.snake.segments@, self.food, p) by {
                    if is_free(self.grid, self.snake.segments@, self.food, p) {
                        assert(free@.contains(p));
                    }
                }
            }
            return false;
        }
        assert(is_free(self.grid, self.snake.segments@, self.food, free@[0]));
        let mut rng = fresh_rng();
        let idx = gen_below(&mut rng, free.len());
        self.food = Some(free[idx]);
        true
    }
}

} // verus!

