use snake_core::game::{Game, GameState};
use snake_core::grid::{Direction, Grid, Position};
use snake_core::occupancy::{border_cells, free_cells};
use snake_core::snake::SnakeState;

fn playing_game(grid: Grid, segments: Vec<Position>, facing: Direction) -> Game {
    Game {
        grid,
        snake: SnakeState { segments, facing, turn_lock: false },
        food: None,
        last_tail: None,
        phase: GameState::Playing,
        score: 0,
        high_score: 0,
    }
}

#[test]
fn free_cells_small_grid_exact() {
    let grid = Grid { width: 2, height: 2 };
    let segments = vec![Position { x: 0, y: 0 }];
    let food = Some(Position { x: 1, y: 1 });
    let free = free_cells(&grid, &segments, &food);
    assert_eq!(free.len(), 2);
    assert!(free.contains(&Position { x: 0, y: 1 }));
    assert!(free.contains(&Position { x: 1, y: 0 }));
}

#[test]
fn free_cells_empty_on_fully_covered_grid() {
    // A grid fully covered by snake segments has no free cell, and the
    // spawner performs no mutation that tick.
    let grid = Grid { width: 2, height: 2 };
    let segments = vec![
        Position { x: 0, y: 0 },
        Position { x: 0, y: 1 },
        Position { x: 1, y: 1 },
        Position { x: 1, y: 0 },
    ];
    let free = free_cells(&grid, &segments, &None);
    assert_eq!(free.len(), 0);

    let mut g = playing_game(grid, segments, Direction::Up);
    let placed = g.spawn_food();
    assert!(!placed);
    assert_eq!(g.food, None);
    assert_eq!(g.phase, GameState::Playing);
}

#[test]
fn spawn_lands_on_the_single_free_cell() {
    // Exactly one cell is free; the uniform draw has no choice.
    let grid = Grid { width: 2, height: 2 };
    let segments = vec![
        Position { x: 0, y: 0 },
        Position { x: 0, y: 1 },
        Position { x: 1, y: 1 },
    ];
    let mut g = playing_game(grid, segments, Direction::Up);
    let placed = g.spawn_food();
    assert!(placed);
    assert_eq!(g.food, Some(Position { x: 1, y: 0 }));
}

#[test]
fn spawn_avoids_snake_and_stays_in_bounds() {
    let grid = Grid { width: 4, height: 4 };
    let segments = vec![
        Position { x: 1, y: 1 },
        Position { x: 1, y: 2 },
        Position { x: 2, y: 2 },
    ];
    for _ in 0..50 {
        let mut g = playing_game(grid, segments.clone(), Direction::Up);
        assert!(g.spawn_food());
        let p = g.food.expect("food placed");
        assert!(0 <= p.x && p.x < 4 && 0 <= p.y && p.y < 4);
        assert!(!segments.contains(&p));
    }
}

#[test]
fn spawn_skips_while_food_is_outstanding() {
    // At most one food item: the spawner waits until it is eaten.
    let grid = Grid { width: 4, height: 4 };
    let mut g = playing_game(
        grid,
        vec![Position { x: 1, y: 1 }, Position { x: 1, y: 2 }],
        Direction::Up,
    );
    g.food = Some(Position { x: 3, y: 3 });
    let placed = g.spawn_food();
    assert!(!placed);
    assert_eq!(g.food, Some(Position { x: 3, y: 3 }));
}

#[test]
fn border_ring_cells_exact() {
    let grid = Grid { width: 2, height: 1 };
    let ring = border_cells(&grid);
    // The enclosing ring of a 2x1 grid: a 4x3 block minus the 2 inner cells.
    assert_eq!(ring.len(), 10);
    for x in -1..=2 {
        assert!(ring.contains(&Position { x, y: -1 }));
        assert!(ring.contains(&Position { x, y: 1 }));
    }
    assert!(ring.contains(&Position { x: -1, y: 0 }));
    assert!(ring.contains(&Position { x: 2, y: 0 }));
    assert!(!ring.contains(&Position { x: 0, y: 0 }));
    assert!(!ring.contains(&Position { x: 1, y: 0 }));
}

#[test]
fn eaten_food_can_be_respawned() {
    let grid = Grid { width: 5, height: 5 };
    let mut g = playing_game(
        grid,
        vec![Position { x: 2, y: 2 }, Position { x: 2, y: 1 }],
        Direction::Up,
    );
    g.food = Some(Position { x: 2, y: 3 });
    assert!(!g.spawn_food());
    g.tick();
    assert_eq!(g.food, None);
    assert!(g.spawn_food());
    let p = g.food.expect("food placed");
    assert!(!g.snake.segments.contains(&p));
}
