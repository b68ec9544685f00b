//! Core of a turn-based snake simulation on a fixed discrete grid.
//!
//! The snake moves one cell per tick, grows by eating food, and dies on
//! collision with its own body or the grid boundary. The game cycles through
//! menu, playing and game-over phases, carrying a high score across rounds.
//! Rendering, windowing and input polling are left to the caller; the library
//! owns the simulation state and exposes it as plain values.

pub mod game;
pub mod grid;
pub mod occupancy;
pub mod rng;
pub mod snake;
