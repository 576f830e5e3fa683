//! A single-player snake simulation on a fixed-size toroidal grid.
//!
//! The crate holds the simulation state machine and the decisions that the
//! program around it needs: what to draw, how to react to a key, and when a
//! tick is due. Drawing, polling, and sleeping are left to the caller.

pub mod dice;
pub mod direction;
pub mod driver;
pub mod food;
pub mod game;
pub mod grid;
pub mod laws;
pub mod scene;

pub use dice::sample_draws;
pub use direction::SnakeDirection;
pub use food::place_food;
pub use game::{GameContext, GameModel, GameState};
pub use grid::{Cell, Point, CELL_SIZE, GRID_X_SIZE, GRID_Y_SIZE};
