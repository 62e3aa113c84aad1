//! A verified core for a grid-based snake game.
//!
//! The library models a toroidal grid, the four movement directions, the
//! snake's per-tick state machine (movement, growth, self-collision and
//! eating detection, buffered direction changes) and the overall game state
//! with its game-over latch. Rendering, timing and configuration loading are
//! left to a front end; the core works on plain values and is verified.

pub mod direction;
pub mod food;
pub mod game_state;
pub mod grid_position;
pub mod snake;

pub use direction::Direction;
pub use food::{Ate, Food};
pub use game_state::GameState;
pub use grid_position::GridPosition;
pub use snake::{Segment, Snake};
