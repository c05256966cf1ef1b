//! Simulation core of a grid-based snake game: a toroidal arena, the snake's
//! body and its movement, food placement, and the per-tick game state machine.

pub mod arena;
pub mod food;
pub mod game;
pub mod snake;
