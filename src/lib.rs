//! A tick-driven snake game: geometry, the snake, apple placement and the
//! game state machine, each stated and proved with Verus.

pub mod geometry;
pub mod snake;
pub mod spawn;
pub mod game;
