//! A self-playing snake game on a fixed grid: the grid geometry, the state
//! encoder that turns a game into an observation grid, and the tick-driven
//! transition rules. The policy that picks moves lives with the host program.

pub mod encode;
pub mod food;
pub mod game;
pub mod geometry;
