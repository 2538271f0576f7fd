//! The simulation core of a grid-based snake game.
//!
//! The crate owns the position state of the snake, filters queued
//! directional input, advances the body one cell per tick, detects the
//! collisions that end a game, places food, and names the tile that each
//! segment is drawn with. It draws nothing and reads no device: a caller
//! hands it directions and ticks and reads the state back.
//!
//! Every function carries a contract. Verus proves them all but one: the
//! function in `food` that draws a random number is trusted to stay within
//! the range it is given.

pub mod board;
pub mod body;
pub mod collision;
pub mod food;
pub mod heading;
pub mod position;
pub mod score;
pub mod simulation;
pub mod sprite;
pub mod state;
pub mod touch;
