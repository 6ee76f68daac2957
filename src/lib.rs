//! Core logic of a terminal snake game: grid geometry with wraparound,
//! the snake's follow-the-leader motion, collision-free placement of food
//! and bricks, and the run-control decisions of the game loop.
use vstd::prelude::*;

pub mod dimensions;
pub mod symbol;
mod random;
pub mod snake;
pub mod food;
pub mod game;
pub mod error;
pub mod layout;
