//! The simulation core of a two-paddle ball game: ball, paddles and score,
//! and the rules that move them once per frame.

pub mod board;
pub mod collide;
pub mod game;
pub mod input;
pub mod laws;
pub mod paddle;
