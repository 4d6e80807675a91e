//! Simulation core of a grid-based snake game: a bounded, wrap-around board
//! and a discrete-time state machine that owns the snake's body, heading,
//! queued direction requests, and item placement.

pub mod board;
pub mod game;
