//! Pong on a fixed field: one paddle, one ball, three walls.
//!
//! The library holds the rules of the game as verified functions on plain
//! values. Drawing, the keyboard and the clock belong to the program around it.

pub mod field;
pub mod game;
pub mod input;
pub mod laws;
pub mod physics;
pub mod scene;
