//! Simulation core of a grid-based snake game.
//!
//! The game is a discrete-time state machine: a chain of body segments moves
//! on a bounded grid, turns on directional input but never reverses into
//! itself, dies on walls and on its own body, eats food that appears at
//! intervals, grows by one segment for each food eaten, and starts over when
//! it dies. Every step is an ordinary function over the game state, with a
//! contract stated over the state's mathematical model.

pub mod direction;
pub mod entities;
pub mod game;
pub mod grid;
pub mod laws;
pub mod model;
pub mod random;
pub mod timer;
