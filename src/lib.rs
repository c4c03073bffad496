//! Simulation core of a top-down arcade survival game: the integer and
//! decision parts of the per-substep update, with their contracts.

pub mod score;
pub mod entity;
pub mod input;
pub mod effect;
pub mod hits;
pub mod cull;
pub mod player;
pub mod state;
pub mod spawning;
pub mod prob;
