//! Simulation core of a two-paddle ball game, in fixed-point arithmetic.

pub mod invariants;
pub mod pong;
pub mod systems;
pub mod text;
pub mod units;
