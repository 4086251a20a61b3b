//! A verified core for a two-paddle ball-bouncing game.
//!
//! The library holds the whole simulation: paddle movement with a margin
//! invariant, a proportional bot controller with a deadband, ball motion
//! with wall bounces and an out-of-bounds reset, and the per-frame update
//! that ties them together. Coordinates are integers; rendering and input
//! polling live outside the library and exchange plain values with it.

pub mod ball;
pub mod config;
pub mod game;
pub mod paddle;
