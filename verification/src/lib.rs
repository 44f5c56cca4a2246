//! Simulation core of a side-scrolling avoidance game.
//!
//! A player falls under gravity and can flap to climb; walls with a gap scroll
//! towards it. Every quantity is an integer: positions and velocities are
//! counted in hundredths of a screen cell, time in microseconds.

pub mod units;
pub mod player;
pub mod random;
pub mod obstacle;
pub mod state;
