//! Units and tuning constants.
//!
//! Positions are measured in position units, `UNITS_PER_CELL` of them to one
//! screen cell, and velocities in position units per logical frame. The scale
//! is fine enough that every constant below is a whole number.

use vstd::prelude::*;

verus! {

/// Position units in one screen cell.
pub const UNITS_PER_CELL: i64 = 100;

/// Width of the playing field: 80 cells.
pub const SCREEN_WIDTH: i64 = 8000;

/// Height of the playing field: 50 cells.
pub const SCREEN_HEIGHT: i64 = 5000;

/// Length of one logical frame, in microseconds.
pub const FRAME_DURATION: u64 = 20000;

/// Largest downward velocity that gravity can produce: 2 cells per frame.
pub const TERMINAL_VEL: i64 = 200;

/// Velocity gained per logical frame: 0.2 cells per frame.
pub const GRAVITY: i64 = 20;

/// Velocity right after a flap: 2 cells per frame, upwards.
pub const FLAP_VEL: i64 = -200;

/// Horizontal velocity of an obstacle at score 0: 1 cell per frame, leftwards.
pub const OBSTACLE_VEL: i64 = -100;

/// Extra leftward velocity per point of score: 0.25 cells per frame.
pub const SPEED_SCALE: i64 = 25;

/// Height of the gap at score 0: 20 cells.
pub const BASE_GAP: i64 = 2000;

/// Height under which the gap never shrinks: 2 cells.
pub const MIN_GAP: i64 = 200;

/// Lowest gap centre an obstacle can have: row 10.
pub const GAP_CENTER_MIN: i64 = 1000;

/// Bound that every gap centre stays under: row 40.
pub const GAP_CENTER_MAX: i64 = 4000;

/// Column in which the player stays: 5.
pub const PLAYER_START_X: i64 = 500;

/// Row in which the player starts: 25.
pub const PLAYER_START_Y: i64 = 2500;

} // verus!
