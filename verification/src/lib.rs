//! Session simulation engine for a timed reflex game.
//!
//! A fixed grid of cells randomly spawns clickable tiles whose point value
//! decays over time. The player scores by claiming tiles before they decay
//! and loses by claiming an empty cell. A session lasts a fixed duration
//! during which a difficulty curve accelerates both the decay clock and the
//! spawn cadence.
//!
//! All durations are carried as whole milliseconds, so the engine is exact
//! integer arithmetic throughout: real time drives the difficulty curve, and
//! virtual time (real time scaled by the current speed multiplier, expressed
//! in thousandths) drives the tile worth timers and the spawn-cadence timer.

use vstd::prelude::*;

pub mod curve;
pub mod grid;
pub mod score;
pub mod session;
pub mod spawn;

verus! {

/// Number of grid columns.
pub const GRID_COLS: usize = 5;

/// Number of grid rows.
pub const GRID_ROWS: usize = 5;

/// Length of one session in milliseconds of real time.
pub const GAME_DURATION_MS: u64 = 30000;

/// Base period of the spawn-cadence timer in milliseconds of virtual time.
pub const BASE_SPAWN_PERIOD_MS: u64 = 800;

/// Initial worth timer of a freshly placed tile, in milliseconds of virtual time.
pub const TILE_WORTH_MS: u64 = 5000;

/// Default per-axis bound on the distance between consecutive spawns.
pub const SPAWN_DISTANCE: usize = 2;

/// Fixed-point scale for speed multipliers: a multiplier of `1x` is
/// `SPEED_SCALE` thousandths.
pub const SPEED_SCALE: u64 = 1000;

/// Milliseconds per scoring time unit (one second).
pub const MS_PER_SECOND: u64 = 1000;

/// Number of random placement attempts before the spawn placer falls back to
/// a deterministic scan for a free cell.
pub const MAX_SPAWN_ATTEMPTS: usize = 32;

} // verus!
