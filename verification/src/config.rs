//! World geometry and tuning constants.
//!
//! All lengths are in tenths of a pixel and all speeds in tenths of a pixel
//! per tick, so every quantity in the simulation is an exact integer.

use vstd::prelude::*;

verus! {

/// Lower bound of the drawable world plane.
pub const WORLD_MIN: i64 = 0;
/// Upper bound of the drawable world plane.
pub const WORLD_MAX: i64 = 8000;
/// A vehicle this far beyond the plane is retired.
pub const EXIT_MARGIN: i64 = 500;

/// Both coordinates of the centre of the intersection box.
pub const INTERSECTION_CENTER: i64 = 4000;
/// Near edge of the square intersection box shared by all vehicles.
pub const BOX_MIN: i64 = 2950;
/// Far edge of the square intersection box.
pub const BOX_MAX: i64 = 5050;

/// Speeds never drop below this value.
pub const MIN_SPEED: i64 = 0;
/// Speeds never exceed this value.
pub const MAX_SPEED: i64 = 20;
/// Target speed on an open road.
pub const CRUISE_SPEED: i64 = 15;
/// Largest speed increase in one tick.
pub const ACCEL_STEP: i64 = 2;
/// Largest speed decrease in one tick; braking is quicker than speeding up.
pub const DECEL_STEP: i64 = 3;

/// A vehicle ahead closer than this forces the follower to stop.
pub const SAFE_DISTANCE: i64 = 800;
/// Extra radius beyond the safe distance in which vehicles ahead are noticed.
pub const CHECK_MARGIN: i64 = 400;
/// Width of the band past the safe distance where speed is interpolated.
pub const SLOW_BAND: i64 = 300;
/// Target speed at the near end of the interpolation band.
pub const SLOW_BASE: i64 = 4;
/// Speed gained across the full interpolation band.
pub const SLOW_SPAN: i64 = 8;
/// Half-width of the travel corridor used by the proximity detector.
pub const LATERAL_TOLERANCE: i64 = 250;

/// Depth of the zone before the stop line where a vehicle can be held.
pub const STOP_ZONE: i64 = 200;
/// Distance from the stop line at which braking begins while approaching.
pub const BRAKE_ZONE: i64 = 1500;
/// Braking while approaching never aims below this speed.
pub const BRAKE_FLOOR: i64 = 5;

/// A same-route vehicle closer than this to the entry point blocks a spawn.
pub const SPAWN_SAFE_DISTANCE: i64 = 400;
/// Lateral half-width of the corridor checked ahead of a spawn point.
pub const SPAWN_LATERAL: i64 = 200;
/// The spawn corridor reaches this many safe distances ahead.
pub const SPAWN_AHEAD_FACTOR: i64 = 3;

/// Smallest speed a vehicle can be created with.
pub const SPAWN_SPEED_MIN: i64 = 8;
/// Number of distinct initial speeds, counted up from the smallest.
pub const SPAWN_SPEED_CHOICES: u32 = 4;

} // verus!
