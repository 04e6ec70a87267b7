//! Geometry and timing of the waypoint layout. Lengths are whole pixels.
use vstd::prelude::*;

verus! {

pub const WINDOW_WIDTH: u32 = 800;

pub const WINDOW_HEIGHT: u32 = 800;

/// Width of each road arm.
pub const ROAD_WIDTH: i32 = 80;

/// Distance from stop line to spawn point.
pub const LANE_LENGTH: i32 = 400;

/// Minimum green-phase duration.
pub const BASE_GREEN_MS: u32 = 3_000;

/// Extra green time awarded once when the active approach is congested.
pub const CONGESTION_EXTENSION_MS: u32 = 2_000;

/// All-red inter-phase buffer.
pub const ALL_RED_MS: u32 = 500;

/// Time that one update of the controller accounts for.
pub const FRAME_MS: u32 = 16;

/// Vehicle length; used in the capacity formula and following distance.
pub const VEHICLE_LENGTH: i32 = 20;

/// Minimum bumper-to-bumper gap between vehicles.
pub const SAFETY_GAP: i32 = 8;

/// Distance a recently spawned vehicle must clear before another can spawn
/// on the same lane.
pub const MIN_SPAWN_DISTANCE: i32 = VEHICLE_LENGTH + SAFETY_GAP;

} // verus!
