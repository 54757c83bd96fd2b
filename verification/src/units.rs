//! The fixed-point scale and the constants of the game.
//!
//! A length is an `i64` count of steps, `UNIT` of them to one world unit. A
//! time is a `u64` count of nanoseconds. A speed is a whole number of world
//! units per second, which is the same number of steps per nanosecond.
//!
//! The axis `x` runs across the road and grows to the player's left, `y`
//! points up, and `z` runs along the road and grows in the direction of play.

use vstd::prelude::*;

verus! {

/// Steps in one world unit.
pub const UNIT: i64 = 1_000_000_000;

/// Nanoseconds in one second.
pub const SECOND: u64 = 1_000_000_000;

/// Number of road tiles laid out at setup.
pub const NUM_TILES: i32 = 50;

/// Number of road types a tile is drawn from. Only type 0 spawns cars.
pub const ROAD_TYPES: i32 = 3;

/// Length of a road tile across the road: 25 units.
pub const ROAD_LENGTH: i64 = 25_000_000_000;

/// Distance between neighbouring lanes, and the length of one player step:
/// 3 units.
pub const LANE_STEP: i64 = 3_000_000_000;

/// Speed of every car, in units per second.
pub const CAR_VELOCITY: i64 = -10;

/// Time after which a car is removed: 10 seconds.
pub const CAR_LIFETIME: u64 = 10_000_000_000;

/// Shortest spawn period drawn at setup: 2 seconds.
pub const MIN_SPAWN_PERIOD: u64 = 2_000_000_000;

/// Bound above every spawn period drawn at setup: 5 seconds.
pub const MAX_SPAWN_PERIOD: u64 = 5_000_000_000;

/// Upward shift of the player while a direction key is held on the ground:
/// 0.1 units.
pub const JUMP_NUDGE: i64 = 100_000_000;

/// Largest vertical speed, in steps per second, at which the player counts as
/// standing on the ground: 0.1 units per second.
pub const GROUND_EPSILON: i64 = 100_000_000;

} // verus!
