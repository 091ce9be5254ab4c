//! Tuning constants of the simulation.
//!
//! Distances are integer world units, speeds are units per second, times
//! and durations are milliseconds.  Frame-rate dependent chances are
//! drawn as an integer below [`CHANCE_SCALE`] and compared against a
//! per-mille numerator.

use vstd::prelude::*;

verus! {

/// Milliseconds per second: the denominator of every `speed * dt` product.
pub const TIME_SCALE: u32 = 1000;

/// Longest frame time accepted by the simulation, in milliseconds.
pub const MAX_DT: u32 = 1000;

/// Magnitude bound kept on every position coordinate.
pub const POS_LIMIT: i32 = 10_000_000;

/// Magnitude bound kept on every velocity component (a terminal speed).
pub const VEL_LIMIT: i32 = 1_000_000;

/// Magnitude bound on level geometry coordinates and extents.
pub const GEO_LIMIT: i32 = 1_000_000;

/// Denominator of every random chance draw.
pub const CHANCE_SCALE: u32 = 1000;

pub const PLAYER_SIZE: i32 = 50;

pub const PLAYER_SPEED: i32 = 500;

pub const JUMP_FORCE: i32 = 600;

/// Downward acceleration, units per second per second.
pub const GRAVITY: i32 = 1000;

pub const PLAYER_SPAWN_X: i32 = 100;

/// The safe zone around the player spawn spans this many player widths.
pub const PLAYER_SAFE_ZONE_MULTIPLIER: i32 = 3;

pub const GROUND_HEIGHT: i32 = 50;

pub const CEILING_HEIGHT: i32 = 50;

pub const WALL_WIDTH: i32 = 50;

pub const ITEM_SIZE: i32 = 25;

pub const ITEM_COUNT: usize = 8;

/// Speed imparted to a thrown item along each axis of the fixed unit
/// diagonal: the full throw speed of 600 divided by the square root of
/// two.
pub const ITEM_THROW_DIAGONAL: i32 = 424;

/// Numerator of the restitution factor kept by a bounce.
pub const ITEM_BOUNCE_KEEP_NUM: u32 = 7;

/// Numerator of the complementary factor that damps the horizontal speed.
pub const ITEM_BOUNCE_LOSE_NUM: u32 = 3;

/// Denominator of the restitution factor.
pub const ITEM_BOUNCE_DEN: u32 = 10;

/// Below this speed a thrown item settles instead of bouncing.
pub const ITEM_MIN_BOUNCE_SPEED: i32 = 60;

pub const BLOCK_SIZE: i32 = 60;

pub const BLOCK_COUNT: usize = 27;

/// Vertical offset of a carried block below its carrier's top edge.
pub const BLOCK_OFFSET: i32 = 20;

pub const MAX_BADDIES: usize = 8;

pub const BADDIE_SIZE: i32 = 40;

pub const BADDIE_SPEED: i32 = 200;

pub const BADDIE_JUMP_FORCE: i32 = 600;

/// Per-frame chance (out of [`CHANCE_SCALE`]) of a grounded baddie jump.
pub const BADDIE_JUMP_CHANCE: u32 = 5;

/// Consecutive grounded frames after which a baddie starts to elevate.
pub const BADDIE_ELEVATION_THRESHOLD: u32 = 2000;

/// Vertical speed while elevating; negative is upward.
pub const BADDIE_ELEVATION_SPEED: i32 = -150;

/// Amplitude of the horizontal weave while elevating.
pub const BADDIE_ELEVATION_WEAVE_AMPLITUDE: i32 = 40;

/// Period of the horizontal weave while elevating, in milliseconds.
pub const BADDIE_ELEVATION_WEAVE_PERIOD: u32 = 1600;

/// A quarter of the weave period.
pub const BADDIE_ELEVATION_WEAVE_QUARTER: u32 = 400;

/// Per-frame chance (out of [`CHANCE_SCALE`]) that an elevating baddie
/// drops what it holds.
pub const BADDIE_ELEVATION_DROP_CHANCE: u32 = 1;

/// Chance (out of [`CHANCE_SCALE`]) that a side hit on a block becomes a
/// grab.
pub const BADDIE_GRAB_CHANCE: u32 = 50;

/// Chance (out of [`CHANCE_SCALE`]) that a baddie at a platform edge
/// turns around instead of walking off.
pub const BADDIE_EDGE_TURN_CHANCE: u32 = 100;

pub const BADDIE_MIN_GRAB_DURATION: u32 = 3000;

pub const BADDIE_MAX_GRAB_DURATION: u32 = 10000;

pub const BADDIE_MIN_ITEM_HOLD_DURATION: u32 = 1000;

pub const BADDIE_MAX_ITEM_HOLD_DURATION: u32 = 2000;

/// Chance (out of [`CHANCE_SCALE`]) that a baddie touching an idle item
/// captures it.
pub const BADDIE_GRAB_ITEM_CHANCE: u32 = 600;

pub const LEVEL_WIDTH: i32 = 2048;

pub const LEVEL_HEIGHT: i32 = 1536;

/// The camera keeps the player this fraction of the view away from the
/// view's edges: a quarter of the view extent.
pub const SCREEN_QUARTER_DIVISOR: u32 = 4;

} // verus!
