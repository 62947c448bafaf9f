//! Fixed configuration of the game: arena geometry, paddle and ball sizes,
//! initial ball velocity, paddle speed, the spawn delay, and the numeric
//! limits under which every frame computation stays inside `i64`.

use vstd::prelude::*;

verus! {

/// Microunits per arena unit: all positions and lengths are held in
/// microunits.
pub const UNIT: i64 = 1_000_000;

/// Milliunits per second per arena unit per second: all velocities are held
/// in milliunits per second. A velocity `v` moving for `delta_ms`
/// milliseconds covers exactly `v * delta_ms` microunits.
pub const SPEED_UNIT: i64 = 1_000;

/// Arena width in microunits (100 units).
pub const ARENA_WIDTH: i64 = 100 * UNIT;

/// Arena height in microunits (100 units).
pub const ARENA_HEIGHT: i64 = 100 * UNIT;

/// Paddle width in microunits (4 units).
pub const PADDLE_WIDTH: i64 = 4 * UNIT;

/// Paddle height in microunits (16 units).
pub const PADDLE_HEIGHT: i64 = 16 * UNIT;

/// Ball radius in microunits (2 units).
pub const BALL_RADIUS: i64 = 2 * UNIT;

/// Initial horizontal ball velocity (75 units per second).
pub const BALL_VELOCITY_X: i64 = 75 * SPEED_UNIT;

/// Initial vertical ball velocity (50 units per second).
pub const BALL_VELOCITY_Y: i64 = 50 * SPEED_UNIT;

/// Paddle speed in arena units per second at full input deflection. The
/// product of an axis value in milli (full deflection is 1_000) with this
/// constant is a velocity in milliunits per second.
pub const PADDLE_SPEED: i64 = 50;

/// Full deflection of an input axis: axis values are held in milli, so the
/// real interval [-1.0, 1.0] becomes [-AXIS_MAX, AXIS_MAX].
pub const AXIS_MAX: i64 = 1_000;

/// Delay in milliseconds between game start (or a score) and the spawn of
/// the next ball (1 second).
pub const BALL_SPAWN_DELAY: i64 = 1_000;

/// Horizontal centre of the arena, in microunits.
pub const ARENA_CENTER_X: i64 = 50 * UNIT;

/// Vertical centre of the arena, in microunits.
pub const ARENA_CENTER_Y: i64 = 50 * UNIT;

/// Horizontal station of the left paddle: half a paddle width in from the
/// left edge, in microunits.
pub const LEFT_PADDLE_X: i64 = 2 * UNIT;

/// Horizontal station of the right paddle: half a paddle width in from the
/// right edge, in microunits.
pub const RIGHT_PADDLE_X: i64 = 98 * UNIT;

/// Largest frame delta accepted, in milliseconds (one minute).
pub const MAX_DELTA: i64 = 60_000;

/// Largest velocity magnitude accepted, in milliunits per second
/// (1000 units per second).
pub const MAX_SPEED: i64 = 1_000 * SPEED_UNIT;

/// Largest displacement a single frame can produce, in microunits.
pub const MAX_STEP: i64 = MAX_SPEED * MAX_DELTA;

/// Largest coordinate magnitude accepted by the movement systems, in
/// microunits. Far beyond the arena, but small enough that one frame's
/// displacement added to it stays well inside `i64`.
pub const MAX_COORD: i64 = 1_000_000 * UNIT;

} // verus!
