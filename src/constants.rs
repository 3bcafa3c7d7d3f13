use vstd::prelude::*;

verus! {

/// Positions are measured in sub-pixels: one pixel is this many units.
pub const SUBPIXELS_PER_PIXEL: i64 = 1000;

/// Durations are measured in microseconds.
pub const MICROS_PER_SECOND: u64 = 1_000_000;

/// Largest magnitude a coordinate may take; keeps every squared distance far from overflow.
pub const COORD_LIMIT: i64 = 1_000_000_000_000;

/// Largest magnitude a camera coordinate may take; everything visible then stays
/// inside the coordinate range.
pub const CAMERA_LIMIT: i64 = 500_000_000_000;

pub const WINDOW_WIDTH: i64 = 360_000;
pub const WINDOW_HEIGHT: i64 = 600_000;
pub const GRID_SIZE: i64 = 40_000;

/// Vertical scroll speed of the camera and walls, in pixels per second.
pub const KINEMATIC_OBJECTS_SPEED: i64 = 150;

pub const SHIP_GAME_WIDTH: i64 = 50_000;
pub const SHIP_GAME_HEIGHT: i64 = 50_000;
/// Ship speed in pixels per second per unit of movement magnitude.
pub const SHIP_SPEED: i64 = 100;
pub const SHIP_PADDING: i64 = 0;
/// Collision radius of the ship: its true width (27 px) scaled by 1.5, halved.
pub const SHIP_SCALED_RADIUS: i64 = 20_250;

/// Collision radius of an asteroid: its true width (37 px) scaled by 1.5, halved.
pub const ASTEROID_SCALED_RADIUS: i64 = 27_750;
/// Asteroids alive above this count stop the spawner.
pub const ASTEROID_CAP: usize = 15;
/// Height above the top wall at which new asteroids appear.
pub const ASTEROID_SPAWN_MARGIN: i64 = 100_000;
/// How many positions the spawner draws before it accepts an overlapping one.
pub const MAX_SPAWN_ATTEMPTS: u32 = 16;

/// Rocket speed in pixels per second.
pub const ROCKET_SPEED: i64 = 300;
/// Half the side of a rocket's square collision box (its 1.5 scale, halved).
pub const ROCKET_HALF_EXTENT: i64 = 750;

pub const TOP_WALL: i64 = 300_000;
pub const BOTTOM_WALL: i64 = -300_000;
pub const RIGHT_WALL: i64 = 180_000;
pub const LEFT_WALL: i64 = -180_000;
pub const WALL_THICKNESS: i64 = 10_000;

/// Length of the ship's invulnerability (blinking) animation.
pub const INVULNERABLE_MICROS: u64 = 2_000_000;
/// Time between two rockets.
pub const SHIP_COOLDOWN_MICROS: u64 = 500_000;
/// Length of one asteroid explosion frame timer.
pub const ASTEROID_EXPLOSION_MICROS: u64 = 120_000;
/// Length of one rocket animation frame.
pub const ROCKET_FRAME_MICROS: u64 = 100_000;
/// Survival time that earns one point.
pub const SCORE_INTERVAL_MICROS: u64 = 500_000;
/// Points for a destroyed asteroid.
pub const ASTEROID_POINTS: u64 = 5;
/// Delay before the first spawn.
pub const SPAWN_FIRST_DELAY_MICROS: u64 = 1_000_000;
/// Bounds of the randomized delay between two spawns.
pub const SPAWN_DELAY_MIN_MICROS: u64 = 500_000;
pub const SPAWN_DELAY_MAX_MICROS: u64 = 750_000;
/// Length of a fixed simulation step (64 steps per second).
pub const FIXED_TIMESTEP_MICROS: u64 = 15_625;

} // verus!
