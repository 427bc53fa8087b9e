use vstd::prelude::*;

verus! {

/// Width of the playfield in pixels.
pub const GAME_WIDTH: i32 = 600;

/// Height of the playfield in pixels.
pub const GAME_HEIGHT: i32 = 400;

/// Side length of the bird's square hitbox in pixels.
pub const BIRD_SIZE: i32 = 30;

/// Fixed horizontal position of the bird in pixels.
pub const BIRD_X: i32 = 50;

/// Fixed-point scale of `bird_y` and `bird_velocity`.
pub const SCALE: i32 = 1000;

/// Velocity added per tick (0.6 px, fixed-point).
pub const GRAVITY: i32 = 600;

/// Velocity set by a flap (-9.0 px, fixed-point).
pub const JUMP_VELOCITY: i32 = -9000;

/// Largest speed in either direction (15.0 px, fixed-point).
pub const MAX_VELOCITY: i32 = 15000;

/// Horizontal extent of a pipe in pixels.
pub const PIPE_WIDTH: i32 = 60;

/// Height of the passable gap in pixels.
pub const PIPE_GAP: i32 = 150;

/// Distance a pipe moves left per tick, in pixels.
pub const PIPE_SPEED: i32 = 10;

/// Free space required to the right of the rightmost pipe before a spawn.
pub const PIPE_SPAWN_DISTANCE: i32 = 200;

/// Number of pipe slots in a session record.
pub const MAX_PIPES: usize = 5;

/// Smallest height of either pipe segment in pixels.
pub const PIPE_HEIGHT_MIN: i32 = 50;

/// Upper limit of pipe heights in pixels.
pub const PIPE_HEIGHT_MAX: i32 = 400;

/// Multiplier of the linear congruential generator.
pub const LCG_MULTIPLIER: u64 = 1103515245;

/// Increment of the linear congruential generator.
pub const LCG_INCREMENT: u64 = 12345;

/// Number of distinct offsets the generator can add to the lowest gap centre.
pub const GAP_RANGE: u64 = 300;

} // verus!
