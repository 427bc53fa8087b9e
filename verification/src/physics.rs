use vstd::prelude::*;
use crate::constants::{GRAVITY, MAX_VELOCITY, SCALE};

verus! {

/// A velocity brought back into `[-MAX_VELOCITY, MAX_VELOCITY]`.
pub open spec fn clamp_velocity(v: int) -> int {
    if v > MAX_VELOCITY {
        MAX_VELOCITY as int
    } else if v < -MAX_VELOCITY {
        -MAX_VELOCITY
    } else {
        v
    }
}

/// The velocity after one tick of gravity.
pub open spec fn next_velocity(v: int) -> int {
    clamp_velocity(v + GRAVITY)
}

/// The position after one tick, given the velocity before it.
pub open spec fn next_bird_y(y: int, v: int) -> int {
    y + next_velocity(v)
}

/// A fixed-point position in whole pixels, rounded toward zero.
pub open spec fn to_pixels(y: int) -> int {
    if y >= 0 {
        y / (SCALE as int)
    } else {
        -((-y) / (SCALE as int))
    }
}

/// One tick of gravity: returns the new velocity and the new position.
pub fn integrate(bird_y: i32, bird_velocity: i32) -> (r: (i32, i32))
    requires
        bird_velocity + GRAVITY <= i32::MAX,
        i32::MIN <= next_bird_y(bird_y as int, bird_velocity as int) <= i32::MAX,
    ensures
        r.0 == next_velocity(bird_velocity as int),
        r.1 == next_bird_y(bird_y as int, bird_velocity as int),
        -MAX_VELOCITY <= r.0 <= MAX_VELOCITY,
{
    let mut v: i32 = bird_velocity + GRAVITY;
    if v > MAX_VELOCITY {
        v = MAX_VELOCITY;
    }
    if v < -MAX_VELOCITY {
        v = -MAX_VELOCITY;
    }
    (v, bird_y + v)
}

/// The pixel row of a fixed-point position, rounded toward zero.
pub fn pixels(bird_y: i32) -> (r: i32)
    ensures
        r == to_pixels(bird_y as int),
{
    bird_y / SCALE
}

} // verus!
