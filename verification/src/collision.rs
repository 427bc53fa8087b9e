use vstd::prelude::*;
use crate::constants::{BIRD_SIZE, BIRD_X, GAME_HEIGHT, PIPE_GAP, PIPE_WIDTH};
use crate::state::Pipe;

verus! {

/// The bird, at pixel row `px`, touches the ceiling or the floor.
pub open spec fn hits_bounds(px: int) -> bool {
    px <= 0 || px + BIRD_SIZE >= GAME_HEIGHT
}

/// The bird's horizontal extent meets that of a pipe whose left edge is `x`.
pub open spec fn overlaps_pipe(x: int) -> bool {
    BIRD_X + BIRD_SIZE > x && BIRD_X < x + PIPE_WIDTH
}

/// The bird's vertical extent, from `px`, is not inside the gap centred at `gap_y`.
pub open spec fn outside_gap(px: int, gap_y: int) -> bool {
    px < gap_y - PIPE_GAP / 2 || px + BIRD_SIZE > gap_y + PIPE_GAP / 2
}

/// The bird at pixel row `px` collides with `pipe`.
pub open spec fn pipe_collides(px: int, pipe: Pipe) -> bool {
    pipe.active && overlaps_pipe(pipe.x as int) && outside_gap(px, pipe.gap_y as int)
}

/// Whether the bird at pixel row `bird_y` touches the ceiling or the floor.
pub fn check_bounds(bird_y: i32) -> (r: bool)
    ensures
        r == hits_bounds(bird_y as int),
{
    bird_y <= 0 || bird_y >= GAME_HEIGHT - BIRD_SIZE
}

/// Whether the bird at pixel row `bird_y` collides with `pipe`. A free slot
/// never collides.
pub fn check_pipe_collision(bird_y: i32, pipe: &Pipe) -> (r: bool)
    ensures
        r == pipe_collides(bird_y as int, *pipe),
{
    if !pipe.active {
        return false;
    }
    let x: i64 = pipe.x as i64;
    let y: i64 = bird_y as i64;
    let gap_y: i64 = pipe.gap_y as i64;
    if (BIRD_X + BIRD_SIZE) as i64 > x && (BIRD_X as i64) < x + PIPE_WIDTH as i64 {
        let gap_top: i64 = gap_y - (PIPE_GAP / 2) as i64;
        let gap_bottom: i64 = gap_y + (PIPE_GAP / 2) as i64;
        if y < gap_top || y + BIRD_SIZE as i64 > gap_bottom {
            return true;
        }
    }
    false
}

} // verus!
