use vstd::prelude::*;
use crate::auth::{authorized, check_auth, GameAction};
use crate::collision::{check_bounds, hits_bounds};
use crate::constants::{
    GAME_HEIGHT, GAME_WIDTH, JUMP_VELOCITY, MAX_PIPES, MAX_VELOCITY, PIPE_SPAWN_DISTANCE, SCALE,
};
use crate::laws::tick_keeps_play_on_field;
use crate::physics::{integrate, next_velocity, pixels, to_pixels};
use crate::pipes::{
    active_count, advance_pipes, first_hit, lemma_counts_bounded, lemma_first_hit, score_gain,
    slots_swept,
    spawn_pipes, spawn_result, swept,
};
use crate::state::{FlappyError, GameState, GameStatus, Pipe};

verus! {

/// The generator state taken from a clock reading: its 64 bits read as unsigned.
pub open spec fn clock_seed(now: i64) -> u64 {
    if now >= 0 {
        now as u64
    } else {
        (now + 0x1_0000_0000_0000_0000) as u64
    }
}

/// The larger of two scores.
pub open spec fn best_of(high_score: u64, score: u64) -> u64 {
    if score > high_score {
        score
    } else {
        high_score
    }
}

/// Position of the bird at the start of an episode: mid-height, fixed-point.
pub open spec fn start_y() -> int {
    GAME_HEIGHT / 2 * SCALE
}

/// `post` is `pre` with the episode fields cleared: no score, the bird at
/// rest in the middle, no tick counted, every slot free. Owner and best score
/// stay.
pub open spec fn episode_cleared(pre: GameState, post: GameState) -> bool {
    &&& post.authority == pre.authority
    &&& post.high_score == pre.high_score
    &&& post.score == 0
    &&& post.bird_y == start_y()
    &&& post.bird_velocity == 0
    &&& post.frame_count == 0
    &&& post.next_pipe_spawn_x == GAME_WIDTH
    &&& forall|i: int| 0 <= i < MAX_PIPES ==> #[trigger] post.pipes@[i] == Pipe::cleared()
}

/// `r` is the record of a new session for `authority`, made at time `now`.
pub open spec fn initialized(authority: [u8; 32], now: i64, r: GameState) -> bool {
    &&& r.authority == authority
    &&& r.score == 0
    &&& r.high_score == 0
    &&& r.game_status == GameStatus::NotStarted
    &&& r.bird_y == start_y()
    &&& r.bird_velocity == 0
    &&& r.frame_count == 0
    &&& r.last_update == now
    &&& r.next_pipe_spawn_x == GAME_WIDTH + PIPE_SPAWN_DISTANCE
    &&& r.seed == clock_seed(now)
    &&& forall|i: int| 0 <= i < MAX_PIPES ==> #[trigger] r.pipes@[i] == Pipe::cleared()
}

/// `post` is `pre` one tick later, at clock reading `now`.
///
/// Gravity moves the bird first. If it then touches ceiling or floor the
/// episode ends and nothing else happens. Otherwise the slots are visited in
/// order up to the first pipe that collides; a collision ends the episode
/// with the score as counted so far. Without one the spawn pass runs and the
/// clock reading is recorded.
pub open spec fn ticked(pre: GameState, now: i64, post: GameState) -> bool {
    let v = next_velocity(pre.bird_velocity as int);
    let y = pre.bird_y + v;
    let px = to_pixels(y);
    let n = slots_swept(px, pre.pipes@);
    let score = pre.score + score_gain(pre.pipes@, n);
    &&& post.authority == pre.authority
    &&& post.next_pipe_spawn_x == pre.next_pipe_spawn_x
    &&& post.frame_count == pre.frame_count + 1
    &&& post.bird_velocity == v
    &&& post.bird_y == y
    &&& if hits_bounds(px) {
        &&& post.game_status == GameStatus::GameOver
        &&& post.score == pre.score
        &&& post.high_score == best_of(pre.high_score, pre.score)
        &&& post.pipes == pre.pipes
        &&& post.seed == pre.seed
        &&& post.last_update == pre.last_update
    } else if first_hit(px, pre.pipes@, 0) < MAX_PIPES {
        &&& post.game_status == GameStatus::GameOver
        &&& post.score == score
        &&& post.high_score == best_of(pre.high_score, post.score)
        &&& post.pipes@ == swept(pre.pipes@, n)
        &&& post.seed == pre.seed
        &&& post.last_update == pre.last_update
    } else {
        &&& post.game_status == pre.game_status
        &&& post.score == score
        &&& post.high_score == pre.high_score
        &&& (post.pipes@, post.seed) == spawn_result(swept(pre.pipes@, n), pre.seed)
        &&& post.last_update == now
    }
}

/// The record as a flap leaves it just before its tick: in play, moving up
/// at the jump velocity. A session that had not started is stamped with `now`.
pub open spec fn flapped(pre: GameState, now: i64) -> GameState {
    GameState {
        game_status: GameStatus::Playing,
        bird_velocity: JUMP_VELOCITY,
        last_update: if pre.game_status == GameStatus::NotStarted {
            now
        } else {
            pre.last_update
        },
        ..pre
    }
}

/// What `start_game` does, for every caller and state.
pub open spec fn start_game_post(
    pre: GameState,
    action: GameAction,
    now: i64,
    post: GameState,
    r: Result<(), FlappyError>,
) -> bool {
    if !authorized(pre.authority@, action) {
        r == Err::<(), FlappyError>(FlappyError::InvalidAuth) && post == pre
    } else if pre.game_status == GameStatus::Playing {
        r == Err::<(), FlappyError>(FlappyError::GameAlreadyStarted) && post == pre
    } else {
        &&& r == Ok::<(), FlappyError>(())
        &&& episode_cleared(pre, post)
        &&& post.game_status == GameStatus::Playing
        &&& post.last_update == now
        &&& post.seed == clock_seed(now)
    }
}

/// What `flap` does, for every caller and state.
pub open spec fn flap_post(
    pre: GameState,
    action: GameAction,
    now: i64,
    post: GameState,
    r: Result<(), FlappyError>,
) -> bool {
    if !authorized(pre.authority@, action) {
        r == Err::<(), FlappyError>(FlappyError::InvalidAuth) && post == pre
    } else if pre.game_status == GameStatus::GameOver {
        r == Err::<(), FlappyError>(FlappyError::GameNotPlaying) && post == pre
    } else {
        r == Ok::<(), FlappyError>(()) && ticked(flapped(pre, now), now, post)
    }
}

/// What `tick` does, for every caller and state.
pub open spec fn tick_post(
    pre: GameState,
    action: GameAction,
    now: i64,
    post: GameState,
    r: Result<(), FlappyError>,
) -> bool {
    if !authorized(pre.authority@, action) {
        r == Err::<(), FlappyError>(FlappyError::InvalidAuth) && post == pre
    } else if pre.game_status != GameStatus::Playing {
        r == Err::<(), FlappyError>(FlappyError::GameNotPlaying) && post == pre
    } else {
        r == Ok::<(), FlappyError>(()) && ticked(pre, now, post)
    }
}

/// What `end_game` does, for every caller and state.
pub open spec fn end_game_post(
    pre: GameState,
    action: GameAction,
    post: GameState,
    r: Result<(), FlappyError>,
) -> bool {
    if !authorized(pre.authority@, action) {
        r == Err::<(), FlappyError>(FlappyError::InvalidAuth) && post == pre
    } else {
        &&& r == Ok::<(), FlappyError>(())
        &&& post == (GameState {
            game_status: GameStatus::GameOver,
            high_score: best_of(pre.high_score, pre.score),
            ..pre
        })
    }
}

/// What `reset_game` does, for every caller and state.
pub open spec fn reset_game_post(
    pre: GameState,
    action: GameAction,
    post: GameState,
    r: Result<(), FlappyError>,
) -> bool {
    if !authorized(pre.authority@, action) {
        r == Err::<(), FlappyError>(FlappyError::InvalidAuth) && post == pre
    } else {
        &&& r == Ok::<(), FlappyError>(())
        &&& episode_cleared(pre, post)
        &&& post.game_status == GameStatus::NotStarted
        &&& post.last_update == pre.last_update
        &&& post.seed == pre.seed
    }
}

/// Reads the 64 bits of a clock reading as an unsigned generator state.
pub fn seed_from_clock(now: i64) -> (r: u64)
    ensures
        r == clock_seed(now),
{
    if now >= 0 {
        now as u64
    } else {
        let low: u64 = (now - i64::MIN) as u64;
        low + 0x8000_0000_0000_0000u64
    }
}

/// Five free slots, as at the start of an episode.
pub fn cleared_pipes() -> (r: [Pipe; 5])
    ensures
        forall|i: int| 0 <= i < MAX_PIPES ==> #[trigger] r@[i] == Pipe::cleared(),
{
    let p = Pipe { x: -100, gap_y: GAME_HEIGHT / 2, passed: false, active: false };
    [p, p, p, p, p]
}

/// Records the end of an episode: the status, and the best score so far.
fn finish_episode(game: &mut GameState)
    ensures
        *final(game) == (GameState {
            game_status: GameStatus::GameOver,
            high_score: best_of(old(game).high_score, old(game).score),
            ..*old(game)
        }),
{
    game.game_status = GameStatus::GameOver;
    if game.score > game.high_score {
        game.high_score = game.score;
    }
}

/// Clears the episode fields, as both a start and a reset do.
fn clear_episode(game: &mut GameState)
    ensures
        episode_cleared(*old(game), *final(game)),
        final(game).game_status == old(game).game_status,
        final(game).last_update == old(game).last_update,
        final(game).seed == old(game).seed,
{
    game.score = 0;
    game.bird_y = GAME_HEIGHT / 2 * SCALE;
    game.bird_velocity = 0;
    game.frame_count = 0;
    game.pipes = cleared_pipes();
    game.next_pipe_spawn_x = GAME_WIDTH;
}

/// Makes the record of a new session for `authority` at clock reading `now`:
/// not started, the bird at rest in the middle, every slot free, no score and
/// no best score, the generator seeded from the clock.
pub fn initialize(authority: [u8; 32], now: i64) -> (r: GameState)
    ensures
        initialized(authority, now, r),
        r.wf(),
        r.on_field(),
        r.has_headroom(),
{
    GameState {
        authority,
        score: 0,
        high_score: 0,
        game_status: GameStatus::NotStarted,
        bird_y: GAME_HEIGHT / 2 * SCALE,
        bird_velocity: 0,
        frame_count: 0,
        last_update: now,
        pipes: cleared_pipes(),
        next_pipe_spawn_x: GAME_WIDTH + PIPE_SPAWN_DISTANCE,
        seed: seed_from_clock(now),
    }
}

/// Advances a session in play by one tick: gravity, then the ceiling and
/// floor, then the pipes, then the spawn pass.
pub fn update_game_physics(game: &mut GameState, now: i64)
    requires
        old(game).wf(),
        old(game).has_headroom(),
        old(game).game_status != GameStatus::GameOver,
    ensures
        ticked(*old(game), now, *final(game)),
        final(game).wf(),
        old(game).on_field() ==> final(game).on_field(),
        -MAX_VELOCITY <= final(game).bird_velocity <= MAX_VELOCITY,
        final(game).score <= old(game).score + MAX_PIPES,
        active_count(final(game).pipes@, MAX_PIPES as int) <= MAX_PIPES,
{
    proof {
        lemma_counts_bounded(old(game).pipes@, MAX_PIPES as int);
    }
    game.frame_count = game.frame_count + 1;
    let (v, y) = integrate(game.bird_y, game.bird_velocity);
    game.bird_velocity = v;
    game.bird_y = y;

    let bird_y_pixels: i32 = pixels(game.bird_y);
    if check_bounds(bird_y_pixels) {
        finish_episode(game);
        proof {
            if old(game).on_field() {
                tick_keeps_play_on_field(*old(game), now, *game);
            }
        }
        return ;
    }
    let hit = advance_pipes(game, bird_y_pixels);
    proof {
        lemma_counts_bounded(game.pipes@, MAX_PIPES as int);
        lemma_first_hit(bird_y_pixels as int, old(game).pipes@, 0);
        lemma_counts_bounded(
            old(game).pipes@,
            slots_swept(bird_y_pixels as int, old(game).pipes@),
        );
    }
    if hit {
        finish_episode(game);
        proof {
            if old(game).on_field() {
                tick_keeps_play_on_field(*old(game), now, *game);
            }
        }
        return ;
    }
    spawn_pipes(game);
    game.last_update = now;
    proof {
        lemma_counts_bounded(game.pipes@, MAX_PIPES as int);
        if old(game).on_field() {
            tick_keeps_play_on_field(*old(game), now, *game);
        }
    }
}

/// Begins an episode at clock reading `now`.
///
/// Refused with `InvalidAuth` for a caller who may not act on the record and
/// with `GameAlreadyStarted` while the session is in play; the record is then
/// untouched. Otherwise the episode fields are cleared, the generator is
/// seeded from the clock and the session is in play. The best score stays.
pub fn start_game(game: &mut GameState, action: &GameAction, now: i64) -> (r: Result<
    (),
    FlappyError,
>)
    ensures
        start_game_post(*old(game), *action, now, *final(game), r),
        r.is_ok() ==> final(game).wf() && final(game).on_field() && final(game).has_headroom(),
{
    if check_auth(game, action).is_err() {
        return Err(FlappyError::InvalidAuth);
    }
    if game.game_status == GameStatus::Playing {
        return Err(FlappyError::GameAlreadyStarted);
    }
    clear_episode(game);
    game.game_status = GameStatus::Playing;
    game.last_update = now;
    game.seed = seed_from_clock(now);
    Ok(())
}

/// A flap at clock reading `now`: the bird jumps, and one tick runs.
///
/// Refused with `InvalidAuth` for a caller who may not act on the record and
/// with `GameNotPlaying` once the episode is over; the record is then
/// untouched. A session that had not started is put in play first.
pub fn flap(game: &mut GameState, action: &GameAction, now: i64) -> (r: Result<(), FlappyError>)
    requires
        old(game).game_status != GameStatus::GameOver ==> old(game).wf(),
        old(game).game_status != GameStatus::GameOver ==> old(game).has_headroom(),
    ensures
        flap_post(*old(game), *action, now, *final(game), r),
        old(game).wf() ==> final(game).wf(),
        old(game).on_field() ==> final(game).on_field(),
        final(game).frame_count <= old(game).frame_count + 1,
        final(game).score <= old(game).score + MAX_PIPES,
        active_count(final(game).pipes@, MAX_PIPES as int) <= MAX_PIPES,
{
    proof {
        lemma_counts_bounded(game.pipes@, MAX_PIPES as int);
    }
    if check_auth(game, action).is_err() {
        return Err(FlappyError::InvalidAuth);
    }
    if game.game_status == GameStatus::GameOver {
        return Err(FlappyError::GameNotPlaying);
    }
    if game.game_status == GameStatus::NotStarted {
        game.game_status = GameStatus::Playing;
        game.last_update = now;
    }
    game.bird_velocity = JUMP_VELOCITY;
    update_game_physics(game, now);
    Ok(())
}

/// One tick at clock reading `now`.
///
/// Refused with `InvalidAuth` for a caller who may not act on the record and
/// with `GameNotPlaying` unless the session is in play; the record is then
/// untouched.
pub fn tick(game: &mut GameState, action: &GameAction, now: i64) -> (r: Result<(), FlappyError>)
    requires
        old(game).game_status == GameStatus::Playing ==> old(game).wf(),
        old(game).game_status == GameStatus::Playing ==> old(game).has_headroom(),
    ensures
        tick_post(*old(game), *action, now, *final(game), r),
        old(game).wf() ==> final(game).wf(),
        old(game).on_field() ==> final(game).on_field(),
        final(game).frame_count <= old(game).frame_count + 1,
        final(game).score <= old(game).score + MAX_PIPES,
        active_count(final(game).pipes@, MAX_PIPES as int) <= MAX_PIPES,
{
    proof {
        lemma_counts_bounded(game.pipes@, MAX_PIPES as int);
    }
    if check_auth(game, action).is_err() {
        return Err(FlappyError::InvalidAuth);
    }
    if game.game_status != GameStatus::Playing {
        return Err(FlappyError::GameNotPlaying);
    }
    update_game_physics(game, now);
    Ok(())
}

/// Ends the episode, whatever the status, and records the best score.
///
/// Refused with `InvalidAuth` for a caller who may not act on the record; the
/// record is then untouched.
pub fn end_game(game: &mut GameState, action: &GameAction) -> (r: Result<(), FlappyError>)
    ensures
        end_game_post(*old(game), *action, *final(game), r),
        old(game).wf() ==> final(game).wf(),
        old(game).on_field() ==> final(game).on_field(),
{
    if check_auth(game, action).is_err() {
        return Err(FlappyError::InvalidAuth);
    }
    finish_episode(game);
    Ok(())
}

/// Returns the session to its state before an episode: not started, episode
/// fields cleared. The best score, the generator state and the time stamp stay.
///
/// Refused with `InvalidAuth` for a caller who may not act on the record; the
/// record is then untouched.
pub fn reset_game(game: &mut GameState, action: &GameAction) -> (r: Result<(), FlappyError>)
    ensures
        reset_game_post(*old(game), *action, *final(game), r),
        r.is_ok() ==> final(game).wf() && final(game).on_field() && final(game).has_headroom(),
{
    if check_auth(game, action).is_err() {
        return Err(FlappyError::InvalidAuth);
    }
    clear_episode(game);
    game.game_status = GameStatus::NotStarted;
    Ok(())
}

} // verus!
