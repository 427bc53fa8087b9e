use vstd::prelude::*;
use crate::auth::GameAction;
use crate::collision::hits_bounds;
use crate::constants::{GAME_WIDTH, MAX_PIPES, MAX_VELOCITY, PIPE_SPAWN_DISTANCE};
use crate::game::{
    best_of, clock_seed, end_game_post, flap_post, reset_game_post, start_game_post, tick_post,
    ticked,
};
use crate::physics::to_pixels;
use crate::pipes::{
    active_count, first_free, first_hit, gap_for_seed, lcg_next, lemma_counts_bounded,
    lemma_first_free, lemma_first_hit, lemma_rightmost_is_max, pipe_scores, score_gain,
    seed_after, slots_swept, spawn_due, spawn_result, spawns, step_pipe, swept,
};
use crate::state::{FlappyError, GameState, GameStatus, Pipe};

verus! {

/// After a tick the velocity is within the clamp, whatever it was before.
pub proof fn velocity_clamped_after_tick(pre: GameState, now: i64, post: GameState)
    requires
        ticked(pre, now, post),
    ensures
        -MAX_VELOCITY <= post.bird_velocity <= MAX_VELOCITY,
{
}

/// Along any run of ticks the velocity is within the clamp after each of them.
pub proof fn velocity_clamped_along_ticks(states: Seq<GameState>, clock: Seq<i64>)
    requires
        states.len() == clock.len() + 1,
        forall|i: int|
            0 <= i < clock.len() ==> ticked(#[trigger] states[i], clock[i], states[i + 1]),
    ensures
        forall|i: int|
            1 <= i < states.len() ==> -MAX_VELOCITY <= (#[trigger] states[i]).bird_velocity
                <= MAX_VELOCITY,
{
    assert forall|i: int| 1 <= i < states.len() implies -MAX_VELOCITY <= (
    #[trigger] states[i]).bird_velocity <= MAX_VELOCITY by {
        assert(ticked(states[i - 1], clock[i - 1], states[i]));
    }
}

/// A tick takes a valid record in play to a valid record. With the contracts
/// of the operations this makes validity, and with it the velocity clamp, hold
/// after every sequence of operations on a new record.
pub proof fn tick_keeps_validity(pre: GameState, now: i64, post: GameState)
    requires
        pre.wf(),
        pre.game_status != GameStatus::GameOver,
        ticked(pre, now, post),
    ensures
        post.wf(),
{
    let v = post.bird_velocity as int;
    let px = to_pixels(post.bird_y as int);
    let n = slots_swept(px, pre.pipes@);
    let moved = swept(pre.pipes@, n);
    lemma_first_hit(px, pre.pipes@, 0);
    assert forall|i: int| 0 <= i < MAX_PIPES implies (#[trigger] moved[i]).wf() by {
        assert(pre.pipes@[i].wf());
    }
    if !hits_bounds(px) {
        assert(GameState::y_low() <= post.bird_y <= GameState::y_high());
        if first_hit(px, pre.pipes@, 0) >= MAX_PIPES {
            lemma_first_free(moved, 0);
            assert forall|i: int| 0 <= i < MAX_PIPES implies (#[trigger] post.pipes@[i]).wf() by {
                assert(moved[i].wf());
            }
        }
    }
}

/// A tick keeps play on the field: if every live pipe was on the field, then
/// afterwards every live pipe is, and unless the episode has ended the bird is
/// strictly between ceiling and floor.
pub proof fn tick_keeps_play_on_field(pre: GameState, now: i64, post: GameState)
    requires
        forall|i: int| 0 <= i < MAX_PIPES ==> (#[trigger] pre.pipes@[i]).on_field(),
        ticked(pre, now, post),
    ensures
        post.on_field(),
{
    let px = to_pixels(post.bird_y as int);
    let n = slots_swept(px, pre.pipes@);
    let moved = swept(pre.pipes@, n);
    lemma_first_hit(px, pre.pipes@, 0);
    assert forall|i: int| 0 <= i < MAX_PIPES implies (#[trigger] moved[i]).on_field() by {
        assert(pre.pipes@[i].on_field());
    }
    if !hits_bounds(px) {
        assert(GameState::y_low() <= post.bird_y <= GameState::y_high());
        if first_hit(px, pre.pipes@, 0) >= MAX_PIPES {
            lemma_first_free(moved, 0);
            assert forall|i: int| 0 <= i < MAX_PIPES implies (
            #[trigger] post.pipes@[i]).on_field() by {
                assert(moved[i].on_field());
            }
        }
    }
}

/// A tick that takes the bird to the ceiling or the floor ends the episode.
pub proof fn bounds_end_the_episode(pre: GameState, now: i64, post: GameState)
    requires
        ticked(pre, now, post),
        hits_bounds(to_pixels(post.bird_y as int)),
    ensures
        post.game_status == GameStatus::GameOver,
        post.high_score == best_of(pre.high_score, pre.score),
        post.high_score >= post.score,
{
}

/// A tick leaves a session in play or ends the episode; it ends it exactly
/// when the bird touches ceiling or floor or a pipe collides.
pub proof fn tick_ends_only_on_collision(pre: GameState, now: i64, post: GameState)
    requires
        pre.game_status == GameStatus::Playing,
        ticked(pre, now, post),
    ensures
        post.game_status == GameStatus::Playing || post.game_status == GameStatus::GameOver,
        post.game_status == GameStatus::GameOver <==> (hits_bounds(to_pixels(post.bird_y as int))
            || first_hit(to_pixels(post.bird_y as int), pre.pipes@, 0) < MAX_PIPES),
        post.game_status == GameStatus::GameOver ==> post.high_score >= post.score,
{
}

/// Once the episode is over, neither a tick nor a flap changes the record:
/// both are refused. Only a start or a reset leaves that status.
pub proof fn game_over_refuses_ticks(
    pre: GameState,
    action: GameAction,
    now: i64,
    post: GameState,
    r: Result<(), FlappyError>,
)
    requires
        pre.game_status == GameStatus::GameOver,
        tick_post(pre, action, now, post, r) || flap_post(pre, action, now, post, r),
    ensures
        r.is_err(),
        post == pre,
{
}

/// A pipe is counted on the tick on which it is first marked passed, and on
/// no other: a pipe already passed stays passed while it is live and does not
/// count again, and a free slot never counts.
pub proof fn pipe_counts_once(p: Pipe)
    ensures
        pipe_scores(p) <==> (p.active && !p.passed && step_pipe(p).passed),
        p.passed ==> step_pipe(p).passed && !pipe_scores(p),
        pipe_scores(p) ==> !pipe_scores(step_pipe(p)),
{
}

/// Over a tick the score grows by the number of slots visited whose pipe is
/// first marked passed on that tick, one for each.
pub proof fn score_counts_first_passes(pre: GameState, now: i64, post: GameState)
    requires
        ticked(pre, now, post),
    ensures
        post.score >= pre.score,
        !hits_bounds(to_pixels(post.bird_y as int)) ==> post.score - pre.score == score_gain(
            pre.pipes@,
            slots_swept(to_pixels(post.bird_y as int), pre.pipes@),
        ),
        hits_bounds(to_pixels(post.bird_y as int)) ==> post.score == pre.score,
        post.score - pre.score <= MAX_PIPES,
{
    let px = to_pixels(post.bird_y as int);
    lemma_first_hit(px, pre.pipes@, 0);
    lemma_counts_bounded(pre.pipes@, slots_swept(px, pre.pipes@));
}

/// No record holds more than five live pipes.
pub proof fn at_most_five_active(game: GameState)
    ensures
        0 <= active_count(game.pipes@, MAX_PIPES as int) <= MAX_PIPES,
{
    lemma_counts_bounded(game.pipes@, MAX_PIPES as int);
}

/// The generator is a function of its state alone: two spawns from the same
/// state, on whatever slots, put a pipe with the same gap into the lowest
/// free slot and leave the same next state.
pub proof fn generator_is_deterministic(a: Seq<Pipe>, b: Seq<Pipe>, seed: u64)
    requires
        spawns(a),
        spawns(b),
    ensures
        spawn_result(a, seed).1 == lcg_next(seed),
        spawn_result(b, seed).1 == spawn_result(a, seed).1,
        spawn_result(a, seed).0[first_free(a, 0)].gap_y == gap_for_seed(lcg_next(seed)),
        spawn_result(b, seed).0[first_free(b, 0)].gap_y == spawn_result(a, seed).0[first_free(
            a,
            0,
        )].gap_y,
        Pipe::gap_low() <= gap_for_seed(lcg_next(seed)) <= Pipe::gap_high(),
{
    lemma_first_free(a, 0);
    lemma_first_free(b, 0);
}

/// A run of spawns from one starting state of the generator yields one
/// sequence of gaps, whatever the slots look like: the spawn numbered `k`
/// (from 0) draws its gap from the state `k + 1` steps after the start.
pub proof fn gap_sequence_is_fixed_by_seed(slots: Seq<Seq<Pipe>>, seeds: Seq<u64>, k: int)
    requires
        seeds.len() == slots.len() + 1,
        forall|i: int|
            0 <= i < slots.len() ==> spawns(#[trigger] slots[i]) && seeds[i + 1] == spawn_result(
                slots[i],
                seeds[i],
            ).1,
        0 <= k < slots.len(),
    ensures
        seeds[k + 1] == seed_after(seeds[0], (k + 1) as nat),
        spawn_result(slots[k], seeds[k]).0[first_free(slots[k], 0)].gap_y == gap_for_seed(
            seed_after(seeds[0], (k + 1) as nat),
        ),
    decreases k,
{
    assert(spawns(slots[k]) && seeds[k + 1] == spawn_result(slots[k], seeds[k]).1);
    generator_is_deterministic(slots[k], slots[k], seeds[k]);
    if k > 0 {
        gap_sequence_is_fixed_by_seed(slots, seeds, k - 1);
    }
    assert(seeds[k] == seed_after(seeds[0], k as nat));
    assert(seeds[k + 1] == lcg_next(seeds[k]));
}

/// There is room for a new pipe exactly when every live pipe has its left
/// edge more than the spawn distance away from the right edge of the field.
pub proof fn spawn_due_means_room(pipes: Seq<Pipe>)
    ensures
        spawn_due(pipes) <==> forall|i: int|
            0 <= i < pipes.len() && (#[trigger] pipes[i]).active ==> pipes[i].x < GAME_WIDTH
                - PIPE_SPAWN_DISTANCE,
{
    lemma_rightmost_is_max(pipes, pipes.len() as int);
}

/// The spawn pass touches at most one slot, the lowest free one, and never
/// raises the number of live pipes above the number of slots.
pub proof fn spawn_touches_one_slot(pipes: Seq<Pipe>, seed: u64)
    ensures
        spawn_result(pipes, seed).0.len() == pipes.len(),
        forall|i: int|
            0 <= i < pipes.len() && i != first_free(pipes, 0) ==> spawn_result(pipes, seed).0[i]
                == pipes[i],
        !spawns(pipes) ==> spawn_result(pipes, seed) == (pipes, seed),
{
    lemma_first_free(pipes, 0);
}

/// No operation lowers the best score, and whenever an operation ends the
/// episode the best score is at least the score.
pub proof fn best_score_never_drops(
    pre: GameState,
    action: GameAction,
    now: i64,
    post: GameState,
    r: Result<(), FlappyError>,
)
    requires
        start_game_post(pre, action, now, post, r) || flap_post(pre, action, now, post, r)
            || tick_post(pre, action, now, post, r) || end_game_post(pre, action, post, r)
            || reset_game_post(pre, action, post, r),
    ensures
        post.high_score >= pre.high_score,
        (end_game_post(pre, action, post, r) && r.is_ok()) ==> post.high_score >= post.score,
        ((flap_post(pre, action, now, post, r) || tick_post(pre, action, now, post, r)) && r.is_ok()
            && post.game_status == GameStatus::GameOver) ==> post.high_score >= post.score,
{
}

/// The status moves only along these lines: a start puts a session in play,
/// a tick or a flap leaves it in play or ends the episode, an end ends it,
/// and a reset returns it to not started. A refused operation changes nothing.
pub proof fn status_moves_forward(
    pre: GameState,
    action: GameAction,
    now: i64,
    post: GameState,
    r: Result<(), FlappyError>,
)
    ensures
        start_game_post(pre, action, now, post, r) && r.is_ok() ==> pre.game_status
            != GameStatus::Playing && post.game_status == GameStatus::Playing,
        tick_post(pre, action, now, post, r) && r.is_ok() ==> pre.game_status
            == GameStatus::Playing && post.game_status != GameStatus::NotStarted,
        flap_post(pre, action, now, post, r) && r.is_ok() ==> pre.game_status
            != GameStatus::GameOver && post.game_status != GameStatus::NotStarted,
        end_game_post(pre, action, post, r) && r.is_ok() ==> post.game_status
            == GameStatus::GameOver,
        reset_game_post(pre, action, post, r) && r.is_ok() ==> post.game_status
            == GameStatus::NotStarted,
        (start_game_post(pre, action, now, post, r) || flap_post(pre, action, now, post, r)
            || tick_post(pre, action, now, post, r) || end_game_post(pre, action, post, r)
            || reset_game_post(pre, action, post, r)) && r.is_err() ==> post == pre,
{
}

/// A reset keeps the best score and the generator state, whether it is
/// carried out or refused.
pub proof fn reset_keeps_best_score_and_seed(
    pre: GameState,
    action: GameAction,
    post: GameState,
    r: Result<(), FlappyError>,
)
    requires
        reset_game_post(pre, action, post, r),
    ensures
        post.high_score == pre.high_score,
        post.seed == pre.seed,
{
}

/// A start keeps the best score too, and where it is carried out it seeds the
/// generator from the clock reading.
pub proof fn start_keeps_best_score_and_reseeds(
    pre: GameState,
    action: GameAction,
    now: i64,
    post: GameState,
    r: Result<(), FlappyError>,
)
    requires
        start_game_post(pre, action, now, post, r),
    ensures
        post.high_score == pre.high_score,
        r.is_ok() ==> post.seed == clock_seed(now),
        r.is_err() ==> post.seed == pre.seed,
{
}

} // verus!
