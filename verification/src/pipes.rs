use vstd::prelude::*;
use crate::collision::{check_pipe_collision, pipe_collides};
use crate::constants::{
    BIRD_X, GAME_HEIGHT, GAME_WIDTH, GAP_RANGE, LCG_INCREMENT, LCG_MULTIPLIER, MAX_PIPES,
    PIPE_GAP, PIPE_HEIGHT_MIN, PIPE_SPAWN_DISTANCE, PIPE_SPEED, PIPE_WIDTH,
};
use crate::state::{GameState, Pipe};

verus! {

/// A slot after one tick: a live pipe moves left, is marked passed once its
/// right edge is behind the bird, and is freed once it has left the field.
/// A free slot stays as it is.
pub open spec fn step_pipe(p: Pipe) -> Pipe {
    if p.active {
        let x = p.x - PIPE_SPEED;
        Pipe {
            x: x as i32,
            gap_y: p.gap_y,
            passed: p.passed || x + PIPE_WIDTH < BIRD_X,
            active: x + PIPE_WIDTH >= 0,
        }
    } else {
        p
    }
}

/// This tick is the one on which the pipe in the slot is cleared.
pub open spec fn pipe_scores(p: Pipe) -> bool {
    p.active && !p.passed && p.x - PIPE_SPEED + PIPE_WIDTH < BIRD_X
}

/// The lowest slot at or after `from` whose pipe, once moved, collides with
/// the bird at pixel row `px`; the number of slots if there is none.
pub open spec fn first_hit(px: int, pipes: Seq<Pipe>, from: int) -> int
    decreases pipes.len() - from,
{
    if from < 0 || from >= pipes.len() {
        pipes.len() as int
    } else if pipe_collides(px, step_pipe(pipes[from])) {
        from
    } else {
        first_hit(px, pipes, from + 1)
    }
}

/// How many slots a tick visits: all of them, or those up to and including
/// the first that collides.
pub open spec fn slots_swept(px: int, pipes: Seq<Pipe>) -> int {
    let h = first_hit(px, pipes, 0);
    if h < pipes.len() {
        h + 1
    } else {
        pipes.len() as int
    }
}

/// The slots after the first `n` of them have been visited.
pub open spec fn swept(pipes: Seq<Pipe>, n: int) -> Seq<Pipe> {
    Seq::new(
        pipes.len(),
        |i: int|
            if i < n {
                step_pipe(pipes[i])
            } else {
                pipes[i]
            },
    )
}

/// How many of the first `n` slots hold a pipe that is cleared this tick.
pub open spec fn score_gain(pipes: Seq<Pipe>, n: int) -> int
    decreases n,
{
    if n <= 0 {
        0
    } else {
        score_gain(pipes, n - 1) + if pipe_scores(pipes[n - 1]) {
            1int
        } else {
            0int
        }
    }
}

/// How many of the first `n` slots hold a live pipe.
pub open spec fn active_count(pipes: Seq<Pipe>, n: int) -> int
    decreases n,
{
    if n <= 0 {
        0
    } else {
        active_count(pipes, n - 1) + if pipes[n - 1].active {
            1int
        } else {
            0int
        }
    }
}

/// The largest left edge among the live pipes in the first `n` slots, and 0
/// where none is live or none lies right of the origin.
pub open spec fn rightmost_upto(pipes: Seq<Pipe>, n: int) -> int
    decreases n,
{
    if n <= 0 {
        0
    } else {
        let r = rightmost_upto(pipes, n - 1);
        if pipes[n - 1].active && pipes[n - 1].x > r {
            pipes[n - 1].x as int
        } else {
            r
        }
    }
}

/// The largest left edge among the live pipes, floored at 0.
pub open spec fn rightmost(pipes: Seq<Pipe>) -> int {
    rightmost_upto(pipes, pipes.len() as int)
}

/// There is room for a new pipe at the right edge of the field.
pub open spec fn spawn_due(pipes: Seq<Pipe>) -> bool {
    rightmost(pipes) < GAME_WIDTH - PIPE_SPAWN_DISTANCE || rightmost(pipes) == 0
}

/// The lowest free slot at or after `from`; the number of slots if all are live.
pub open spec fn first_free(pipes: Seq<Pipe>, from: int) -> int
    decreases pipes.len() - from,
{
    if from < 0 || from >= pipes.len() {
        pipes.len() as int
    } else if !pipes[from].active {
        from
    } else {
        first_free(pipes, from + 1)
    }
}

/// One step of the linear congruential generator, in 64-bit wraparound
/// arithmetic.
pub open spec fn lcg_next(seed: u64) -> u64 {
    ((seed as int * LCG_MULTIPLIER as int + LCG_INCREMENT as int) % 0x1_0000_0000_0000_0000) as u64
}

/// The generator state `n` steps after `seed`.
pub open spec fn seed_after(seed: u64, n: nat) -> u64
    decreases n,
{
    if n == 0 {
        seed
    } else {
        lcg_next(seed_after(seed, (n - 1) as nat))
    }
}

/// The gap centre drawn from a generator state.
pub open spec fn gap_for_seed(seed: u64) -> int {
    let g = Pipe::gap_low() + (seed as int / 65536) % (GAP_RANGE as int);
    if g < Pipe::gap_high() {
        g
    } else {
        Pipe::gap_high()
    }
}

/// The pipe that a spawn puts on the field from generator state `seed`.
pub open spec fn spawned_pipe(seed: u64) -> Pipe {
    Pipe { x: GAME_WIDTH, gap_y: gap_for_seed(seed) as i32, passed: false, active: true }
}

/// A spawn takes place: there is room and a slot is free.
pub open spec fn spawns(pipes: Seq<Pipe>) -> bool {
    spawn_due(pipes) && first_free(pipes, 0) < pipes.len()
}

/// The slots and the generator state after the spawn pass.
pub open spec fn spawn_result(pipes: Seq<Pipe>, seed: u64) -> (Seq<Pipe>, u64) {
    if spawns(pipes) {
        (pipes.update(first_free(pipes, 0), spawned_pipe(lcg_next(seed))), lcg_next(seed))
    } else {
        (pipes, seed)
    }
}

/// `rightmost_upto` is a maximum: no live pipe among the first `n` lies to its
/// right, it is never negative, and unless it is 0 some live pipe sits there.
pub proof fn lemma_rightmost_is_max(pipes: Seq<Pipe>, n: int)
    requires
        0 <= n <= pipes.len(),
    ensures
        rightmost_upto(pipes, n) >= 0,
        forall|i: int| 0 <= i < n && pipes[i].active ==> pipes[i].x <= rightmost_upto(pipes, n),
        rightmost_upto(pipes, n) == 0 || exists|i: int|
            0 <= i < n && pipes[i].active && pipes[i].x == rightmost_upto(pipes, n),
    decreases n,
{
    if n > 0 {
        lemma_rightmost_is_max(pipes, n - 1);
        let r = rightmost_upto(pipes, n - 1);
        if pipes[n - 1].active && pipes[n - 1].x > r {
            assert(pipes[n - 1].active && pipes[n - 1].x == rightmost_upto(pipes, n));
        } else if r != 0 {
            let i = choose|i: int| 0 <= i < n - 1 && pipes[i].active && pipes[i].x == r;
            assert(0 <= i < n && pipes[i].active && pipes[i].x == rightmost_upto(pipes, n));
        }
    }
}

/// `first_hit` names the lowest colliding slot at or after `from`.
pub proof fn lemma_first_hit(px: int, pipes: Seq<Pipe>, from: int)
    requires
        0 <= from <= pipes.len(),
    ensures
        from <= first_hit(px, pipes, from) <= pipes.len(),
        forall|j: int|
            from <= j < first_hit(px, pipes, from) ==> !pipe_collides(
                px,
                step_pipe(#[trigger] pipes[j]),
            ),
        first_hit(px, pipes, from) < pipes.len() ==> pipe_collides(
            px,
            step_pipe(pipes[first_hit(px, pipes, from)]),
        ),
    decreases pipes.len() - from,
{
    if from < pipes.len() && !pipe_collides(px, step_pipe(pipes[from])) {
        lemma_first_hit(px, pipes, from + 1);
    }
}

/// `first_free` names the lowest free slot at or after `from`.
pub proof fn lemma_first_free(pipes: Seq<Pipe>, from: int)
    requires
        0 <= from <= pipes.len(),
    ensures
        from <= first_free(pipes, from) <= pipes.len(),
        forall|j: int| from <= j < first_free(pipes, from) ==> (#[trigger] pipes[j]).active,
        first_free(pipes, from) < pipes.len() ==> !pipes[first_free(pipes, from)].active,
    decreases pipes.len() - from,
{
    if from < pipes.len() && pipes[from].active {
        lemma_first_free(pipes, from + 1);
    }
}

/// Neither count can exceed the number of slots counted.
pub proof fn lemma_counts_bounded(pipes: Seq<Pipe>, n: int)
    requires
        0 <= n,
    ensures
        0 <= score_gain(pipes, n) <= n,
        0 <= active_count(pipes, n) <= n,
    decreases n,
{
    if n > 0 {
        lemma_counts_bounded(pipes, n - 1);
    }
}

/// Moves one slot by a tick. Returns the slot afterwards and whether its pipe
/// was cleared on this tick.
pub fn advance_pipe(pipe: Pipe) -> (r: (Pipe, bool))
    requires
        pipe.wf(),
    ensures
        r.0 == step_pipe(pipe),
        r.1 == pipe_scores(pipe),
        r.0.wf(),
        pipe.on_field() ==> r.0.on_field(),
{
    if !pipe.active {
        return (pipe, false);
    }
    let mut p = pipe;
    let mut scored = false;
    p.x = p.x - PIPE_SPEED;
    if !p.passed && p.x < BIRD_X - PIPE_WIDTH {
        p.passed = true;
        scored = true;
    }
    if p.x < -PIPE_WIDTH {
        p.active = false;
    }
    (p, scored)
}

/// The largest left edge among the live pipes, floored at 0.
pub fn rightmost_x(pipes: &[Pipe; 5]) -> (r: i32)
    ensures
        r == rightmost(pipes@),
        r >= 0,
        forall|i: int| 0 <= i < MAX_PIPES && pipes@[i].active ==> pipes@[i].x <= r,
        r == 0 || exists|i: int| 0 <= i < MAX_PIPES && pipes@[i].active && pipes@[i].x == r,
{
    let mut r: i32 = 0;
    let mut i: usize = 0;
    while i < MAX_PIPES
        invariant
            i <= MAX_PIPES,
            r == rightmost_upto(pipes@, i as int),
        decreases MAX_PIPES - i,
    {
        if pipes[i].active && pipes[i].x > r {
            r = pipes[i].x;
        }
        i += 1;
    }
    proof {
        lemma_rightmost_is_max(pipes@, MAX_PIPES as int);
    }
    r
}

/// The lowest free slot, if any.
pub fn first_free_slot(pipes: &[Pipe; 5]) -> (r: Option<usize>)
    ensures
        match r {
            Some(i) => i < MAX_PIPES && i == first_free(pipes@, 0) && !pipes@[i as int].active,
            None => first_free(pipes@, 0) == MAX_PIPES,
        },
        forall|j: int| 0 <= j < first_free(pipes@, 0) ==> (#[trigger] pipes@[j]).active,
{
    let mut i: usize = 0;
    while i < MAX_PIPES
        invariant
            i <= MAX_PIPES,
            first_free(pipes@, 0) == first_free(pipes@, i as int),
        decreases MAX_PIPES - i,
    {
        if !pipes[i].active {
            proof {
                lemma_first_free(pipes@, 0);
            }
            return Some(i);
        }
        i += 1;
    }
    proof {
        lemma_first_free(pipes@, 0);
    }
    None
}

/// Advances the generator by one step.
pub fn next_seed(seed: u64) -> (r: u64)
    ensures
        r == lcg_next(seed),
{
    let r = seed.wrapping_mul(LCG_MULTIPLIER).wrapping_add(LCG_INCREMENT);
    proof {
        let m = 0x1_0000_0000_0000_0000int;
        let a = seed as int * LCG_MULTIPLIER as int;
        assert(a >= 0) by (nonlinear_arith)
            requires
                a == seed as int * LCG_MULTIPLIER as int,
                seed >= 0,
                LCG_MULTIPLIER >= 0,
        ;
        vstd::arithmetic::div_mod::lemma_add_mod_noop(a, LCG_INCREMENT as int, m);
        vstd::arithmetic::div_mod::lemma_small_mod(LCG_INCREMENT as nat, m as nat);
        let w = a % m;
        assert(0 <= w < m);
        if w + LCG_INCREMENT >= m {
            vstd::arithmetic::div_mod::lemma_mod_sub_multiples_vanish(w + LCG_INCREMENT, m);
            vstd::arithmetic::div_mod::lemma_small_mod((w + LCG_INCREMENT - m) as nat, m as nat);
        } else {
            vstd::arithmetic::div_mod::lemma_small_mod((w + LCG_INCREMENT) as nat, m as nat);
        }
    }
    r
}

/// The gap centre drawn from a generator state.
pub fn gap_y_for(seed: u64) -> (r: i32)
    ensures
        r == gap_for_seed(seed),
        Pipe::gap_low() <= r <= Pipe::gap_high(),
{
    let random_offset: i32 = ((seed / 65536) % GAP_RANGE) as i32;
    let gap_y: i32 = PIPE_HEIGHT_MIN + PIPE_GAP / 2 + random_offset;
    let top: i32 = GAME_HEIGHT - PIPE_HEIGHT_MIN - PIPE_GAP / 2;
    if gap_y < top {
        gap_y
    } else {
        top
    }
}

/// The spawn pass: where there is room at the right edge and a slot is free,
/// puts a new pipe into the lowest free slot and advances the generator.
/// Otherwise nothing changes.
pub fn spawn_pipes(game: &mut GameState)
    ensures
        (final(game).pipes@, final(game).seed) == spawn_result(old(game).pipes@, old(game).seed),
        *final(game) == (GameState {
            pipes: final(game).pipes,
            seed: final(game).seed,
            ..*old(game)
        }),
        (forall|i: int| 0 <= i < MAX_PIPES ==> (#[trigger] old(game).pipes@[i]).wf()) ==> (forall|
            i: int,
        | 0 <= i < MAX_PIPES ==> (#[trigger] final(game).pipes@[i]).wf()),
{
    let rightmost_x: i32 = rightmost_x(&game.pipes);
    if rightmost_x < GAME_WIDTH - PIPE_SPAWN_DISTANCE || rightmost_x == 0 {
        match first_free_slot(&game.pipes) {
            Some(i) => {
                game.seed = next_seed(game.seed);
                let gap_y: i32 = gap_y_for(game.seed);
                game.pipes[i] = Pipe { x: GAME_WIDTH, gap_y, passed: false, active: true };
            },
            None => {},
        }
    }
}

/// The scoring pass: visits the slots in order, moving each live pipe,
/// counting it once when it is cleared and freeing it when it has left the
/// field, and stops at the first pipe that collides with the bird at pixel
/// row `bird_y`. Returns whether one did.
pub fn advance_pipes(game: &mut GameState, bird_y: i32) -> (hit: bool)
    requires
        forall|i: int| 0 <= i < MAX_PIPES ==> (#[trigger] old(game).pipes@[i]).wf(),
        old(game).score <= u64::MAX - MAX_PIPES,
    ensures
        hit == (first_hit(bird_y as int, old(game).pipes@, 0) < MAX_PIPES),
        final(game).pipes@ == swept(old(game).pipes@, slots_swept(bird_y as int, old(game).pipes@)),
        final(game).score == old(game).score + score_gain(
            old(game).pipes@,
            slots_swept(bird_y as int, old(game).pipes@),
        ),
        *final(game) == (GameState {
            pipes: final(game).pipes,
            score: final(game).score,
            ..*old(game)
        }),
        forall|i: int| 0 <= i < MAX_PIPES ==> (#[trigger] final(game).pipes@[i]).wf(),
{
    let mut i: usize = 0;
    while i < MAX_PIPES
        invariant
            i <= MAX_PIPES,
            first_hit(bird_y as int, old(game).pipes@, 0) == first_hit(
                bird_y as int,
                old(game).pipes@,
                i as int,
            ),
            game.pipes@ =~= swept(old(game).pipes@, i as int),
            game.score == old(game).score + score_gain(old(game).pipes@, i as int),
            game.score <= old(game).score + i,
            old(game).score <= u64::MAX - MAX_PIPES,
            forall|k: int| 0 <= k < MAX_PIPES ==> (#[trigger] old(game).pipes@[k]).wf(),
            forall|k: int| 0 <= k < MAX_PIPES ==> (#[trigger] game.pipes@[k]).wf(),
            *game == (GameState { pipes: game.pipes, score: game.score, ..*old(game) }),
        decreases MAX_PIPES - i,
    {
        let (p, scored) = advance_pipe(game.pipes[i]);
        game.pipes[i] = p;
        if scored {
            game.score = game.score + 1;
        }
        if check_pipe_collision(bird_y, &p) {
            proof {
                lemma_first_hit(bird_y as int, old(game).pipes@, i as int);
                assert(game.pipes@ =~= swept(old(game).pipes@, i + 1));
            }
            return true;
        }
        i += 1;
    }
    false
}

} // verus!
