use flappy_bird::pipes::{
    advance_pipe, advance_pipes, first_free_slot, gap_y_for, next_seed, rightmost_x, spawn_pipes,
};
use flappy_bird::{initialize, start_game, tick, GameAction, GameState, GameStatus, Pipe};

const PLAYER: [u8; 32] = [9u8; 32];

fn player() -> GameAction {
    GameAction { signer: PLAYER, session_token: None }
}

fn in_play(seed: u64) -> GameState {
    let mut game = initialize(PLAYER, 5);
    start_game(&mut game, &player(), 5).unwrap();
    game.seed = seed;
    game
}

fn live(x: i32, gap_y: i32) -> Pipe {
    Pipe { x, gap_y, passed: false, active: true }
}

fn count_active(game: &GameState) -> usize {
    game.pipes.iter().filter(|p| p.active).count()
}

#[test]
fn generator_step_exact_values() {
    assert_eq!(next_seed(0), 12_345);
    assert_eq!(next_seed(1), 1_103_527_590);
    assert_eq!(next_seed(42), 46_347_652_635);
    assert_eq!(next_seed(1_700_000_000), 1_875_975_916_500_012_345);
}

#[test]
fn generator_step_wraps_around() {
    assert_eq!(next_seed(u64::MAX), 18_446_744_072_606_048_716);
    assert_eq!(next_seed(46_347_652_635), 14_251_853_105_267_829_688);
}

#[test]
fn gap_exact_values() {
    assert_eq!(gap_y_for(12_345), 125);
    assert_eq!(gap_y_for(1_103_527_590), 163);
    assert_eq!(gap_y_for(46_347_652_635), 234);
    assert_eq!(gap_y_for(7_335_485_157_495_086_481), 242);
}

#[test]
fn gap_is_capped() {
    assert_eq!(gap_y_for(1_875_975_916_500_012_345), 275);
    assert_eq!(gap_y_for(150 * 65_536), 275);
    assert_eq!(gap_y_for(149 * 65_536), 274);
    assert_eq!(gap_y_for(299 * 65_536), 275);
    assert_eq!(gap_y_for(300 * 65_536), 125);
}

#[test]
fn same_seed_gives_same_gaps() {
    let expected = [234, 275, 242, 250, 275, 275];
    let mut a = in_play(42);
    let mut b = in_play(42);
    b.pipes[0] = live(100, 200);
    for want in expected {
        for slot in a.pipes.iter_mut() {
            slot.active = false;
        }
        for slot in b.pipes.iter_mut().skip(1) {
            slot.active = false;
        }
        spawn_pipes(&mut a);
        spawn_pipes(&mut b);
        assert_eq!(a.pipes[0].gap_y, want);
        assert_eq!(b.pipes[1].gap_y, want);
        assert_eq!(a.seed, b.seed);
    }
    assert_eq!(a.seed, 981_933_468_588_280_676);
}

#[test]
fn spawn_fills_the_lowest_free_slot() {
    let mut game = in_play(42);
    game.pipes[0] = live(100, 200);
    game.pipes[1] = live(300, 200);
    game.pipes[3] = live(200, 200);
    let before = game;
    spawn_pipes(&mut game);
    assert_eq!(game.pipes[2], Pipe { x: 600, gap_y: 234, passed: false, active: true });
    assert_eq!(game.seed, 46_347_652_635);
    assert_eq!(game.pipes[0], before.pipes[0]);
    assert_eq!(game.pipes[1], before.pipes[1]);
    assert_eq!(game.pipes[3], before.pipes[3]);
    assert_eq!(game.pipes[4], before.pipes[4]);
    assert_eq!(game.score, before.score);
    assert_eq!(game.last_update, before.last_update);
}

#[test]
fn spawn_overwrites_a_recycled_slot() {
    let mut game = in_play(1);
    game.pipes[0] = Pipe { x: -70, gap_y: 130, passed: true, active: false };
    spawn_pipes(&mut game);
    assert_eq!(game.pipes[0], Pipe { x: 600, gap_y: 163, passed: false, active: true });
}

#[test]
fn spawn_waits_for_room() {
    let mut game = in_play(42);
    game.pipes[0] = live(400, 200);
    let before = game;
    spawn_pipes(&mut game);
    assert_eq!(game, before);
    game.pipes[0].x = 399;
    spawn_pipes(&mut game);
    assert!(game.pipes[1].active);
    assert_eq!(game.seed, 46_347_652_635);
}

#[test]
fn spawn_when_only_pipes_left_of_origin() {
    let mut game = in_play(42);
    game.pipes[0] = live(-30, 200);
    spawn_pipes(&mut game);
    assert_eq!(game.pipes[1], Pipe { x: 600, gap_y: 234, passed: false, active: true });
}

#[test]
fn spawn_is_one_per_call_and_stops_at_five() {
    let mut game = in_play(42);
    for round in 1..=8usize {
        for slot in game.pipes.iter_mut() {
            if slot.active {
                slot.x = 100;
            }
        }
        let seed = game.seed;
        spawn_pipes(&mut game);
        assert_eq!(count_active(&game), round.min(5));
        if round > 5 {
            assert_eq!(game.seed, seed);
        } else {
            assert_eq!(game.seed, next_seed(seed));
        }
    }
}

#[test]
fn rightmost_is_floored_at_zero() {
    let mut game = in_play(1);
    assert_eq!(rightmost_x(&game.pipes), 0);
    game.pipes[2] = live(-20, 200);
    assert_eq!(rightmost_x(&game.pipes), 0);
    game.pipes[4] = live(310, 200);
    game.pipes[1] = live(120, 200);
    assert_eq!(rightmost_x(&game.pipes), 310);
    game.pipes[0] = Pipe { x: 500, gap_y: 200, passed: false, active: false };
    assert_eq!(rightmost_x(&game.pipes), 310);
}

#[test]
fn first_free_slot_is_the_lowest() {
    let mut game = in_play(1);
    assert_eq!(first_free_slot(&game.pipes), Some(0));
    game.pipes[0] = live(10, 200);
    game.pipes[1] = live(10, 200);
    game.pipes[3] = live(10, 200);
    assert_eq!(first_free_slot(&game.pipes), Some(2));
    game.pipes[2] = live(10, 200);
    game.pipes[4] = live(10, 200);
    assert_eq!(first_free_slot(&game.pipes), None);
}

#[test]
fn pipe_moves_left_by_ten() {
    let (p, scored) = advance_pipe(live(600, 200));
    assert_eq!(p, live(590, 200));
    assert!(!scored);
}

#[test]
fn pipe_is_counted_when_its_edge_is_behind_the_bird() {
    let (p, scored) = advance_pipe(live(0, 200));
    assert_eq!(p, live(-10, 200));
    assert!(!scored);
    let (p, scored) = advance_pipe(p);
    assert_eq!(p, Pipe { x: -20, gap_y: 200, passed: true, active: true });
    assert!(scored);
    let (p, scored) = advance_pipe(p);
    assert_eq!(p, Pipe { x: -30, gap_y: 200, passed: true, active: true });
    assert!(!scored);
}

#[test]
fn pipe_is_freed_once_off_the_field() {
    let passed = Pipe { x: -50, gap_y: 200, passed: true, active: true };
    let (p, _) = advance_pipe(passed);
    assert_eq!(p, Pipe { x: -60, gap_y: 200, passed: true, active: true });
    let (p, scored) = advance_pipe(p);
    assert_eq!(p, Pipe { x: -70, gap_y: 200, passed: true, active: false });
    assert!(!scored);
    let (q, scored) = advance_pipe(p);
    assert_eq!(q, p);
    assert!(!scored);
}

#[test]
fn score_rises_once_per_pipe() {
    let mut game = in_play(42);
    game.pipes[0] = live(0, 200);
    let want_score = [0u64, 1, 1, 1, 1, 1, 1];
    let want_x = [-10, -20, -30, -40, -50, -60, -70];
    for step in 0..7 {
        assert_eq!(tick(&mut game, &player(), 6), Ok(()));
        assert_eq!(game.game_status, GameStatus::Playing);
        assert_eq!(game.score, want_score[step]);
        assert_eq!(game.pipes[0].x, want_x[step]);
    }
    assert!(!game.pipes[0].active);
    assert!(game.pipes[0].passed);
    assert_eq!(game.pipes[1], live(540, 234));
    assert_eq!(game.bird_y, 216_800);
    assert_eq!(game.frame_count, 7);
}

#[test]
fn sweep_stops_at_the_first_collision() {
    let mut game = in_play(42);
    game.high_score = 0;
    game.pipes[0] = live(-10, 200);
    game.pipes[1] = live(60, 130);
    game.pipes[2] = live(300, 200);
    game.pipes[3] = live(-10, 200);
    let hit = advance_pipes(&mut game, 200);
    assert!(hit);
    assert_eq!(game.pipes[0], Pipe { x: -20, gap_y: 200, passed: true, active: true });
    assert_eq!(game.pipes[1], live(50, 130));
    assert_eq!(game.pipes[2], live(300, 200));
    assert_eq!(game.pipes[3], live(-10, 200));
    assert_eq!(game.score, 1);
}

#[test]
fn sweep_without_collision_visits_every_slot() {
    let mut game = in_play(42);
    game.pipes[0] = live(-10, 200);
    game.pipes[1] = live(60, 200);
    game.pipes[4] = live(-10, 150);
    let hit = advance_pipes(&mut game, 200);
    assert!(!hit);
    assert_eq!(game.pipes[1], live(50, 200));
    assert_eq!(game.pipes[4], Pipe { x: -20, gap_y: 150, passed: true, active: true });
    assert_eq!(game.score, 2);
}

#[test]
fn pipe_collision_ends_the_episode_with_the_score_so_far() {
    let mut game = in_play(42);
    game.score = 3;
    game.high_score = 3;
    game.pipes[0] = live(-10, 200);
    game.pipes[1] = live(60, 130);
    game.pipes[2] = live(300, 200);
    assert_eq!(tick(&mut game, &player(), 77), Ok(()));
    assert_eq!(game.game_status, GameStatus::GameOver);
    assert_eq!(game.score, 4);
    assert_eq!(game.high_score, 4);
    assert_eq!(game.pipes[2], live(300, 200));
    assert_eq!(game.seed, 42);
    assert_eq!(game.last_update, 5);
    assert_eq!(game.bird_y, 200_600);
}

#[test]
fn active_pipes_never_exceed_five() {
    let mut game = initialize(PLAYER, 12_345);
    let mut now = 12_345;
    for _ in 0..5_000 {
        now += 1;
        if game.game_status != GameStatus::Playing {
            start_game(&mut game, &player(), now).unwrap();
        }
        let before = game;
        if game.bird_y > 200_000 {
            flappy_bird::flap(&mut game, &player(), now).unwrap();
        } else {
            tick(&mut game, &player(), now).unwrap();
        }
        assert!(count_active(&game) <= 5);
        assert!(game.bird_velocity >= -15_000 && game.bird_velocity <= 15_000);
        assert!(game.score >= before.score);
        assert_eq!(game.frame_count, before.frame_count + 1);
        assert!(game.high_score >= before.high_score);
    }
}
