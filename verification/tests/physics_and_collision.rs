use flappy_bird::collision::{check_bounds, check_pipe_collision};
use flappy_bird::physics::{integrate, pixels};
use flappy_bird::{
    flap, initialize, start_game, tick, GameAction, GameState, GameStatus, Pipe, MAX_VELOCITY,
};

const OWNER: [u8; 32] = [7u8; 32];

fn owner() -> GameAction {
    GameAction { signer: OWNER, session_token: None }
}

fn playing(bird_y: i32, bird_velocity: i32) -> GameState {
    let mut game = initialize(OWNER, 1_000);
    start_game(&mut game, &owner(), 1_000).unwrap();
    game.bird_y = bird_y;
    game.bird_velocity = bird_velocity;
    game
}

#[test]
fn integrate_adds_gravity_then_moves() {
    assert_eq!(integrate(200_000, 0), (600, 200_600));
    assert_eq!(integrate(200_000, -9_000), (-8_400, 191_600));
}

#[test]
fn integrate_clamps_both_ways() {
    assert_eq!(integrate(100_000, 14_900), (15_000, 115_000));
    assert_eq!(integrate(100_000, 15_000), (15_000, 115_000));
    assert_eq!(integrate(100_000, -15_600), (-15_000, 85_000));
    assert_eq!(integrate(100_000, -20_000), (-15_000, 85_000));
}

#[test]
fn pixels_round_toward_zero() {
    assert_eq!(pixels(200_600), 200);
    assert_eq!(pixels(999), 0);
    assert_eq!(pixels(-999), 0);
    assert_eq!(pixels(-1_000), -1);
    assert_eq!(pixels(-1_500), -1);
    assert_eq!(pixels(1_999), 1);
}

#[test]
fn bounds_at_the_edges() {
    assert!(check_bounds(0));
    assert!(check_bounds(-3));
    assert!(!check_bounds(1));
    assert!(!check_bounds(369));
    assert!(check_bounds(370));
    assert!(check_bounds(400));
}

#[test]
fn tick_from_rest_applies_gravity() {
    let mut game = playing(200_000, 0);
    assert_eq!(tick(&mut game, &owner(), 1_001), Ok(()));
    assert_eq!(game.bird_velocity, 600);
    assert_eq!(game.bird_y, 200_600);
    assert_eq!(game.frame_count, 1);
    assert_eq!(game.last_update, 1_001);
    assert_eq!(game.game_status, GameStatus::Playing);
}

#[test]
fn flap_from_rest_jumps_then_applies_gravity() {
    let mut game = playing(200_000, 0);
    assert_eq!(flap(&mut game, &owner(), 1_001), Ok(()));
    assert_eq!(game.bird_velocity, -8_400);
    assert_eq!(game.bird_y, 191_600);
    assert_eq!(game.frame_count, 1);
}

#[test]
fn velocity_stays_clamped_while_falling() {
    let mut game = playing(200_000, 0);
    let mut ticks = 0;
    while game.game_status == GameStatus::Playing {
        tick(&mut game, &owner(), 1_001).unwrap();
        assert!(-MAX_VELOCITY <= game.bird_velocity && game.bird_velocity <= MAX_VELOCITY);
        ticks += 1;
        assert!(ticks < 1_000);
    }
    assert_eq!(game.game_status, GameStatus::GameOver);
    assert!(game.bird_y / 1000 + 30 >= 400);
}

#[test]
fn velocity_reaches_the_clamp_and_stops_there() {
    let mut game = playing(1_000, 14_800);
    tick(&mut game, &owner(), 1_001).unwrap();
    assert_eq!(game.bird_velocity, 15_000);
    assert_eq!(game.bird_y, 16_000);
    tick(&mut game, &owner(), 1_002).unwrap();
    assert_eq!(game.bird_velocity, 15_000);
    assert_eq!(game.bird_y, 31_000);
}

#[test]
fn floor_ends_the_episode() {
    let mut game = playing(369_000, 400);
    game.score = 4;
    game.high_score = 2;
    let pipes = game.pipes;
    let seed = game.seed;
    assert_eq!(tick(&mut game, &owner(), 2_000), Ok(()));
    assert_eq!(game.bird_y, 370_000);
    assert_eq!(game.game_status, GameStatus::GameOver);
    assert_eq!(game.high_score, 4);
    assert_eq!(game.score, 4);
    assert_eq!(game.pipes, pipes);
    assert_eq!(game.seed, seed);
    assert_eq!(game.last_update, 1_000);
    assert_eq!(game.frame_count, 1);
}

#[test]
fn just_above_the_floor_plays_on() {
    let mut game = playing(368_399, 400);
    assert_eq!(tick(&mut game, &owner(), 2_000), Ok(()));
    assert_eq!(game.bird_y, 369_399);
    assert_eq!(game.game_status, GameStatus::Playing);
    assert_eq!(game.last_update, 2_000);
}

#[test]
fn ceiling_ends_the_episode() {
    let mut game = playing(9_000, 0);
    assert_eq!(flap(&mut game, &owner(), 2_000), Ok(()));
    assert_eq!(game.bird_y, 600);
    assert_eq!(game.game_status, GameStatus::GameOver);
}

#[test]
fn ceiling_uses_rounding_toward_zero() {
    let mut game = playing(8_000, 0);
    assert_eq!(flap(&mut game, &owner(), 2_000), Ok(()));
    assert_eq!(game.bird_y, -400);
    assert_eq!(game.game_status, GameStatus::GameOver);
}

#[test]
fn episode_over_does_not_revert() {
    let mut game = playing(369_000, 15_000);
    tick(&mut game, &owner(), 2_000).unwrap();
    assert_eq!(game.game_status, GameStatus::GameOver);
    let after = game;
    assert!(tick(&mut game, &owner(), 2_001).is_err());
    assert!(flap(&mut game, &owner(), 2_002).is_err());
    assert_eq!(game, after);
}

#[test]
fn free_slot_never_collides() {
    let pipe = Pipe { x: 50, gap_y: 200, passed: false, active: false };
    assert!(!check_pipe_collision(0, &pipe));
    assert!(!check_pipe_collision(399, &pipe));
}

#[test]
fn pipe_collision_needs_horizontal_overlap() {
    let at = |x: i32| Pipe { x, gap_y: 200, passed: false, active: true };
    assert!(!check_pipe_collision(10, &at(80)));
    assert!(check_pipe_collision(10, &at(79)));
    assert!(check_pipe_collision(10, &at(-9)));
    assert!(!check_pipe_collision(10, &at(-10)));
}

#[test]
fn pipe_collision_spares_the_gap() {
    let pipe = Pipe { x: 50, gap_y: 200, passed: false, active: true };
    assert!(check_pipe_collision(124, &pipe));
    assert!(!check_pipe_collision(125, &pipe));
    assert!(!check_pipe_collision(245, &pipe));
    assert!(check_pipe_collision(246, &pipe));
}

#[test]
fn pipe_collision_takes_extreme_values() {
    let far = Pipe { x: i32::MAX, gap_y: i32::MAX, passed: false, active: true };
    assert!(!check_pipe_collision(i32::MAX, &far));
    let near = Pipe { x: 50, gap_y: i32::MIN, passed: false, active: true };
    assert!(check_pipe_collision(i32::MAX, &near));
}
