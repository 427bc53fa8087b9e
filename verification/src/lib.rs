//! Deterministic simulation core of a side-scrolling obstacle-avoidance game.
//!
//! All motion is integer fixed-point (scale 1000) and advances one discrete
//! tick at a time. Every operation is a function of the session record and of
//! the plain values handed in by the caller (identity evidence, clock reading).

pub mod constants;
pub mod state;
pub mod physics;
pub mod collision;
pub mod pipes;
pub mod auth;
pub mod game;
pub mod laws;

pub use constants::{
    BIRD_SIZE, BIRD_X, GAME_HEIGHT, GAME_WIDTH, GRAVITY, JUMP_VELOCITY, MAX_PIPES, MAX_VELOCITY,
    PIPE_GAP, PIPE_HEIGHT_MAX, PIPE_HEIGHT_MIN, PIPE_SPAWN_DISTANCE, PIPE_SPEED, PIPE_WIDTH,
};
pub use state::{FlappyError, GameState, GameStatus, Pipe};
pub use auth::GameAction;
pub use game::{end_game, flap, initialize, reset_game, start_game, tick};
