use vstd::prelude::*;
use crate::constants::{
    BIRD_SIZE, GAME_HEIGHT, GAME_WIDTH, MAX_PIPES, MAX_VELOCITY, PIPE_GAP, PIPE_HEIGHT_MIN,
    PIPE_SPEED, PIPE_WIDTH, SCALE,
};

verus! {

/// Where a session stands in its episode.
#[derive(Clone, Copy, Debug, PartialEq, Eq, Structural, Hash)]
pub enum GameStatus {
    NotStarted,
    Playing,
    GameOver,
}

impl Default for GameStatus {
    fn default() -> (r: Self)
        ensures
            r == GameStatus::NotStarted,
    {
        GameStatus::NotStarted
    }
}

/// One obstacle slot.
#[derive(Clone, Copy, Debug, PartialEq, Eq, Structural, Hash)]
pub struct Pipe {
    /// Left edge in pixels.
    pub x: i32,
    /// Vertical centre of the gap in pixels.
    pub gap_y: i32,
    /// Whether the bird has already cleared this pipe.
    pub passed: bool,
    /// Whether the slot holds a live pipe.
    pub active: bool,
}

impl Default for Pipe {
    fn default() -> (r: Self)
        ensures
            r == (Pipe { x: 0, gap_y: 0, passed: false, active: false }),
    {
        Pipe { x: 0, gap_y: 0, passed: false, active: false }
    }
}

impl Pipe {
    /// The value every slot holds at the start of an episode.
    pub open spec fn cleared() -> Pipe {
        Pipe { x: -100i32, gap_y: (GAME_HEIGHT / 2) as i32, passed: false, active: false }
    }

    /// Lowest gap centre the generator produces.
    pub open spec fn gap_low() -> int {
        PIPE_HEIGHT_MIN + PIPE_GAP / 2
    }

    /// Highest gap centre the generator produces.
    pub open spec fn gap_high() -> int {
        GAME_HEIGHT - PIPE_HEIGHT_MIN - PIPE_GAP / 2
    }

    /// A live pipe can move left by one tick within `i32`. A free slot may
    /// hold anything.
    pub open spec fn wf(self) -> bool {
        self.active ==> self.x >= i32::MIN + PIPE_SPEED
    }

    /// A live pipe is where play puts pipes: between the point at which it is
    /// freed and the right edge of the field, its gap where the generator puts
    /// gaps.
    pub open spec fn on_field(self) -> bool {
        self.active ==> {
            &&& -PIPE_WIDTH <= self.x <= GAME_WIDTH
            &&& Self::gap_low() <= self.gap_y <= Self::gap_high()
        }
    }

    /// Whether the slot is well-formed.
    pub fn is_valid(&self) -> (r: bool)
        ensures
            r == self.wf(),
    {
        !self.active || self.x >= i32::MIN + PIPE_SPEED
    }
}

/// Why an operation was refused.
#[derive(Clone, Copy, Debug, PartialEq, Eq, Structural, Hash)]
pub enum FlappyError {
    /// A tick was asked for while the session is not in play.
    GameNotPlaying,
    /// A start was asked for while the session is in play.
    GameAlreadyStarted,
    /// The caller is neither the record's authority nor holds a valid session.
    InvalidAuth,
}

impl FlappyError {
    /// The text shown to a player for this error.
    pub fn message(&self) -> (r: &'static str)
        ensures
            r@ == match *self {
                FlappyError::GameNotPlaying => "Game is not in playing state"@,
                FlappyError::GameAlreadyStarted => "Game has already started"@,
                FlappyError::InvalidAuth => "Invalid authentication"@,
            },
    {
        match self {
            FlappyError::GameNotPlaying => "Game is not in playing state",
            FlappyError::GameAlreadyStarted => "Game has already started",
            FlappyError::InvalidAuth => "Invalid authentication",
        }
    }
}

/// The record of one player's session.
#[derive(Clone, Copy, Debug, PartialEq, Eq)]
pub struct GameState {
    /// Identity of the player who owns the record.
    pub authority: [u8; 32],
    /// Pipes cleared in the current episode.
    pub score: u64,
    /// Best score of any finished episode.
    pub high_score: u64,
    /// Where the session stands.
    pub game_status: GameStatus,
    /// Vertical position of the bird, fixed-point.
    pub bird_y: i32,
    /// Vertical velocity of the bird, fixed-point.
    pub bird_velocity: i32,
    /// Ticks applied since the episode began.
    pub frame_count: u64,
    /// Clock reading of the last completed tick.
    pub last_update: i64,
    /// The obstacle slots.
    pub pipes: [Pipe; 5],
    /// Spacing hint kept beside the slots.
    pub next_pipe_spawn_x: i32,
    /// State of the gap generator.
    pub seed: u64,
}

impl GameState {
    /// Lowest position at which the bird is clear of the ceiling.
    pub open spec fn y_low() -> int {
        SCALE as int
    }

    /// Highest position at which the bird is clear of the floor.
    pub open spec fn y_high() -> int {
        (GAME_HEIGHT - BIRD_SIZE) * SCALE - 1
    }

    /// A valid record: the velocity is within the clamp, every live pipe is
    /// well-formed, and unless the episode is over the bird can move by one
    /// more tick within `i32`.
    pub open spec fn wf(self) -> bool {
        &&& -MAX_VELOCITY <= self.bird_velocity <= MAX_VELOCITY
        &&& self.game_status != GameStatus::GameOver ==> i32::MIN + MAX_VELOCITY <= self.bird_y
            <= i32::MAX - MAX_VELOCITY
        &&& forall|i: int| 0 <= i < MAX_PIPES ==> (#[trigger] self.pipes@[i]).wf()
    }

    /// What play keeps true beyond validity: unless the episode is over the
    /// bird is strictly between ceiling and floor, and every live pipe is on
    /// the field.
    pub open spec fn on_field(self) -> bool {
        &&& self.game_status != GameStatus::GameOver ==> Self::y_low() <= self.bird_y
            <= Self::y_high()
        &&& forall|i: int| 0 <= i < MAX_PIPES ==> (#[trigger] self.pipes@[i]).on_field()
    }

    /// The counters can take one more tick without leaving `u64`.
    pub open spec fn has_headroom(self) -> bool {
        &&& self.frame_count < u64::MAX
        &&& self.score <= u64::MAX - MAX_PIPES
    }

    /// Whether the record is valid.
    pub fn is_valid(&self) -> (r: bool)
        ensures
            r == self.wf(),
    {
        if self.bird_velocity < -MAX_VELOCITY || self.bird_velocity > MAX_VELOCITY {
            return false;
        }
        if self.game_status != GameStatus::GameOver && (self.bird_y < i32::MIN + MAX_VELOCITY
            || self.bird_y > i32::MAX - MAX_VELOCITY) {
            return false;
        }
        let mut i: usize = 0;
        while i < MAX_PIPES
            invariant
                i <= MAX_PIPES,
                forall|j: int| 0 <= j < i ==> (#[trigger] self.pipes@[j]).wf(),
            decreases MAX_PIPES - i,
        {
            if !self.pipes[i].is_valid() {
                return false;
            }
            i += 1;
        }
        true
    }

    /// Whether the counters can take one more tick.
    pub fn has_room(&self) -> (r: bool)
        ensures
            r == self.has_headroom(),
    {
        self.frame_count < u64::MAX && self.score <= u64::MAX - 5
    }
}

} // verus!
