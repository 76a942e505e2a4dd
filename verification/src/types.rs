//! The closed kind sets, the state machine, floating texts and the
//! difficulty curve.

use vstd::prelude::*;
use crate::constants::{
    BASE_GROUND_Y, BASE_SCROLL_SPEED, GROUND_VARIATION, MAX_SCROLL_SPEED, TIME_CAP,
    TWO_PI_MRAD,
};
use crate::utils::{sin_milli, spec_sin_milli};

verus! {

/// Action the player is currently performing; drives animation, the
/// hurt-box shape and stamina drain.
#[derive(Clone, Copy, PartialEq, Eq, Structural, Debug)]
pub enum PlayerAction {
    Running,
    Jump,
    DoubleJump,
    Slide,
    Dash,
}

/// The closed set of power-up effects.
#[derive(Clone, Copy, PartialEq, Eq, Structural, Debug)]
pub enum PowerUpKind {
    Shield,
    ScoreBoost,
    TimeSlow,
}

/// The closed set of obstacle shapes.
#[derive(Clone, Copy, PartialEq, Eq, Structural, Debug)]
pub enum ObstacleKind {
    Crate,
    Saw,
    Pit,
    Drone,
}

/// The closed set of collectible kinds.
#[derive(Clone, Copy, PartialEq, Eq, Structural, Debug)]
pub enum CollectibleKind {
    Coin,
    Gem,
}

/// The top-level state machine. Each variant carries exactly the transient
/// value its own exit condition needs.
#[derive(Clone, Copy, PartialEq, Eq, Structural, Debug)]
pub enum GameState {
    Splash { timer_ms: i64 },
    Menu { fade_milli: i64 },
    Running,
    Paused,
    GameOver { cooldown_ms: i64 },
}

/// What a floating text announces; the embedding program renders the label.
#[derive(Clone, Copy, PartialEq, Eq, Structural, Debug)]
pub enum FloatingTextKind {
    RunLost,
    Pickup { value: u32, gem: bool },
    PowerUpLabel { kind: PowerUpKind },
}

/// A transient announcement drifting across the screen.
#[derive(Clone, Copy, PartialEq, Eq, Structural, Debug)]
pub struct FloatingText {
    pub kind: FloatingTextKind,
    pub pos_x: i64,
    pub pos_y: i64,
    pub vel_x: i64,
    pub vel_y: i64,
    pub timer_ms: i64,
    pub max_timer_ms: i64,
}

/// The difficulty curve: a monotone run-time accumulator, the base obstacle
/// spacing, and the two independent spawn countdowns.
#[derive(Clone, Copy, PartialEq, Eq, Structural, Debug)]
pub struct DifficultyTrack {
    pub time_ms: i64,
    pub base_spacing_ms: i64,
    pub obstacle_timer_ms: i64,
    pub collectible_timer_ms: i64,
}

/// Scroll speed after `time_ms` of running: a linear ramp capped at
/// `MAX_SCROLL_SPEED` (milli-pixels per second).
pub open spec fn spec_scroll_speed(time_ms: int) -> int {
    if BASE_SCROLL_SPEED + 12 * time_ms > MAX_SCROLL_SPEED {
        MAX_SCROLL_SPEED as int
    } else {
        BASE_SCROLL_SPEED + 12 * time_ms
    }
}

/// Ground baseline after `time_ms`: a slow sine oscillation around
/// `BASE_GROUND_Y`.
pub open spec fn spec_ground_y(time_ms: int) -> int {
    BASE_GROUND_Y + (spec_sin_milli((time_ms / 10) % (TWO_PI_MRAD as int)) * GROUND_VARIATION) / 1_000
}

/// Obstacle spawn interval: spacing shrinks with run time, floored at 620 ms.
pub open spec fn spec_obstacle_interval(base_spacing_ms: int, time_ms: int) -> int {
    if base_spacing_ms - (12 * time_ms) / 1_000 < 620 {
        620
    } else {
        base_spacing_ms - (12 * time_ms) / 1_000
    }
}

/// Collectible spawn interval: breathes with a sine of run time, floored at
/// 300 ms.
pub open spec fn spec_collectible_interval(time_ms: int) -> int {
    if 1_000 + spec_sin_milli(((27 * time_ms) / 1_000) % (TWO_PI_MRAD as int)) < 300 {
        300
    } else {
        1_000 + spec_sin_milli(((27 * time_ms) / 1_000) % (TWO_PI_MRAD as int))
    }
}

impl DifficultyTrack {
    pub open spec fn wf(self) -> bool {
        &&& 0 <= self.time_ms <= TIME_CAP
        &&& self.base_spacing_ms == 1_400
        &&& 0 < self.obstacle_timer_ms <= 2_000
        &&& 0 < self.collectible_timer_ms <= 2_500
    }

    /// The initial curve for a fresh run.
    pub fn new() -> (r: DifficultyTrack)
        ensures
            r == (DifficultyTrack {
                time_ms: 0,
                base_spacing_ms: 1_400,
                obstacle_timer_ms: 1_600,
                collectible_timer_ms: 1_200,
            }),
            r.wf(),
    {
        DifficultyTrack {
            time_ms: 0,
            base_spacing_ms: 1_400,
            obstacle_timer_ms: 1_600,
            collectible_timer_ms: 1_200,
        }
    }

    /// Current scroll speed, milli-pixels per second.
    pub fn scroll_speed(&self) -> (r: i64)
        requires
            0 <= self.time_ms <= TIME_CAP,
        ensures
            r == spec_scroll_speed(self.time_ms as int),
            BASE_SCROLL_SPEED <= r <= MAX_SCROLL_SPEED,
    {
        let ramp: i64 = BASE_SCROLL_SPEED + 12 * self.time_ms;
        if ramp > MAX_SCROLL_SPEED {
            MAX_SCROLL_SPEED
        } else {
            ramp
        }
    }

    /// Current ground baseline, milli-pixels.
    pub fn ground_y(&self) -> (r: i64)
        requires
            0 <= self.time_ms <= TIME_CAP,
        ensures
            r == spec_ground_y(self.time_ms as int),
            BASE_GROUND_Y - GROUND_VARIATION <= r <= BASE_GROUND_Y + GROUND_VARIATION,
    {
        let phase: i64 = (((self.time_ms as u64) / 10) % (TWO_PI_MRAD as u64)) as i64;
        let s: i64 = sin_milli(phase);
        proof {
            vstd::arithmetic::div_mod::lemma_fundamental_div_mod_converse(
                s * GROUND_VARIATION,
                1_000,
                s * 40,
                0,
            );
        }
        BASE_GROUND_Y + s * 40
    }

    /// Interval until the next obstacle spawn, milliseconds.
    pub fn obstacle_interval(&self) -> (r: i64)
        requires
            0 <= self.time_ms <= TIME_CAP,
            self.base_spacing_ms == 1_400,
        ensures
            r == spec_obstacle_interval(self.base_spacing_ms as int, self.time_ms as int),
            620 <= r <= 1_400,
    {
        let shrink: i64 = (((self.time_ms as u64) * 12) / 1_000) as i64;
        let interval: i64 = self.base_spacing_ms - shrink;
        if interval < 620 {
            620
        } else {
            interval
        }
    }

    /// Interval until the next collectible spawn, milliseconds.
    pub fn collectible_interval(&self) -> (r: i64)
        requires
            0 <= self.time_ms <= TIME_CAP,
        ensures
            r == spec_collectible_interval(self.time_ms as int),
            300 <= r <= 2_000,
    {
        let phase: i64 = ((((self.time_ms as u64) * 27) / 1_000) % (TWO_PI_MRAD as u64)) as i64;
        let s: i64 = sin_milli(phase);
        let interval: i64 = 1_000 + s;
        if interval < 300 {
            300
        } else {
            interval
        }
    }
}

} // verus!
