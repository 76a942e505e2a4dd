//! The fixed quantities of the simulation, in integer milli-units.

use vstd::prelude::*;

verus! {

// Screen layout, in milli-pixels.
pub const SCREEN_W: i64 = 1_100_000;
pub const SCREEN_H: i64 = 620_000;

// Ground baseline and player geometry, in milli-pixels.
pub const BASE_GROUND_Y: i64 = SCREEN_H - 112_000;
pub const PLAYER_W: i64 = 56_000;
pub const PLAYER_H: i64 = 72_000;
pub const PLAYER_START_X: i64 = 160_000;
pub const PLAYER_START_Y: i64 = BASE_GROUND_Y - PLAYER_H;

// Physics, in milli-pixels per second (per second squared for gravity).
pub const GRAVITY: i64 = 2_000_000;
pub const TERMINAL_VEL: i64 = 1_400_000;
pub const DASH_SPEED: i64 = 820_000;
pub const JUMP_VEL: i64 = -820_000;
pub const DOUBLE_JUMP_VEL: i64 = -780_000;

// Scrolling and terrain.
pub const BASE_SCROLL_SPEED: i64 = 360_000;
pub const MAX_SCROLL_SPEED: i64 = 820_000;
pub const GROUND_VARIATION: i64 = 40_000;

// Stamina, in milli-units and milli-units per second.
pub const MAX_STAMINA: i64 = 100_000;
pub const STAMINA_CONSUME_RATE: i64 = 48_000;
pub const STAMINA_RECOVER_RATE: i64 = 22_000;

// Timing, in milliseconds.
pub const POWERUP_DURATION_MS: i64 = 6_000;
pub const DAY_NIGHT_DURATION_MS: i64 = 45_000;
pub const MENU_FADE_TIME_MS: i64 = 1_400;
pub const SPLASH_TIME_MS: i64 = 2_600;
pub const GAME_OVER_COOLDOWN_MS: i64 = 800;

// The particle pool is allocated once at this capacity and never resized.
pub const MAX_PARTICLES: usize = 120;

// Caps that keep every run-state quantity inside i64 range.
//
// A frame delta is untrusted input: it is clamped to MAX_FRAME_MS before it
// touches any state, so one frame can advance the simulation by at most one
// second. Run time saturates at TIME_CAP (roughly thirty thousand years of
// play) and every coordinate is clamped into [-COORD_LIMIT, COORD_LIMIT].
pub const MAX_FRAME_MS: i64 = 1_000;
pub const TIME_CAP: i64 = 1_000_000_000_000_000;
pub const COORD_LIMIT: i64 = 1_000_000_000_000;
pub const VEL_LIMIT: i64 = 2_000_000_000;
pub const SCORE_CAP: i64 = 1_000_000_000_000_000_000;

// Combo saturates so that the display never overflows.
pub const MAX_COMBO: u32 = 999;

// Streak multiplier bounds and steps, in thousandths.
pub const STREAK_MIN: i64 = 1_000;
pub const STREAK_MAX: i64 = 3_000;
pub const STREAK_GAIN: i64 = 80;
pub const STREAK_DECAY: i64 = 12;

// One full turn in milli-radians; the sine helper works on this circle.
pub const TWO_PI_MRAD: i64 = 6_283;
pub const PI_MRAD: i64 = 3_142;

// The day/night phase lives in [0, DAY_PHASE_CYCLE).
pub const DAY_PHASE_CYCLE: i64 = 1_000_000;

} // verus!
