//! The aggregate world, the power-up slot, run resets and the numeric
//! run-state snapshot.

use vstd::prelude::*;
use crate::collectibles::Collectible;
use crate::constants::{
    COORD_LIMIT, DAY_PHASE_CYCLE, GAME_OVER_COOLDOWN_MS, MAX_FRAME_MS, MAX_PARTICLES,
    POWERUP_DURATION_MS, SCORE_CAP, SPLASH_TIME_MS, STREAK_MAX, STREAK_MIN, TIME_CAP,
};
use crate::obstacles::Obstacle;
use crate::particles::{pool_wf, texts_wf, Particle};
use crate::player::Player;
use crate::rng::FrameDraws;
use crate::types::{DifficultyTrack, FloatingText, GameState, PowerUpKind};

verus! {

/// The single active-effect slot: at most one power-up runs at a time, and
/// it expires when its timer reaches zero.
#[derive(Clone, Copy, PartialEq, Eq, Structural, Debug)]
pub struct PowerUp {
    pub active: bool,
    pub kind: PowerUpKind,
    pub timer_ms: i64,
}

impl PowerUp {
    pub open spec fn wf(self) -> bool {
        &&& 0 <= self.timer_ms <= POWERUP_DURATION_MS
        &&& self.active ==> self.timer_ms > 0
    }

    /// The idle slot a new world starts with.
    pub open spec fn spec_idle() -> PowerUp {
        PowerUp { active: false, kind: PowerUpKind::Shield, timer_ms: 0 }
    }

    /// Start the effect `kind`, overwriting any running effect and resetting
    /// the countdown.
    pub fn activate(&mut self, kind: PowerUpKind)
        ensures
            *final(self) == (PowerUp { active: true, kind, timer_ms: POWERUP_DURATION_MS }),
            final(self).wf(),
    {
        self.active = true;
        self.kind = kind;
        self.timer_ms = POWERUP_DURATION_MS;
    }

    /// Stop the effect and clear the countdown.
    pub fn deactivate(&mut self)
        ensures
            *final(self) == (PowerUp { active: false, kind: old(self).kind, timer_ms: 0 }),
            final(self).wf(),
    {
        self.active = false;
        self.timer_ms = 0;
    }

    /// What one frame does to the slot: the countdown runs and the effect
    /// switches itself off at zero.
    pub open spec fn spec_update(self, dt: int) -> PowerUp {
        if !self.active {
            self
        } else if self.timer_ms - dt <= 0 {
            PowerUp { active: false, kind: self.kind, timer_ms: 0 }
        } else {
            PowerUp { active: true, kind: self.kind, timer_ms: (self.timer_ms - dt) as i64 }
        }
    }

    /// Advance the countdown by `dt`.
    pub fn update(&mut self, dt: i64)
        requires
            old(self).wf(),
            0 <= dt <= MAX_FRAME_MS,
        ensures
            *final(self) == old(self).spec_update(dt as int),
            final(self).wf(),
    {
        if self.active {
            if self.timer_ms - dt <= 0 {
                self.active = false;
                self.timer_ms = 0;
            } else {
                self.timer_ms = self.timer_ms - dt;
            }
        }
    }
}

impl Default for PowerUp {
    /// An inactive slot.
    fn default() -> (r: Self)
        ensures
            r == PowerUp::spec_idle(),
            r.wf(),
    {
        PowerUp { active: false, kind: PowerUpKind::Shield, timer_ms: 0 }
    }
}

/// The aggregate root: one player, the effect pool, the entity lists, the
/// active power-up, the state machine, the difficulty curve and the
/// run-scoped counters. Every update pass mutates it in place.
#[derive(PartialEq, Eq, Debug)]
pub struct World {
    pub player: Player,
    pub particles: Vec<Particle>,
    pub obstacles: Vec<Obstacle>,
    pub collectibles: Vec<Collectible>,
    pub floating_texts: Vec<FloatingText>,
    pub power_up: PowerUp,
    pub state: GameState,
    pub difficulty: DifficultyTrack,
    pub menu_selected: usize,
    pub score_milli: i64,
    pub best_score_milli: i64,
    pub currency: u64,
    pub survival_time_ms: i64,
    pub slow_mo_milli: i64,
    pub streak_milli: i64,
    pub day_phase_micro: i64,
    pub pause_flash_milli: i64,
}

/// All obstacles of a list well-formed.
pub open spec fn obstacles_wf(s: Seq<Obstacle>) -> bool {
    forall|j: int| 0 <= j < s.len() ==> (#[trigger] s[j]).wf()
}

/// All collectibles of a list well-formed.
pub open spec fn collectibles_wf(s: Seq<Collectible>) -> bool {
    forall|j: int| 0 <= j < s.len() ==> (#[trigger] s[j]).wf()
}

/// The transient payload of each state variant inside its interval.
pub open spec fn state_wf(s: GameState) -> bool {
    match s {
        GameState::Splash { timer_ms } => 0 <= timer_ms <= SPLASH_TIME_MS + MAX_FRAME_MS,
        GameState::Menu { fade_milli } => 0 <= fade_milli <= 1_000,
        GameState::Running => true,
        GameState::Paused => true,
        GameState::GameOver { cooldown_ms } => 0 <= cooldown_ms <= GAME_OVER_COOLDOWN_MS,
    }
}

impl World {
    /// The world invariant: every component well-formed and every counter
    /// inside its stated interval. Each public update preserves it.
    pub open spec fn wf(self) -> bool {
        &&& self.player.wf()
        &&& self.particles@.len() == MAX_PARTICLES
        &&& pool_wf(self.particles@)
        &&& obstacles_wf(self.obstacles@)
        &&& collectibles_wf(self.collectibles@)
        &&& texts_wf(self.floating_texts@)
        &&& self.power_up.wf()
        &&& state_wf(self.state)
        &&& self.difficulty.wf()
        &&& self.menu_selected <= 2
        &&& 0 <= self.score_milli <= SCORE_CAP
        &&& 0 <= self.best_score_milli <= SCORE_CAP
        &&& 0 <= self.survival_time_ms <= TIME_CAP
        &&& (self.slow_mo_milli == 600 || self.slow_mo_milli == 1_000)
        &&& STREAK_MIN <= self.streak_milli <= STREAK_MAX
        &&& 0 <= self.day_phase_micro < DAY_PHASE_CYCLE
        &&& 0 <= self.pause_flash_milli <= 1_000
    }

    /// A fresh world on the splash screen, with an empty field, a full
    /// inactive particle pool and zeroed counters.
    pub fn new() -> (r: World)
        ensures
            r.player == Player::spec_initial(),
            r.particles@.len() == MAX_PARTICLES,
            forall|j: int|
                0 <= j < MAX_PARTICLES ==> r.particles@[j] == Particle::spec_inactive(),
            r.obstacles@ =~= Seq::<Obstacle>::empty(),
            r.collectibles@ =~= Seq::<Collectible>::empty(),
            r.floating_texts@ =~= Seq::<FloatingText>::empty(),
            r.power_up == PowerUp::spec_idle(),
            r.state == (GameState::Splash { timer_ms: 0i64 }),
            r.difficulty == (DifficultyTrack {
                time_ms: 0,
                base_spacing_ms: 1_400,
                obstacle_timer_ms: 1_600,
                collectible_timer_ms: 1_200,
            }),
            r.menu_selected == 0,
            r.score_milli == 0,
            r.best_score_milli == 0,
            r.currency == 0,
            r.survival_time_ms == 0,
            r.slow_mo_milli == 1_000,
            r.streak_milli == STREAK_MIN,
            r.day_phase_micro == 0,
            r.pause_flash_milli == 0,
            r.wf(),
    {
        let mut particles: Vec<Particle> = Vec::new();
        let mut i: usize = 0;
        while i < MAX_PARTICLES
            invariant
                i <= MAX_PARTICLES,
                particles@.len() == i,
                forall|j: int| 0 <= j < i ==> particles@[j] == Particle::spec_inactive(),
            decreases MAX_PARTICLES - i,
        {
            particles.push(Particle::inactive());
            i = i + 1;
        }
        World {
            player: Player::new(),
            particles,
            obstacles: Vec::new(),
            collectibles: Vec::new(),
            floating_texts: Vec::new(),
            power_up: PowerUp { active: false, kind: PowerUpKind::Shield, timer_ms: 0 },
            state: GameState::Splash { timer_ms: 0 },
            difficulty: DifficultyTrack::new(),
            menu_selected: 0,
            score_milli: 0,
            best_score_milli: 0,
            currency: 0,
            survival_time_ms: 0,
            slow_mo_milli: 1_000,
            streak_milli: STREAK_MIN,
            day_phase_micro: 0,
            pause_flash_milli: 0,
        }
    }

    /// Begin a new run: the player returns to the start, the field and the
    /// announcements clear, the power-up stops, the difficulty curve and the
    /// run counters rewind, and the day phase is re-rolled. Best score and
    /// currency persist (only the explicit progress reset clears those), as
    /// do the particle pool, the menu cursor and the state machine.
    pub fn reset_run(&mut self, draws: &FrameDraws)
        ensures
            final(self).player == Player::spec_initial(),
            final(self).obstacles@ =~= Seq::<Obstacle>::empty(),
            final(self).collectibles@ =~= Seq::<Collectible>::empty(),
            final(self).floating_texts@ =~= Seq::<FloatingText>::empty(),
            final(self).power_up == (PowerUp {
                active: false,
                kind: old(self).power_up.kind,
                timer_ms: 0,
            }),
            final(self).difficulty == (DifficultyTrack {
                time_ms: 0,
                base_spacing_ms: 1_400,
                obstacle_timer_ms: 1_600,
                collectible_timer_ms: 1_200,
            }),
            final(self).score_milli == 0,
            final(self).survival_time_ms == 0,
            final(self).slow_mo_milli == 1_000,
            final(self).streak_milli == STREAK_MIN,
            final(self).day_phase_micro == draws.day_phase_draw as int % DAY_PHASE_CYCLE as int,
            final(self).particles == old(self).particles,
            final(self).state == old(self).state,
            final(self).menu_selected == old(self).menu_selected,
            final(self).best_score_milli == old(self).best_score_milli,
            final(self).currency == old(self).currency,
            final(self).pause_flash_milli == old(self).pause_flash_milli,
            old(self).wf() ==> final(self).wf(),
    {
        self.player = Player::new();
        self.obstacles = Vec::new();
        self.collectibles = Vec::new();
        self.floating_texts = Vec::new();
        self.power_up.deactivate();
        self.difficulty = DifficultyTrack::new();
        self.score_milli = 0;
        self.survival_time_ms = 0;
        self.slow_mo_milli = 1_000;
        self.streak_milli = STREAK_MIN;
        self.day_phase_micro = (draws.day_phase_draw % (DAY_PHASE_CYCLE as u32)) as i64;
    }

    /// The numeric run-state a snapshot captures.
    pub open spec fn spec_run_snapshot(self) -> RunSnapshot {
        RunSnapshot {
            score_milli: self.score_milli,
            currency: self.currency,
            difficulty_time_ms: self.difficulty.time_ms,
            player_pos_x: self.player.pos_x,
            player_pos_y: self.player.pos_y,
            player_vel_x: self.player.vel_x,
            player_vel_y: self.player.vel_y,
        }
    }

    /// Capture the numeric run-state: score, currency, run time and the
    /// player's position and velocity.
    pub fn run_snapshot(&self) -> (s: RunSnapshot)
        ensures
            s == self.spec_run_snapshot(),
    {
        RunSnapshot {
            score_milli: self.score_milli,
            currency: self.currency,
            difficulty_time_ms: self.difficulty.time_ms,
            player_pos_x: self.player.pos_x,
            player_pos_y: self.player.pos_y,
            player_vel_x: self.player.vel_x,
            player_vel_y: self.player.vel_y,
        }
    }

    /// The world after restoring a snapshot: exactly the captured fields
    /// change, everything else stays.
    pub open spec fn spec_restore(self, s: RunSnapshot) -> World {
        World {
            score_milli: s.score_milli,
            currency: s.currency,
            difficulty: DifficultyTrack { time_ms: s.difficulty_time_ms, ..self.difficulty },
            player: Player {
                pos_x: s.player_pos_x,
                pos_y: s.player_pos_y,
                vel_x: s.player_vel_x,
                vel_y: s.player_vel_y,
                ..self.player
            },
            ..self
        }
    }

    /// Restore a previously captured run-state.
    pub fn restore_run_state(&mut self, s: &RunSnapshot)
        ensures
            *final(self) == old(self).spec_restore(*s),
            final(self).spec_run_snapshot() == *s,
            old(self).wf() && s.wf() ==> final(self).wf(),
    {
        self.score_milli = s.score_milli;
        self.currency = s.currency;
        self.difficulty.time_ms = s.difficulty_time_ms;
        self.player.pos_x = s.player_pos_x;
        self.player.pos_y = s.player_pos_y;
        self.player.vel_x = s.player_vel_x;
        self.player.vel_y = s.player_vel_y;
    }
}

/// The numeric run-state of a world: what a caller may capture and restore
/// to replay a run deterministically (together with the same frame deltas
/// and the same draws).
#[derive(Clone, Copy, PartialEq, Eq, Structural, Debug)]
pub struct RunSnapshot {
    pub score_milli: i64,
    pub currency: u64,
    pub difficulty_time_ms: i64,
    pub player_pos_x: i64,
    pub player_pos_y: i64,
    pub player_vel_x: i64,
    pub player_vel_y: i64,
}

impl RunSnapshot {
    /// Ranges under which restoring keeps the world invariant.
    pub open spec fn wf(self) -> bool {
        &&& 0 <= self.score_milli <= SCORE_CAP
        &&& 0 <= self.difficulty_time_ms <= TIME_CAP
        &&& -COORD_LIMIT <= self.player_pos_x <= COORD_LIMIT
        &&& -COORD_LIMIT <= self.player_pos_y <= COORD_LIMIT
        &&& 0 <= self.player_vel_x <= crate::constants::DASH_SPEED
        &&& crate::constants::JUMP_VEL <= self.player_vel_y <= crate::constants::TERMINAL_VEL
    }
}

/// Capturing and restoring commute: a snapshot read back out of a restored
/// world is the snapshot that was written, and restoring a world's own
/// snapshot leaves the world unchanged.
pub proof fn lemma_snapshot_round_trip(w: World, s: RunSnapshot)
    ensures
        w.spec_restore(s).spec_run_snapshot() == s,
        w.spec_restore(w.spec_run_snapshot()) == w,
{
}


/// The frame invariant in its observable terms: in every well-formed world
/// the stamina stays within [0, MAX_STAMINA], the combo within [0, 999],
/// the streak multiplier within [1.0, 3.0] (thousandths), and the day
/// phase within [0, 1) (millionths). Every public update keeps `wf`, so
/// these bounds hold after every frame.
pub proof fn lemma_run_state_bounds(w: World)
    requires
        w.wf(),
    ensures
        0 <= w.player.stamina <= crate::constants::MAX_STAMINA,
        0 <= w.player.combo <= crate::constants::MAX_COMBO,
        crate::constants::STREAK_MIN <= w.streak_milli <= crate::constants::STREAK_MAX,
        0 <= w.day_phase_micro < DAY_PHASE_CYCLE,
{
}

} // verus!
