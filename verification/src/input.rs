//! The input-to-intent mapper: plain key flags in, state machine and
//! player mutations out.

use vstd::prelude::*;
use crate::constants::{DASH_SPEED, DOUBLE_JUMP_VEL, JUMP_VEL, MAX_FRAME_MS, MAX_STAMINA,
    PLAYER_H, PLAYER_W};
use crate::particles::{spawn_dust, spawn_fills, ParticleColor};
use crate::player::Player;
use crate::rng::{FrameDraws, SeedStream};
use crate::types::{GameState, PlayerAction, PowerUpKind};
use crate::utils::{max_i64, min_i64, spec_clamp, spec_max_i, spec_min_i};
use crate::world::{PowerUp, World};

verus! {

/// The key facts one frame of input polling hands the simulation: which
/// keys were pressed this frame and which are held. The embedding program
/// fills one from the window's keyboard state.
#[derive(Clone, Copy, PartialEq, Eq, Structural, Debug)]
pub struct InputFrame {
    pub escape_pressed: bool,
    pub up_pressed: bool,
    pub down_pressed: bool,
    pub enter_pressed: bool,
    pub space_pressed: bool,
    pub w_pressed: bool,
    pub shift_held: bool,
    pub down_held: bool,
    pub s_held: bool,
}

impl InputFrame {
    /// A frame in which nothing is pressed or held.
    pub fn idle() -> (r: InputFrame)
        ensures
            r == (InputFrame {
                escape_pressed: false,
                up_pressed: false,
                down_pressed: false,
                enter_pressed: false,
                space_pressed: false,
                w_pressed: false,
                shift_held: false,
                down_held: false,
                s_held: false,
            }),
    {
        InputFrame {
            escape_pressed: false,
            up_pressed: false,
            down_pressed: false,
            enter_pressed: false,
            space_pressed: false,
            w_pressed: false,
            shift_held: false,
            down_held: false,
            s_held: false,
        }
    }

    /// Any of the jump keys pressed this frame.
    pub open spec fn spec_jump_pressed(self) -> bool {
        self.space_pressed || self.up_pressed || self.w_pressed
    }

    /// Any of the confirm keys pressed this frame.
    pub open spec fn spec_confirm_pressed(self) -> bool {
        self.enter_pressed || self.space_pressed
    }

    /// Any of the slide keys held this frame.
    pub open spec fn spec_slide_held(self) -> bool {
        self.down_held || self.s_held
    }
}

/// The state machine transition the pause key makes on its own: it toggles
/// between Running and Paused and does nothing elsewhere.
pub open spec fn spec_escape_state(s: GameState, pressed: bool) -> GameState {
    if pressed && s == GameState::Running {
        GameState::Paused
    } else if pressed && s == GameState::Paused {
        GameState::Running
    } else {
        s
    }
}

/// What the action keys do to the player during a Running frame: a jump
/// from the ground or a double jump in the air, dashing while the dash key
/// is held and stamina lasts (stamina regenerates otherwise), and a slide
/// while grounded with a slide key held.
pub open spec fn spec_player_after_input(p: Player, inp: InputFrame, dt: int,
    ground: int) -> Player {
    let grounded = p.spec_on_ground(ground);
    let p1 = if inp.spec_jump_pressed() && grounded {
        Player {
            vel_y: JUMP_VEL,
            action: PlayerAction::Jump,
            action_timer_ms: 320,
            can_double_jump: true,
            ..p
        }
    } else if inp.spec_jump_pressed() && p.can_double_jump {
        Player {
            vel_y: DOUBLE_JUMP_VEL,
            action: PlayerAction::DoubleJump,
            action_timer_ms: 280,
            can_double_jump: false,
            ..p
        }
    } else {
        p
    };
    let p2 = if inp.shift_held {
        if p1.stamina > 0 {
            Player {
                vel_x: DASH_SPEED,
                stamina: spec_max_i(p1.stamina - 48 * dt, 0) as i64,
                action: PlayerAction::Dash,
                action_timer_ms: 200,
                ..p1
            }
        } else {
            p1
        }
    } else {
        Player {
            stamina: spec_min_i(p1.stamina + 22 * dt, MAX_STAMINA as int) as i64,
            vel_x: 0,
            ..p1
        }
    };
    if inp.spec_slide_held() && grounded {
        Player { action: PlayerAction::Slide, action_timer_ms: 400, ..p2 }
    } else {
        p2
    }
}

/// Where a jump's dust is kicked up, and how much: at the feet for a ground
/// jump, at mid-body for a double jump; `None` when no dust is due.
pub open spec fn spec_dust_request(p: Player, inp: InputFrame, ground: int) -> Option<(int,
    int, int)> {
    if inp.spec_jump_pressed() && p.spec_on_ground(ground) {
        Some((p.pos_x + PLAYER_W / 2, p.pos_y + PLAYER_H, 8int))
    } else if inp.spec_jump_pressed() && p.can_double_jump {
        Some((p.pos_x + PLAYER_W / 2, p.pos_y + (PLAYER_H * 2) / 5, 6int))
    } else {
        None
    }
}

/// A world that has just been rewound for a new run (the image of
/// `World::reset_run`), with the given day-phase draw.
pub open spec fn spec_is_reset_run(w1: World, w0: World, day_draw: int) -> bool {
    &&& w1.player == Player::spec_initial()
    &&& w1.obstacles@ == Seq::<crate::obstacles::Obstacle>::empty()
    &&& w1.collectibles@ == Seq::<crate::collectibles::Collectible>::empty()
    &&& w1.floating_texts@ == Seq::<crate::types::FloatingText>::empty()
    &&& w1.power_up == (PowerUp { active: false, kind: w0.power_up.kind, timer_ms: 0 })
    &&& w1.difficulty == (crate::types::DifficultyTrack {
        time_ms: 0,
        base_spacing_ms: 1_400,
        obstacle_timer_ms: 1_600,
        collectible_timer_ms: 1_200,
    })
    &&& w1.score_milli == 0
    &&& w1.survival_time_ms == 0
    &&& w1.slow_mo_milli == 1_000
    &&& w1.streak_milli == 1_000
    &&& w1.day_phase_micro == day_draw % (crate::constants::DAY_PHASE_CYCLE as int)
    &&& w1.particles == w0.particles
}

/// What one frame of input does to the world, given the state after the
/// pause toggle. Keys act on the state the toggle produced, exactly as the
/// per-state rules say; everything not named stays as it was.
pub open spec fn spec_input_effect(w0: World, w1: World, inp: InputFrame, dt: int,
    draws: FrameDraws) -> bool {
    let s1 = spec_escape_state(w0.state, inp.escape_pressed);
    let flash1: int = if inp.escape_pressed && w0.state == GameState::Running {
        1_000
    } else {
        w0.pause_flash_milli as int
    };
    match s1 {
        GameState::Splash { timer_ms } => w1 == (World {
            state: s1,
            pause_flash_milli: flash1 as i64,
            ..w0
        }),
        GameState::Menu { fade_milli } => {
            let sel_u: int = if inp.up_pressed && w0.menu_selected > 0 {
                w0.menu_selected - 1
            } else {
                w0.menu_selected as int
            };
            let sel: int = if inp.down_pressed {
                spec_min_i(sel_u + 1, 2)
            } else {
                sel_u
            };
            if !inp.spec_confirm_pressed() {
                w1 == (World {
                    state: s1,
                    pause_flash_milli: flash1 as i64,
                    menu_selected: sel as usize,
                    ..w0
                })
            } else if sel == 0 {
                &&& spec_is_reset_run(w1, w0, draws.day_phase_draw as int)
                &&& w1 == (World {
                    player: w1.player,
                    obstacles: w1.obstacles,
                    collectibles: w1.collectibles,
                    floating_texts: w1.floating_texts,
                    power_up: w1.power_up,
                    difficulty: w1.difficulty,
                    score_milli: w1.score_milli,
                    survival_time_ms: w1.survival_time_ms,
                    slow_mo_milli: w1.slow_mo_milli,
                    streak_milli: w1.streak_milli,
                    day_phase_micro: w1.day_phase_micro,
                    state: GameState::Running,
                    menu_selected: sel as usize,
                    pause_flash_milli: flash1 as i64,
                    ..w0
                })
            } else if sel == 1 {
                w1 == (World {
                    state: s1,
                    pause_flash_milli: flash1 as i64,
                    menu_selected: sel as usize,
                    power_up: PowerUp {
                        active: true,
                        kind: PowerUpKind::Shield,
                        timer_ms: 100,
                    },
                    ..w0
                })
            } else {
                &&& spec_is_reset_run(w1, w0, draws.day_phase_draw as int)
                &&& w1 == (World {
                    player: w1.player,
                    obstacles: w1.obstacles,
                    collectibles: w1.collectibles,
                    floating_texts: w1.floating_texts,
                    power_up: w1.power_up,
                    difficulty: w1.difficulty,
                    score_milli: w1.score_milli,
                    survival_time_ms: w1.survival_time_ms,
                    slow_mo_milli: w1.slow_mo_milli,
                    streak_milli: w1.streak_milli,
                    day_phase_micro: w1.day_phase_micro,
                    state: s1,
                    menu_selected: sel as usize,
                    pause_flash_milli: flash1 as i64,
                    best_score_milli: 0,
                    currency: 0,
                    ..w0
                })
            }
        },
        GameState::Running => {
            let ground = crate::types::spec_ground_y(w0.difficulty.time_ms as int);
            &&& w1.player == spec_player_after_input(w0.player, inp, dt, ground)
            &&& (match spec_dust_request(w0.player, inp, ground) {
                Some(req) => spawn_fills(w0.particles@, w1.particles@, req.2, req.0, req.1,
                    -90_000, 90_000, -240_000, -120_000, 350, 600, ParticleColor::Dust),
                None => w1.particles@ == w0.particles@,
            })
            &&& w1 == (World {
                player: w1.player,
                particles: w1.particles,
                state: s1,
                pause_flash_milli: flash1 as i64,
                ..w0
            })
        },
        GameState::Paused => {
            let s2 = if inp.spec_confirm_pressed() {
                GameState::Running
            } else {
                GameState::Paused
            };
            w1 == (World { state: s2, pause_flash_milli: flash1 as i64, ..w0 })
        },
        GameState::GameOver { cooldown_ms } => {
            if cooldown_ms <= 0 {
                if inp.spec_confirm_pressed() {
                    let s2 = if inp.escape_pressed {
                        GameState::Menu { fade_milli: 0i64 }
                    } else {
                        GameState::Running
                    };
                    &&& spec_is_reset_run(w1, w0, draws.day_phase_draw as int)
                    &&& w1 == (World {
                        player: w1.player,
                        obstacles: w1.obstacles,
                        collectibles: w1.collectibles,
                        floating_texts: w1.floating_texts,
                        power_up: w1.power_up,
                        difficulty: w1.difficulty,
                        score_milli: w1.score_milli,
                        survival_time_ms: w1.survival_time_ms,
                        slow_mo_milli: w1.slow_mo_milli,
                        streak_milli: w1.streak_milli,
                        day_phase_micro: w1.day_phase_micro,
                        state: s2,
                        pause_flash_milli: flash1 as i64,
                        ..w0
                    })
                } else if inp.escape_pressed {
                    w1 == (World {
                        state: GameState::Menu { fade_milli: 0i64 },
                        pause_flash_milli: flash1 as i64,
                        ..w0
                    })
                } else {
                    w1 == (World { state: s1, pause_flash_milli: flash1 as i64, ..w0 })
                }
            } else {
                w1 == (World { state: s1, pause_flash_milli: flash1 as i64, ..w0 })
            }
        },
    }
}

/// Translate one frame of key state into simulation mutations: the pause
/// toggle, menu navigation and menu actions, the jump / dash / slide
/// intents of the player state machine, and the restart keys after a lost
/// run.
#[verifier::rlimit(100)]
#[verifier::spinoff_prover]
pub fn handle_input(world: &mut World, inp: &InputFrame, dt: i64, draws: &FrameDraws)
    requires
        old(world).wf(),
    ensures
        spec_input_effect(*old(world), *final(world), *inp, spec_clamp(dt as int, 0,
            MAX_FRAME_MS as int), *draws),
        final(world).wf(),
{
    let dtc: i64 = crate::utils::clamp_i64(dt, 0, MAX_FRAME_MS);
    if inp.escape_pressed {
        match world.state {
            GameState::Running => {
                world.state = GameState::Paused;
                world.pause_flash_milli = 1_000;
            },
            GameState::Paused => {
                world.state = GameState::Running;
            },
            _ => {},
        }
    }

    match world.state {
        GameState::Splash { .. } => {},
        GameState::Menu { .. } => {
            if inp.up_pressed && world.menu_selected > 0 {
                world.menu_selected = world.menu_selected - 1;
            }
            if inp.down_pressed && world.menu_selected < 2 {
                world.menu_selected = world.menu_selected + 1;
            }
            if inp.enter_pressed || inp.space_pressed {
                if world.menu_selected == 0 {
                    world.reset_run(draws);
                    world.state = GameState::Running;
                } else if world.menu_selected == 1 {
                    world.power_up.activate(PowerUpKind::Shield);
                    world.power_up.timer_ms = 100;
                } else {
                    world.reset_run(draws);
                    world.best_score_milli = 0;
                    world.currency = 0;
                }
            }
        },
        GameState::Running => {
            let ground: i64 = world.difficulty.ground_y();
            let jump_pressed = inp.space_pressed || inp.up_pressed || inp.w_pressed;
            let grounded = world.player.on_ground(ground);
            let mut stream = SeedStream::new(draws.particle_seed);
            if jump_pressed && grounded {
                world.player.vel_y = JUMP_VEL;
                world.player.action = PlayerAction::Jump;
                world.player.action_timer_ms = 320;
                world.player.can_double_jump = true;
                spawn_dust(&mut world.particles, world.player.pos_x + PLAYER_W / 2,
                    world.player.pos_y + PLAYER_H, 8, &mut stream);
            } else if jump_pressed && world.player.can_double_jump {
                world.player.vel_y = DOUBLE_JUMP_VEL;
                world.player.action = PlayerAction::DoubleJump;
                world.player.action_timer_ms = 280;
                world.player.can_double_jump = false;
                spawn_dust(&mut world.particles, world.player.pos_x + PLAYER_W / 2,
                    world.player.pos_y + (PLAYER_H * 2) / 5, 6, &mut stream);
            }
            if inp.shift_held {
                if world.player.stamina > 0 {
                    world.player.vel_x = DASH_SPEED;
                    world.player.stamina = max_i64(world.player.stamina - 48 * dtc, 0);
                    world.player.action = PlayerAction::Dash;
                    world.player.action_timer_ms = 200;
                }
            } else {
                world.player.stamina = min_i64(world.player.stamina + 22 * dtc, MAX_STAMINA);
                world.player.vel_x = 0;
            }
            if (inp.down_held || inp.s_held) && grounded {
                world.player.action = PlayerAction::Slide;
                world.player.action_timer_ms = 400;
            }
        },
        GameState::Paused => {
            if inp.space_pressed || inp.enter_pressed {
                world.state = GameState::Running;
            }
        },
        GameState::GameOver { cooldown_ms } => {
            if cooldown_ms <= 0 {
                if inp.space_pressed || inp.enter_pressed {
                    world.reset_run(draws);
                    world.state = GameState::Running;
                }
                if inp.escape_pressed {
                    world.state = GameState::Menu { fade_milli: 0 };
                }
            }
        },
    }
}

} // verus!
