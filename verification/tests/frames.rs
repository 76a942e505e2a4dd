use dino_run::collision::handle_collisions;
use dino_run::constants::{BASE_GROUND_Y, DASH_SPEED, MAX_STAMINA, PLAYER_H};
use dino_run::input::{handle_input, InputFrame};
use dino_run::rng::{FrameDraws, SeedStream};
use dino_run::types::{GameState, PlayerAction, PowerUpKind};
use dino_run::update::update_world;
use dino_run::world::{PowerUp, RunSnapshot, World};

fn running_world() -> World {
    let mut w = World::new();
    w.reset_run(&FrameDraws::zeroed());
    w.state = GameState::Running;
    w
}

// --- the top-level state machine ------------------------------------------

#[test]
fn splash_times_out_into_the_menu() {
    let mut w = World::new();
    update_world(&mut w, 1_000, &FrameDraws::zeroed());
    assert_eq!(w.state, GameState::Splash { timer_ms: 1_000 });
    update_world(&mut w, 1_000, &FrameDraws::zeroed());
    assert_eq!(w.state, GameState::Splash { timer_ms: 2_000 });
    update_world(&mut w, 1_000, &FrameDraws::zeroed());
    assert_eq!(w.state, GameState::Menu { fade_milli: 0 });
}

#[test]
fn menu_fades_in_and_cycles_the_day() {
    let mut w = World::new();
    w.state = GameState::Menu { fade_milli: 0 };
    update_world(&mut w, 700, &FrameDraws::zeroed());
    assert_eq!(w.state, GameState::Menu { fade_milli: 500 });
    assert_eq!(w.day_phase_micro, 15_555);
    update_world(&mut w, 1_000, &FrameDraws::zeroed());
    // the fade clamps at one.
    assert_eq!(w.state, GameState::Menu { fade_milli: 1_000 });
}

#[test]
fn pause_freezes_everything_but_the_flash() {
    let mut w = running_world();
    w.state = GameState::Paused;
    w.pause_flash_milli = 1_000;
    w.score_milli = 77_000;
    w.survival_time_ms = 5_000;
    let before_difficulty = w.difficulty;
    update_world(&mut w, 300, &FrameDraws::zeroed());
    assert_eq!(w.pause_flash_milli, 700);
    assert_eq!(w.score_milli, 77_000);
    assert_eq!(w.survival_time_ms, 5_000);
    assert_eq!(w.difficulty, before_difficulty);
    assert_eq!(w.state, GameState::Paused);
}

#[test]
fn game_over_cools_down_at_real_time() {
    let mut w = running_world();
    w.state = GameState::GameOver { cooldown_ms: 800 };
    update_world(&mut w, 500, &FrameDraws::zeroed());
    assert_eq!(w.state, GameState::GameOver { cooldown_ms: 300 });
    update_world(&mut w, 500, &FrameDraws::zeroed());
    assert_eq!(w.state, GameState::GameOver { cooldown_ms: 0 });
}

#[test]
fn running_frame_advances_the_clocks() {
    let mut w = running_world();
    update_world(&mut w, 1_000, &FrameDraws::zeroed());
    assert_eq!(w.difficulty.time_ms, 1_000);
    assert_eq!(w.survival_time_ms, 1_000);
    // score accrues from the scrolled distance at the advanced clock:
    // 372 px/s for one second at streak 1.0 gives 18.6 points.
    assert_eq!(w.score_milli, 18_600);
    assert_eq!(w.best_score_milli, w.score_milli);
}

#[test]
fn frame_delta_is_clamped() {
    let mut w = running_world();
    // an absurd debugger-pause delta advances the clocks by at most one
    // second and breaks no invariant.
    update_world(&mut w, 3_600_000, &FrameDraws::zeroed());
    assert_eq!(w.difficulty.time_ms, 1_000);
    let mut w2 = running_world();
    update_world(&mut w2, -50, &FrameDraws::zeroed());
    assert_eq!(w2.difficulty.time_ms, 0);
}

#[test]
fn slow_time_scales_the_whole_frame() {
    let mut w = running_world();
    w.power_up = PowerUp {
        active: true,
        kind: PowerUpKind::TimeSlow,
        timer_ms: 6_000,
    };
    update_world(&mut w, 1_000, &FrameDraws::zeroed());
    assert_eq!(w.difficulty.time_ms, 600);
    assert_eq!(w.survival_time_ms, 600);
    assert_eq!(w.power_up.timer_ms, 6_000 - 600);
    assert_eq!(w.slow_mo_milli, 600);
}

// --- input mapping --------------------------------------------------------

#[test]
fn escape_toggles_pause() {
    let mut w = running_world();
    let esc = InputFrame {
        escape_pressed: true,
        ..InputFrame::idle()
    };
    handle_input(&mut w, &esc, 16, &FrameDraws::zeroed());
    assert_eq!(w.state, GameState::Paused);
    assert_eq!(w.pause_flash_milli, 1_000);
    handle_input(&mut w, &esc, 16, &FrameDraws::zeroed());
    assert_eq!(w.state, GameState::Running);
}

#[test]
fn jump_from_the_ground() {
    let mut w = running_world();
    let jump = InputFrame {
        space_pressed: true,
        ..InputFrame::idle()
    };
    handle_input(&mut w, &jump, 16, &FrameDraws::zeroed());
    assert_eq!(w.player.vel_y, -820_000);
    assert_eq!(w.player.action, PlayerAction::Jump);
    assert_eq!(w.player.action_timer_ms, 320);
    assert!(w.player.can_double_jump);
    // the jump kicks up eight dust particles.
    assert_eq!(w.particles.iter().filter(|p| p.active).count(), 8);
}

#[test]
fn double_jump_spends_the_flag() {
    let mut w = running_world();
    w.player.pos_y = 300_000;
    let jump = InputFrame {
        up_pressed: true,
        ..InputFrame::idle()
    };
    handle_input(&mut w, &jump, 16, &FrameDraws::zeroed());
    assert_eq!(w.player.vel_y, -780_000);
    assert_eq!(w.player.action, PlayerAction::DoubleJump);
    assert!(!w.player.can_double_jump);
    assert_eq!(w.particles.iter().filter(|p| p.active).count(), 6);
    // a second press in the air does nothing.
    let before = w.player;
    handle_input(&mut w, &jump, 0, &FrameDraws::zeroed());
    assert_eq!(w.player.vel_y, before.vel_y);
    assert_eq!(w.player.action, PlayerAction::DoubleJump);
}

#[test]
fn dash_drains_and_rest_restores_stamina() {
    let mut w = running_world();
    let dash = InputFrame {
        shift_held: true,
        ..InputFrame::idle()
    };
    handle_input(&mut w, &dash, 1_000, &FrameDraws::zeroed());
    assert_eq!(w.player.vel_x, DASH_SPEED);
    assert_eq!(w.player.stamina, MAX_STAMINA - 48_000);
    assert_eq!(w.player.action, PlayerAction::Dash);
    assert_eq!(w.player.action_timer_ms, 200);
    handle_input(&mut w, &InputFrame::idle(), 1_000, &FrameDraws::zeroed());
    assert_eq!(w.player.vel_x, 0);
    assert_eq!(w.player.stamina, MAX_STAMINA - 48_000 + 22_000);
    // stamina never goes below zero.
    w.player.stamina = 1;
    handle_input(&mut w, &dash, 1_000, &FrameDraws::zeroed());
    assert_eq!(w.player.stamina, 0);
}

#[test]
fn slide_requires_the_ground() {
    let mut w = running_world();
    let slide = InputFrame {
        s_held: true,
        ..InputFrame::idle()
    };
    handle_input(&mut w, &slide, 16, &FrameDraws::zeroed());
    assert_eq!(w.player.action, PlayerAction::Slide);
    assert_eq!(w.player.action_timer_ms, 400);

    let mut w2 = running_world();
    w2.player.pos_y = 300_000;
    handle_input(&mut w2, &slide, 16, &FrameDraws::zeroed());
    assert_eq!(w2.player.action, PlayerAction::Running);
}

#[test]
fn menu_navigation_and_start() {
    let mut w = World::new();
    w.state = GameState::Menu { fade_milli: 1_000 };
    let down = InputFrame {
        down_pressed: true,
        ..InputFrame::idle()
    };
    handle_input(&mut w, &down, 16, &FrameDraws::zeroed());
    assert_eq!(w.menu_selected, 1);
    handle_input(&mut w, &down, 16, &FrameDraws::zeroed());
    handle_input(&mut w, &down, 16, &FrameDraws::zeroed());
    // the cursor saturates at the last entry.
    assert_eq!(w.menu_selected, 2);
    let up = InputFrame {
        up_pressed: true,
        ..InputFrame::idle()
    };
    handle_input(&mut w, &up, 16, &FrameDraws::zeroed());
    handle_input(&mut w, &up, 16, &FrameDraws::zeroed());
    handle_input(&mut w, &up, 16, &FrameDraws::zeroed());
    assert_eq!(w.menu_selected, 0);
    // confirming the first entry starts a run.
    let enter = InputFrame {
        enter_pressed: true,
        ..InputFrame::idle()
    };
    handle_input(&mut w, &enter, 16, &FrameDraws::zeroed());
    assert_eq!(w.state, GameState::Running);
    assert_eq!(w.score_milli, 0);
}

#[test]
fn menu_shield_purchase_is_brief() {
    let mut w = World::new();
    w.state = GameState::Menu { fade_milli: 1_000 };
    w.menu_selected = 1;
    let enter = InputFrame {
        enter_pressed: true,
        ..InputFrame::idle()
    };
    handle_input(&mut w, &enter, 16, &FrameDraws::zeroed());
    assert!(w.power_up.active);
    assert_eq!(w.power_up.kind, PowerUpKind::Shield);
    assert_eq!(w.power_up.timer_ms, 100);
    assert_eq!(w.state, GameState::Menu { fade_milli: 1_000 });
}

#[test]
fn progress_reset_clears_best_and_currency() {
    let mut w = World::new();
    w.state = GameState::Menu { fade_milli: 1_000 };
    w.menu_selected = 2;
    w.best_score_milli = 500_000;
    w.currency = 77;
    let enter = InputFrame {
        space_pressed: true,
        ..InputFrame::idle()
    };
    handle_input(&mut w, &enter, 16, &FrameDraws::zeroed());
    assert_eq!(w.best_score_milli, 0);
    assert_eq!(w.currency, 0);
    assert_eq!(w.score_milli, 0);
    // the reset stays on the menu.
    assert_eq!(w.state, GameState::Menu { fade_milli: 1_000 });
}

#[test]
fn restart_waits_for_the_cooldown() {
    let mut w = running_world();
    w.state = GameState::GameOver { cooldown_ms: 300 };
    let space = InputFrame {
        space_pressed: true,
        ..InputFrame::idle()
    };
    handle_input(&mut w, &space, 16, &FrameDraws::zeroed());
    assert_eq!(w.state, GameState::GameOver { cooldown_ms: 300 });
    w.state = GameState::GameOver { cooldown_ms: 0 };
    handle_input(&mut w, &space, 16, &FrameDraws::zeroed());
    assert_eq!(w.state, GameState::Running);
    assert_eq!(w.score_milli, 0);

    let mut w2 = running_world();
    w2.state = GameState::GameOver { cooldown_ms: 0 };
    let esc = InputFrame {
        escape_pressed: true,
        ..InputFrame::idle()
    };
    handle_input(&mut w2, &esc, 16, &FrameDraws::zeroed());
    assert_eq!(w2.state, GameState::Menu { fade_milli: 0 });
}

// --- determinism and the run-state snapshot -------------------------------

#[test]
fn same_inputs_replay_the_same_run() {
    let mut w1 = running_world();
    let mut w2 = running_world();
    let deltas = [16i64, 1_000, 42, 0, 333, 1_000, 16, 250];
    for (i, dt) in deltas.iter().enumerate() {
        let draws = FrameDraws {
            obstacle_jitter_ms: -100,
            collectible_jitter_ms: 200,
            obstacle_kind_roll: (i as u32) * 321,
            collectible_kind_roll: (i as u32) * 77,
            powerup_roll: 990,
            powerup_kind_roll: 5,
            shape_a: 11,
            shape_b: 22,
            shape_c: 33,
            shape_d: 44,
            particle_seed: 9_000 + i as u32,
            day_phase_draw: 0,
        };
        update_world(&mut w1, *dt, &draws);
        update_world(&mut w2, *dt, &draws);
    }
    // the whole world agrees, the numeric run-state in particular.
    assert_eq!(w1, w2);
    assert_eq!(w1.run_snapshot(), w2.run_snapshot());
}

#[test]
fn snapshot_restores_the_numeric_run_state() {
    let mut w = running_world();
    for _ in 0..5 {
        update_world(&mut w, 500, &FrameDraws::zeroed());
    }
    let snap = w.run_snapshot();
    assert_eq!(snap.difficulty_time_ms, 2_500);
    // play on, then rewind the numeric state.
    update_world(&mut w, 1_000, &FrameDraws::zeroed());
    assert!(w.run_snapshot() != snap);
    w.restore_run_state(&snap);
    assert_eq!(w.run_snapshot(), snap);
    assert_eq!(w.score_milli, snap.score_milli);
    assert_eq!(w.currency, snap.currency);
    assert_eq!(w.difficulty.time_ms, snap.difficulty_time_ms);
    assert_eq!(w.player.pos_x, snap.player_pos_x);
    assert_eq!(w.player.pos_y, snap.player_pos_y);
}

#[test]
fn restored_snapshot_replays_identically() {
    // two worlds, the second behind by one restore: replaying the same
    // frames from the same numeric state gives the same numeric state.
    let mut w1 = running_world();
    update_world(&mut w1, 400, &FrameDraws::zeroed());
    let snap = w1.run_snapshot();
    let mut w2 = running_world();
    w2.restore_run_state(&snap);
    assert_eq!(w2.run_snapshot(), snap);
    update_world(&mut w1, 700, &FrameDraws::zeroed());
    update_world(&mut w2, 700, &FrameDraws::zeroed());
    assert_eq!(w1.run_snapshot(), w2.run_snapshot());
}

// --- the raw draw plumbing ------------------------------------------------

#[test]
fn fresh_draws_land_in_their_ranges() {
    for _ in 0..64 {
        let d = FrameDraws::fresh();
        assert!(-220 <= d.obstacle_jitter_ms && d.obstacle_jitter_ms <= 280);
        assert!(-300 <= d.collectible_jitter_ms && d.collectible_jitter_ms <= 500);
        assert!(d.day_phase_draw < 1_000_000);
    }
}

#[test]
fn seed_stream_is_deterministic_and_bounded() {
    let mut a = SeedStream::new(1234);
    let mut b = SeedStream::new(1234);
    for _ in 0..32 {
        let x = a.next_unit();
        let y = b.next_unit();
        assert_eq!(x, y);
        assert!(x < 1_000);
    }
    // particles drawn from a fresh stream vary over time.
    let mut c = SeedStream::new(0);
    let first = c.next_unit();
    let mut varied = false;
    for _ in 0..16 {
        if c.next_unit() != first {
            varied = true;
        }
    }
    assert!(varied);
}

#[test]
fn death_frame_still_accrues_survival_score() {
    // the run-ending frame finishes its bookkeeping: the frame's own score
    // accrual and the best-score update still happen after the death.
    let mut w = running_world();
    let ground = w.difficulty.ground_y();
    let rect = dino_run::geom::Rect::new(0, ground - 4_000, 1_000_000, 32_000);
    w.obstacles.push(dino_run::obstacles::Obstacle {
        kind: dino_run::types::ObstacleKind::Pit,
        rect,
        hurt_box: rect,
        saw_phase_mrad: 0,
    });
    update_world(&mut w, 16, &FrameDraws::zeroed());
    assert_eq!(w.state, GameState::GameOver { cooldown_ms: 800 });
    assert!(w.score_milli > 0);
    assert_eq!(w.best_score_milli, w.score_milli);
}

#[test]
fn slow_time_scales_motion_once() {
    let mut w = running_world();
    w.power_up = PowerUp {
        active: true,
        kind: PowerUpKind::TimeSlow,
        timer_ms: 6_000,
    };
    let rect = dino_run::geom::Rect::new(800_000, 100_000, 60_000, 60_000);
    w.obstacles.push(dino_run::obstacles::Obstacle {
        kind: dino_run::types::ObstacleKind::Crate,
        rect,
        hurt_box: rect,
        saw_phase_mrad: 0,
    });
    update_world(&mut w, 1_000, &FrameDraws::zeroed());
    // the 0.6 scale enters once, through the frame delta: the crate covers
    // 367.2 px/s for 0.6 s, not 0.36 of a second's worth.
    assert_eq!(w.obstacles.len(), 1);
    assert_eq!(w.obstacles[0].rect.x, 800_000 - 220_320);
}

#[test]
fn floating_texts_fade_at_real_time_under_slow_time() {
    let mut w = running_world();
    w.power_up = PowerUp {
        active: true,
        kind: PowerUpKind::TimeSlow,
        timer_ms: 6_000,
    };
    w.floating_texts.push(dino_run::types::FloatingText {
        kind: dino_run::types::FloatingTextKind::RunLost,
        pos_x: 500_000,
        pos_y: 300_000,
        vel_x: 0,
        vel_y: -28_000,
        timer_ms: 1_000,
        max_timer_ms: 1_600,
    });
    w.floating_texts.push(dino_run::types::FloatingText {
        kind: dino_run::types::FloatingTextKind::RunLost,
        pos_x: 500_000,
        pos_y: 300_000,
        vel_x: 0,
        vel_y: -28_000,
        timer_ms: 1_500,
        max_timer_ms: 1_600,
    });
    update_world(&mut w, 1_000, &FrameDraws::zeroed());
    // the fade ignores the slow-time scale: a full second passes for the
    // announcements, expiring the first and leaving the second half a
    // second.
    assert_eq!(w.floating_texts.len(), 1);
    assert_eq!(w.floating_texts[0].timer_ms, 500);
}
