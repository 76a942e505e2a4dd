use dino_run::collectibles::{choose_collectible_kind, Collectible};
use dino_run::collision::handle_collisions;
use dino_run::constants::{
    BASE_GROUND_Y, MAX_PARTICLES, MAX_STAMINA, PLAYER_H, PLAYER_W, POWERUP_DURATION_MS,
};
use dino_run::geom::Rect;
use dino_run::obstacles::{choose_obstacle_kind, Obstacle};
use dino_run::player::{update_player, Player};
use dino_run::rng::FrameDraws;
use dino_run::types::{
    CollectibleKind, DifficultyTrack, FloatingTextKind, GameState, ObstacleKind, PlayerAction,
    PowerUpKind,
};
use dino_run::particles::{update_particles, Particle, ParticleColor};
use dino_run::update::{update_collectibles, update_obstacles};
use dino_run::utils::{ease_out_quad, sin_milli};
use dino_run::world::{PowerUp, World};

fn running_world() -> World {
    let mut w = World::new();
    w.reset_run(&FrameDraws::zeroed());
    w.state = GameState::Running;
    w
}

fn coin_at(x: i64, y: i64) -> Collectible {
    Collectible {
        kind: CollectibleKind::Coin,
        rect: Rect::new(x, y, 24_000, 24_000),
        value: 20,
        float_phase_mrad: 0,
    }
}

fn gem_at(x: i64, y: i64) -> Collectible {
    Collectible {
        kind: CollectibleKind::Gem,
        rect: Rect::new(x, y, 30_000, 30_000),
        value: 120,
        float_phase_mrad: 0,
    }
}

fn crate_at(x: i64, y: i64) -> Obstacle {
    let rect = Rect::new(x, y, 60_000, 60_000);
    Obstacle {
        kind: ObstacleKind::Crate,
        rect,
        hurt_box: rect,
        saw_phase_mrad: 0,
    }
}

// --- difficulty curve -----------------------------------------------------

#[test]
fn scroll_speed_is_capped() {
    let mut d = DifficultyTrack::new();
    d.time_ms = 40_000;
    // min(360 + 40 * 12, 820) = 820 pixels per second, capped.
    assert_eq!(d.scroll_speed(), 820_000);
    d.time_ms = 10_000;
    assert_eq!(d.scroll_speed(), 480_000);
    d.time_ms = 0;
    assert_eq!(d.scroll_speed(), 360_000);
}

#[test]
fn obstacle_interval_is_floored() {
    let mut d = DifficultyTrack::new();
    d.time_ms = 100_000;
    // max(1.4 - 100 * 0.012, 0.62) = 0.62 seconds, floored.
    assert_eq!(d.obstacle_interval(), 620);
    d.time_ms = 0;
    assert_eq!(d.obstacle_interval(), 1_400);
}

#[test]
fn collectible_interval_at_start() {
    let d = DifficultyTrack::new();
    assert_eq!(d.collectible_interval(), 1_000);
}

#[test]
fn ground_y_follows_the_sine() {
    let mut d = DifficultyTrack::new();
    assert_eq!(d.ground_y(), BASE_GROUND_Y);
    // time 15_710 ms puts the phase at the crest of the wave.
    d.time_ms = 15_710;
    assert_eq!(d.ground_y(), BASE_GROUND_Y + 40_000);
}

#[test]
fn sine_hits_the_known_points() {
    assert_eq!(sin_milli(0), 0);
    assert_eq!(sin_milli(1_571), 1_000);
    assert_eq!(sin_milli(3_142), 0);
    assert_eq!(sin_milli(4_713), -1_000);
    for x in 0..6_283 {
        let s = sin_milli(x);
        assert!(-1_000 <= s && s <= 1_000);
    }
}

#[test]
fn ease_out_quad_curve() {
    assert_eq!(ease_out_quad(0), 0);
    assert_eq!(ease_out_quad(500), 750);
    assert_eq!(ease_out_quad(1_000), 1_000);
}

// --- kind selection -------------------------------------------------------

#[test]
fn obstacle_kinds_by_roll() {
    assert_eq!(choose_obstacle_kind(0, 0), ObstacleKind::Crate);
    assert_eq!(choose_obstacle_kind(0, 399), ObstacleKind::Crate);
    assert_eq!(choose_obstacle_kind(0, 450), ObstacleKind::Saw);
    // pits are withheld for the first twenty seconds.
    assert_eq!(choose_obstacle_kind(10_000, 700), ObstacleKind::Drone);
    assert_eq!(choose_obstacle_kind(30_000, 700), ObstacleKind::Pit);
    assert_eq!(choose_obstacle_kind(30_000, 900), ObstacleKind::Drone);
}

#[test]
fn collectible_kinds_by_roll() {
    assert_eq!(choose_collectible_kind(799), CollectibleKind::Coin);
    assert_eq!(choose_collectible_kind(800), CollectibleKind::Gem);
}

// --- spawn geometry -------------------------------------------------------

#[test]
fn crate_spawn_geometry() {
    let draws = FrameDraws {
        shape_a: 500,
        shape_b: 500,
        shape_c: 500,
        shape_d: 500,
        ..FrameDraws::zeroed()
    };
    let ob = Obstacle::new(ObstacleKind::Crate, BASE_GROUND_Y, &draws);
    assert_eq!(ob.rect.w, 72_000);
    assert_eq!(ob.rect.h, 77_000);
    assert_eq!(ob.rect.x, 1_100_000 + 72_000 + 60_000);
    assert_eq!(ob.rect.y, BASE_GROUND_Y - 77_000);
    assert_eq!(ob.hurt_box, ob.rect);
}

#[test]
fn saw_spawn_geometry() {
    let draws = FrameDraws {
        shape_a: 500,
        shape_b: 500,
        shape_c: 500,
        shape_d: 500,
        ..FrameDraws::zeroed()
    };
    let ob = Obstacle::new(ObstacleKind::Saw, BASE_GROUND_Y, &draws);
    assert_eq!(ob.rect.w, 78_000);
    assert_eq!(ob.rect.y, BASE_GROUND_Y - 78_000);
    // the hurt box is shrunk twelve pixels on each side.
    assert_eq!(ob.hurt_box.x, ob.rect.x + 12_000);
    assert_eq!(ob.hurt_box.w, 78_000 - 24_000);
    assert_eq!(ob.saw_phase_mrad, 3_141);
}

#[test]
fn coin_spawn_geometry() {
    let draws = FrameDraws {
        shape_a: 250,
        shape_b: 0,
        shape_c: 0,
        ..FrameDraws::zeroed()
    };
    let c = Collectible::new(CollectibleKind::Coin, BASE_GROUND_Y, &draws);
    assert_eq!(c.value, 20);
    assert_eq!(c.rect.x, 1_100_000 + 40_000 + 160 * 250);
    assert_eq!(c.rect.y, BASE_GROUND_Y - PLAYER_H - 40_000);
}

// --- player ---------------------------------------------------------------

#[test]
fn gravity_pulls_and_flags_the_fall() {
    let mut p = Player::new();
    p.pos_y = 200_000;
    update_player(&mut p, 100, BASE_GROUND_Y);
    assert_eq!(p.vel_y, 200_000);
    assert_eq!(p.pos_y, 220_000);
    // falling without a jump key still leaves Running.
    assert_eq!(p.action, PlayerAction::Jump);
}

#[test]
fn landing_snaps_to_the_ground() {
    let mut p = Player::new();
    p.pos_y = 430_000;
    p.vel_y = 900_000;
    p.can_double_jump = false;
    p.action = PlayerAction::DoubleJump;
    update_player(&mut p, 1_000, BASE_GROUND_Y);
    assert_eq!(p.pos_y, BASE_GROUND_Y - PLAYER_H);
    assert_eq!(p.vel_y, 0);
    assert!(p.can_double_jump);
    assert_eq!(p.action, PlayerAction::Running);
}

#[test]
fn slide_shrinks_the_hurt_rect() {
    let mut p = Player::new();
    p.action = PlayerAction::Slide;
    let r = p.rect();
    assert_eq!(r.y, p.pos_y + 25_200);
    assert_eq!(r.h, PLAYER_H - 25_200);
    assert_eq!(r.w, PLAYER_W);
}

#[test]
fn combo_saturates() {
    let mut p = Player::new();
    p.combo = 998;
    p.add_combo();
    assert_eq!(p.combo, 999);
    p.add_combo();
    assert_eq!(p.combo, 999);
    p.reset_combo();
    assert_eq!(p.combo, 0);
}

// --- collision and economy ------------------------------------------------

#[test]
fn coin_pickup_updates_the_economy() {
    let mut w = running_world();
    w.streak_milli = 1_500;
    let ground = w.difficulty.ground_y();
    w.collectibles.push(coin_at(160_000, 436_000));
    handle_collisions(&mut w, ground, &FrameDraws::zeroed());
    // a coin worth 20 at streak 1.5: score +30.0, currency +5, combo +1,
    // streak min(1.5 + 0.08, 3.0) = 1.58.
    assert_eq!(w.score_milli, 30_000);
    assert_eq!(w.currency, 5);
    assert_eq!(w.player.combo, 1);
    assert_eq!(w.streak_milli, 1_580);
    assert!(w.collectibles.is_empty());
    assert!(matches!(
        w.floating_texts.last().unwrap().kind,
        FloatingTextKind::Pickup { value: 20, gem: false }
    ));
    // the pickup claims its flash: 14 slots in the coin color.
    let flash: Vec<&Particle> = w.particles.iter().filter(|p| p.active).collect();
    assert_eq!(flash.len(), 14);
    assert!(flash.iter().all(|p| p.color == ParticleColor::Coin));
}

#[test]
fn pickups_resolve_in_descending_index_order() {
    let mut w = running_world();
    let ground = w.difficulty.ground_y();
    w.collectibles.push(coin_at(160_000, 436_000));
    w.collectibles.push(gem_at(170_000, 440_000));
    handle_collisions(&mut w, ground, &FrameDraws::zeroed());
    // the gem (highest index) is counted first at streak 1.0, then the
    // coin at the raised streak 1.08: 120.0 + 21.6 = 141.6.
    assert_eq!(w.score_milli, 141_600);
    assert_eq!(w.currency, 35);
    assert_eq!(w.player.combo, 2);
    assert_eq!(w.streak_milli, 1_160);
    assert!(w.collectibles.is_empty());
}

#[test]
fn missed_frame_decays_the_streak() {
    let mut w = running_world();
    let ground = w.difficulty.ground_y();
    w.streak_milli = 2_000;
    handle_collisions(&mut w, ground, &FrameDraws::zeroed());
    assert_eq!(w.streak_milli, 1_988);
    w.streak_milli = 1_005;
    handle_collisions(&mut w, ground, &FrameDraws::zeroed());
    assert_eq!(w.streak_milli, 1_000);
}

#[test]
fn pit_is_fatal_at_ground_level() {
    let mut w = running_world();
    let ground = w.difficulty.ground_y();
    w.score_milli = 100_000;
    w.player.combo = 3;
    // a pit spanning 500..650 pixels, with a decoy hurt box far away to
    // show the pit check ignores hurt-box geometry.
    let rect = Rect::new(500_000, ground - 4_000, 150_000, 32_000);
    w.obstacles.push(Obstacle {
        kind: ObstacleKind::Pit,
        rect,
        hurt_box: Rect::new(-900_000, -900_000, 1_000, 1_000),
        saw_phase_mrad: 0,
    });
    // the player overlaps horizontally, feet two pixels above the ground.
    w.player.pos_x = 520_000;
    w.player.pos_y = ground - PLAYER_H - 2_000;
    handle_collisions(&mut w, ground, &FrameDraws::zeroed());
    assert_eq!(w.state, GameState::GameOver { cooldown_ms: 800 });
    // currency gains floor(score / 10) + combo = 10 + 3.
    assert_eq!(w.currency, 13);
    assert_eq!(w.player.combo, 0);
    assert!(matches!(
        w.floating_texts.last().unwrap().kind,
        FloatingTextKind::RunLost
    ));
    // the death burst claims every free slot.
    assert!(w.particles.iter().all(|p| p.active && p.color == ParticleColor::Death));
}

#[test]
fn airborne_player_clears_the_pit() {
    let mut w = running_world();
    let ground = w.difficulty.ground_y();
    let rect = Rect::new(500_000, ground - 4_000, 150_000, 32_000);
    w.obstacles.push(Obstacle {
        kind: ObstacleKind::Pit,
        rect,
        hurt_box: rect,
        saw_phase_mrad: 0,
    });
    w.player.pos_x = 520_000;
    w.player.pos_y = ground - PLAYER_H - 10_000;
    handle_collisions(&mut w, ground, &FrameDraws::zeroed());
    assert_eq!(w.state, GameState::Running);
}

#[test]
fn first_obstacle_in_list_order_decides() {
    let mut w = running_world();
    let ground = w.difficulty.ground_y();
    w.power_up = PowerUp {
        active: true,
        kind: PowerUpKind::Shield,
        timer_ms: 5_000,
    };
    // both obstacles overlap the player; only the first is absorbed.
    let first = crate_at(150_000, 440_000);
    let second = crate_at(160_000, 450_000);
    w.obstacles.push(first);
    w.obstacles.push(second);
    handle_collisions(&mut w, ground, &FrameDraws::zeroed());
    assert_eq!(w.obstacles.len(), 1);
    assert_eq!(w.obstacles[0], second);
    assert_eq!(w.state, GameState::Running);
}

#[test]
fn shield_absorbs_exactly_one_hit() {
    let mut w = running_world();
    let ground = w.difficulty.ground_y();
    w.player.combo = 7;
    w.power_up = PowerUp {
        active: true,
        kind: PowerUpKind::Shield,
        timer_ms: 5_000,
    };
    w.obstacles.push(crate_at(150_000, 440_000));
    handle_collisions(&mut w, ground, &FrameDraws::zeroed());
    // the run goes on: the shield and the obstacle are both consumed, the
    // combo breaks, and no death is recorded.
    assert_eq!(w.state, GameState::Running);
    assert!(w.obstacles.is_empty());
    assert!(!w.power_up.active);
    assert_eq!(w.player.combo, 0);
    // the absorption scatters its burst: 32 slots in the shield profile.
    let burst: Vec<&Particle> = w.particles.iter().filter(|p| p.active).collect();
    assert_eq!(burst.len(), 32);
    assert!(burst.iter().all(|p| p.color == ParticleColor::ShieldBurst));
}

#[test]
fn shield_does_not_absorb_a_pit() {
    let mut w = running_world();
    let ground = w.difficulty.ground_y();
    w.power_up = PowerUp {
        active: true,
        kind: PowerUpKind::Shield,
        timer_ms: 5_000,
    };
    w.score_milli = 50_000;
    let rect = Rect::new(100_000, ground - 4_000, 300_000, 32_000);
    w.obstacles.push(Obstacle {
        kind: ObstacleKind::Pit,
        rect,
        hurt_box: rect,
        saw_phase_mrad: 0,
    });
    w.player.pos_y = ground - PLAYER_H;
    handle_collisions(&mut w, ground, &FrameDraws::zeroed());
    // a pit is fatal whatever is active: the run ends, the pit stays, and
    // the shield is not consumed.
    assert_eq!(w.state, GameState::GameOver { cooldown_ms: 800 });
    assert_eq!(w.obstacles.len(), 1);
    assert!(w.power_up.active);
    assert_eq!(w.power_up.timer_ms, 5_000);
    assert_eq!(w.currency, 5);
}

#[test]
fn unshielded_hit_ends_the_run() {
    let mut w = running_world();
    let ground = w.difficulty.ground_y();
    w.obstacles.push(crate_at(150_000, 440_000));
    w.collectibles.push(coin_at(160_000, 436_000));
    handle_collisions(&mut w, ground, &FrameDraws::zeroed());
    assert_eq!(w.state, GameState::GameOver { cooldown_ms: 800 });
    // no pickups happen on the death frame.
    assert_eq!(w.collectibles.len(), 1);
    assert_eq!(w.score_milli, 0);
    assert_eq!(w.obstacles.len(), 1);
}

#[test]
fn powerup_roll_activates_on_rare_draw() {
    let mut w = running_world();
    let ground = w.difficulty.ground_y();
    let mut draws = FrameDraws::zeroed();
    draws.powerup_roll = 996;
    draws.powerup_kind_roll = 0;
    handle_collisions(&mut w, ground, &draws);
    assert!(w.power_up.active);
    assert_eq!(w.power_up.kind, PowerUpKind::Shield);
    assert_eq!(w.power_up.timer_ms, POWERUP_DURATION_MS);
    assert!(matches!(
        w.floating_texts.last().unwrap().kind,
        FloatingTextKind::PowerUpLabel { kind: PowerUpKind::Shield }
    ));

    let mut w2 = running_world();
    let mut draws2 = FrameDraws::zeroed();
    draws2.powerup_roll = 995;
    handle_collisions(&mut w2, ground, &draws2);
    assert!(!w2.power_up.active);
}

#[test]
fn powerup_kind_thresholds() {
    let ground = BASE_GROUND_Y;
    for (roll, kind) in [
        (0, PowerUpKind::Shield),
        (399, PowerUpKind::Shield),
        (400, PowerUpKind::ScoreBoost),
        (749, PowerUpKind::ScoreBoost),
        (750, PowerUpKind::TimeSlow),
    ] {
        let mut w = running_world();
        let mut draws = FrameDraws::zeroed();
        draws.powerup_roll = 999;
        draws.powerup_kind_roll = roll;
        handle_collisions(&mut w, ground, &draws);
        assert_eq!(w.power_up.kind, kind);
    }
}

#[test]
fn streak_caps_at_three() {
    let mut w = running_world();
    let ground = w.difficulty.ground_y();
    w.streak_milli = 2_990;
    w.collectibles.push(coin_at(160_000, 436_000));
    handle_collisions(&mut w, ground, &FrameDraws::zeroed());
    assert_eq!(w.streak_milli, 3_000);
}

// --- powerup timer --------------------------------------------------------

#[test]
fn powerup_expires_at_zero() {
    let mut pu = PowerUp {
        active: true,
        kind: PowerUpKind::ScoreBoost,
        timer_ms: 100,
    };
    pu.update(99);
    assert!(pu.active);
    assert_eq!(pu.timer_ms, 1);
    pu.update(200);
    assert!(!pu.active);
    assert_eq!(pu.timer_ms, 0);
}

// --- spawning and culling -------------------------------------------------

#[test]
fn expired_countdown_spawns_an_obstacle() {
    let mut w = running_world();
    let ground = w.difficulty.ground_y();
    w.difficulty.obstacle_timer_ms = 100;
    update_obstacles(&mut w, 200, ground, &FrameDraws::zeroed());
    assert_eq!(w.obstacles.len(), 1);
    assert_eq!(w.obstacles[0].kind, ObstacleKind::Crate);
    // the fresh crate already scrolled this frame: 360 px/s over 0.2 s.
    assert_eq!(w.obstacles[0].rect.x, 1_152_000 - 72_000);
    // the countdown re-arms with the full interval (no jitter drawn).
    assert_eq!(w.difficulty.obstacle_timer_ms, 1_400);
}

#[test]
fn offscreen_obstacles_are_culled_exactly_once() {
    let mut w = running_world();
    let ground = w.difficulty.ground_y();
    // fully past the 200 pixel margin: removed.
    w.obstacles.push(crate_at(-300_000, 440_000));
    // partially visible: kept.
    w.obstacles.push(crate_at(-100_000, 440_000));
    update_obstacles(&mut w, 0, ground, &FrameDraws::zeroed());
    assert_eq!(w.obstacles.len(), 1);
    assert_eq!(w.obstacles[0].rect.x, -100_000);
    // culling again removes nothing further.
    update_obstacles(&mut w, 0, ground, &FrameDraws::zeroed());
    assert_eq!(w.obstacles.len(), 1);
}

#[test]
fn offscreen_collectibles_use_their_own_margin() {
    let mut w = running_world();
    let ground = w.difficulty.ground_y();
    w.difficulty.collectible_timer_ms = 2_000;
    // past the 60 pixel margin: removed.
    w.collectibles.push(coin_at(-90_000, 300_000));
    // not yet past it: kept.
    w.collectibles.push(coin_at(-80_000, 300_000));
    update_collectibles(&mut w, 0, ground, &FrameDraws::zeroed());
    assert_eq!(w.collectibles.len(), 1);
    assert_eq!(w.collectibles[0].rect.x, -80_000);
}

// --- world ----------------------------------------------------------------

#[test]
fn new_world_starts_on_the_splash_screen() {
    let w = World::new();
    assert_eq!(w.state, GameState::Splash { timer_ms: 0 });
    assert_eq!(w.particles.len(), MAX_PARTICLES);
    assert!(w.particles.iter().all(|p| !p.active));
    assert_eq!(w.score_milli, 0);
    assert_eq!(w.currency, 0);
    assert_eq!(w.streak_milli, 1_000);
    assert_eq!(w.player.stamina, MAX_STAMINA);
    assert_eq!(w.player.vel_x, 0);
}

#[test]
fn reset_run_rewinds_the_run_but_keeps_progress() {
    let mut w = running_world();
    w.score_milli = 55_000;
    w.best_score_milli = 90_000;
    w.currency = 42;
    w.survival_time_ms = 9_000;
    w.streak_milli = 2_500;
    w.obstacles.push(crate_at(500_000, 400_000));
    w.collectibles.push(coin_at(700_000, 300_000));
    w.power_up = PowerUp {
        active: true,
        kind: PowerUpKind::TimeSlow,
        timer_ms: 3_000,
    };
    w.difficulty.time_ms = 9_000;
    let draws = FrameDraws {
        day_phase_draw: 123_456,
        ..FrameDraws::zeroed()
    };
    w.reset_run(&draws);
    assert_eq!(w.score_milli, 0);
    assert!(w.obstacles.is_empty());
    assert!(w.collectibles.is_empty());
    assert!(w.floating_texts.is_empty());
    assert!(!w.power_up.active);
    assert_eq!(w.player, Player::new());
    assert_eq!(w.difficulty, DifficultyTrack::new());
    assert_eq!(w.survival_time_ms, 0);
    assert_eq!(w.streak_milli, 1_000);
    assert_eq!(w.day_phase_micro, 123_456);
    // best score and currency persist across a plain run reset.
    assert_eq!(w.best_score_milli, 90_000);
    assert_eq!(w.currency, 42);
}

// --- motion and animation -------------------------------------------------

#[test]
fn obstacles_scroll_and_saws_turn() {
    let draws = FrameDraws::zeroed();
    let mut ob = Obstacle::new(ObstacleKind::Saw, BASE_GROUND_Y, &draws);
    let x0 = ob.rect.x;
    ob.update(1_000, 360_000);
    assert_eq!(ob.rect.x, x0 - 360_000);
    // the blade turns 6.4 milli-radians per millisecond, wrapping the circle.
    assert_eq!(ob.saw_phase_mrad, 6_400 % 6_283);
}

#[test]
fn collectibles_scroll_and_bob() {
    let draws = FrameDraws::zeroed();
    let mut c = Collectible::new(CollectibleKind::Coin, BASE_GROUND_Y, &draws);
    let x0 = c.rect.x;
    c.update(500, 400_000);
    assert_eq!(c.rect.x, x0 - 200_000);
    assert_eq!(c.float_phase_mrad, 1_500);
}

#[test]
fn particles_age_and_free_their_slot() {
    let mut pool = vec![
        Particle {
            active: true,
            pos_x: 0,
            pos_y: 0,
            vel_x: 100_000,
            vel_y: 0,
            lifetime_ms: 1_000,
            max_lifetime_ms: 1_000,
            color: ParticleColor::Dust,
        },
        Particle {
            active: true,
            pos_x: 0,
            pos_y: 0,
            vel_x: 0,
            vel_y: 0,
            lifetime_ms: 100,
            max_lifetime_ms: 1_000,
            color: ParticleColor::Death,
        },
    ];
    update_particles(&mut pool, 200, 500_000);
    // the first integrates its velocity, takes scroll drag and gravity.
    assert!(pool[0].active);
    assert_eq!(pool[0].pos_x, 20_000);
    assert_eq!(pool[0].vel_x, 100_000 - 500_000 * 32 * 200 / 100_000);
    assert_eq!(pool[0].vel_y, 520 * 200);
    assert_eq!(pool[0].lifetime_ms, 800);
    // the second ran out of life and frees its slot.
    assert!(!pool[1].active);
}
