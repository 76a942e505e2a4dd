//! The per-frame world transition: spawn passes, the Running-frame
//! pipeline, and the top-level state machine dispatcher.

use vstd::prelude::*;
use crate::collectibles::{choose_collectible_kind, spec_choose_collectible_kind, Collectible};
use crate::constants::{
    DAY_PHASE_CYCLE, MAX_FRAME_MS, MAX_SCROLL_SPEED, SCORE_CAP, SPLASH_TIME_MS, TIME_CAP,
};
use crate::obstacles::{choose_obstacle_kind, spec_choose_obstacle_kind, Obstacle};
use crate::particles::{update_floating_texts, update_particles};
use crate::player::ground_in_band;
use crate::rng::FrameDraws;
use crate::types::{
    spec_collectible_interval, spec_obstacle_interval, spec_scroll_speed, FloatingText,
    GameState, PowerUpKind,
};
use crate::utils::{
    clamp_i64, max_i64, min_i64, sat_add_cap, scaled, spec_clamp, spec_max_i, spec_min_i,
    spec_sat_add_cap, spec_scaled,
};
use crate::world::{collectibles_wf, obstacles_wf, World};

verus! {

/// The spawn countdown after one frame: run down by `dt`; when it expires a
/// fresh interval (plus clamped jitter, floored) is armed.
pub open spec fn spec_timer_after(timer: int, dt: int, interval: int, jitter: int,
    jitter_lo: int, jitter_hi: int, floor: int) -> int {
    if timer - dt <= 0 {
        spec_max_i(interval + spec_clamp(jitter, jitter_lo, jitter_hi), floor)
    } else {
        timer - dt
    }
}

/// Whether this frame's countdown expiry spawns a new entity.
pub open spec fn spec_spawns(timer: int, dt: int) -> bool {
    timer - dt <= 0
}

/// The obstacle list after one frame: a possible spawn appended, every
/// obstacle advanced at the current scroll speed (any slow-time scale
/// arrives once, inside the frame delta), fully off-screen ones culled.
pub open spec fn spec_obstacles_after(w: World, dt: int, ground: int,
    draws: FrameDraws) -> Seq<Obstacle> {
    let spawned = if spec_spawns(w.difficulty.obstacle_timer_ms as int, dt) {
        w.obstacles@.push(Obstacle::spec_new(
            spec_choose_obstacle_kind(w.difficulty.time_ms as int,
                draws.obstacle_kind_roll as int % 1_000),
            ground, draws.shape_a as int % 1_000, draws.shape_b as int % 1_000,
            draws.shape_c as int % 1_000, draws.shape_d as int % 1_000))
    } else {
        w.obstacles@
    };
    let speed = spec_scroll_speed(w.difficulty.time_ms as int);
    spec_cull_obstacles(spawned.map_values(|o: Obstacle| o.spec_update(dt, speed)))
}

/// Advance the obstacle field: run the spawn countdown, spawn on expiry,
/// scroll every obstacle and drop the ones that left the screen.
pub fn update_obstacles(world: &mut World, dt: i64, ground: i64, draws: &FrameDraws)
    requires
        old(world).wf(),
        0 <= dt <= MAX_FRAME_MS,
        ground_in_band(ground as int),
    ensures
        final(world).obstacles@ == spec_obstacles_after(*old(world), dt as int, ground as int,
            *draws),
        final(world).difficulty == (crate::types::DifficultyTrack {
            obstacle_timer_ms: spec_timer_after(old(world).difficulty.obstacle_timer_ms as int,
                dt as int, spec_obstacle_interval(old(world).difficulty.base_spacing_ms as int,
                    old(world).difficulty.time_ms as int), draws.obstacle_jitter_ms as int,
                -220, 280, 350) as i64,
            ..old(world).difficulty
        }),
        *final(world) == (World {
            obstacles: final(world).obstacles,
            difficulty: final(world).difficulty,
            ..*old(world)
        }),
        final(world).wf(),
{
    let speed: i64 = world.difficulty.scroll_speed();
    if world.difficulty.obstacle_timer_ms - dt <= 0 {
        let kind = choose_obstacle_kind(world.difficulty.time_ms, draws.obstacle_kind_roll);
        let ob = Obstacle::new(kind, ground, draws);
        world.obstacles.push(ob);
        let interval: i64 = world.difficulty.obstacle_interval();
        let jitter: i64 = clamp_i64(draws.obstacle_jitter_ms, -220, 280);
        world.difficulty.obstacle_timer_ms = max_i64(interval + jitter, 350);
    } else {
        world.difficulty.obstacle_timer_ms = world.difficulty.obstacle_timer_ms - dt;
    }

    let ghost spawned = world.obstacles@;
    let mut out: Vec<Obstacle> = Vec::new();
    let ghost upd = |o: Obstacle| o.spec_update(dt as int, speed as int);
    let ghost keep = |o: Obstacle| !o.spec_is_offscreen();
    proof {
        assert(spawned.map_values(upd).take(0) =~= Seq::<Obstacle>::empty());
        assert(spawned.map_values(upd).take(0).filter(keep) =~= Seq::<Obstacle>::empty()) by {
            reveal(Seq::filter);
        }
    }
    let n: usize = world.obstacles.len();
    let mut i: usize = 0;
    while i < n
        invariant
            world.obstacles@ == spawned,
            n == spawned.len(),
            i <= n,
            obstacles_wf(spawned),
            out@ == spawned.map_values(upd).take(i as int).filter(keep),
            obstacles_wf(out@),
            upd == (|o: Obstacle| o.spec_update(dt as int, speed as int)),
            keep == (|o: Obstacle| !o.spec_is_offscreen()),
            0 <= dt <= MAX_FRAME_MS,
            0 <= speed <= MAX_SCROLL_SPEED,
        decreases n - i,
    {
        let mut ob = world.obstacles[i];
        ob.update(dt, speed);
        proof {
            let m = spawned.map_values(upd);
            assert(m[i as int] == upd(spawned[i as int]));
            assert(m.take(i + 1) =~= m.take(i as int).push(m[i as int]));
            crate::utils::lemma_filter_push(m.take(i as int), m[i as int], keep);
        }
        if !ob.is_offscreen() {
            out.push(ob);
        }
        i = i + 1;
    }
    proof {
        assert(spawned.map_values(upd).take(n as int) =~= spawned.map_values(upd));
    }
    world.obstacles = out;
}

/// The collectible list after one frame, mirroring the obstacle pass.
pub open spec fn spec_collectibles_after(w: World, dt: int, ground: int,
    draws: FrameDraws) -> Seq<Collectible> {
    let spawned = if spec_spawns(w.difficulty.collectible_timer_ms as int, dt) {
        w.collectibles@.push(Collectible::spec_new(
            spec_choose_collectible_kind(draws.collectible_kind_roll as int % 1_000), ground,
            draws.shape_a as int % 1_000, draws.shape_b as int % 1_000,
            draws.shape_c as int % 1_000))
    } else {
        w.collectibles@
    };
    let speed = spec_scroll_speed(w.difficulty.time_ms as int);
    spec_cull_collectibles(spawned.map_values(|c: Collectible| c.spec_update(dt, speed)))
}

/// Advance the collectible field: run the spawn countdown, spawn on expiry,
/// scroll every collectible and drop the ones that left the screen.
pub fn update_collectibles(world: &mut World, dt: i64, ground: i64, draws: &FrameDraws)
    requires
        old(world).wf(),
        0 <= dt <= MAX_FRAME_MS,
        ground_in_band(ground as int),
    ensures
        final(world).collectibles@ == spec_collectibles_after(*old(world), dt as int,
            ground as int, *draws),
        final(world).difficulty == (crate::types::DifficultyTrack {
            collectible_timer_ms: spec_timer_after(
                old(world).difficulty.collectible_timer_ms as int, dt as int,
                spec_collectible_interval(old(world).difficulty.time_ms as int),
                draws.collectible_jitter_ms as int, -300, 500, 240) as i64,
            ..old(world).difficulty
        }),
        *final(world) == (World {
            collectibles: final(world).collectibles,
            difficulty: final(world).difficulty,
            ..*old(world)
        }),
        final(world).wf(),
{
    let speed: i64 = world.difficulty.scroll_speed();
    if world.difficulty.collectible_timer_ms - dt <= 0 {
        let kind = choose_collectible_kind(draws.collectible_kind_roll);
        let item = Collectible::new(kind, ground, draws);
        world.collectibles.push(item);
        let interval: i64 = world.difficulty.collectible_interval();
        let jitter: i64 = clamp_i64(draws.collectible_jitter_ms, -300, 500);
        world.difficulty.collectible_timer_ms = max_i64(interval + jitter, 240);
    } else {
        world.difficulty.collectible_timer_ms = world.difficulty.collectible_timer_ms - dt;
    }

    let ghost spawned = world.collectibles@;
    let mut out: Vec<Collectible> = Vec::new();
    let ghost upd = |c: Collectible| c.spec_update(dt as int, speed as int);
    let ghost keep = |c: Collectible| !c.spec_is_offscreen();
    proof {
        assert(spawned.map_values(upd).take(0) =~= Seq::<Collectible>::empty());
        assert(spawned.map_values(upd).take(0).filter(keep) =~= Seq::<Collectible>::empty())
            by {
            reveal(Seq::filter);
        }
    }
    let n: usize = world.collectibles.len();
    let mut i: usize = 0;
    while i < n
        invariant
            world.collectibles@ == spawned,
            n == spawned.len(),
            i <= n,
            collectibles_wf(spawned),
            out@ == spawned.map_values(upd).take(i as int).filter(keep),
            collectibles_wf(out@),
            upd == (|c: Collectible| c.spec_update(dt as int, speed as int)),
            keep == (|c: Collectible| !c.spec_is_offscreen()),
            0 <= dt <= MAX_FRAME_MS,
            0 <= speed <= MAX_SCROLL_SPEED,
        decreases n - i,
    {
        let mut item = world.collectibles[i];
        item.update(dt, speed);
        proof {
            let m = spawned.map_values(upd);
            assert(m[i as int] == upd(spawned[i as int]));
            assert(m.take(i + 1) =~= m.take(i as int).push(m[i as int]));
            crate::utils::lemma_filter_push(m.take(i as int), m[i as int], keep);
        }
        if !item.is_offscreen() {
            out.push(item);
        }
        i = i + 1;
    }
    proof {
        assert(spawned.map_values(upd).take(n as int) =~= spawned.map_values(upd));
    }
    world.collectibles = out;
}

// ---------------------------------------------------------------------------
// The top-level per-frame dispatcher.
// ---------------------------------------------------------------------------

/// The time-scale a power-up slot imposes: slow time runs the world at 0.6.
pub open spec fn spec_time_scale(pu: crate::world::PowerUp) -> int {
    if pu.active && pu.kind == PowerUpKind::TimeSlow {
        600
    } else {
        1_000
    }
}

/// The day/night phase advanced by `dt` milliseconds, wrapping at one cycle.
pub open spec fn spec_day_advance(phase: int, dt: int) -> int {
    (phase + spec_scaled(dt, 1_000_000, 45_000)) % (DAY_PHASE_CYCLE as int)
}

/// Per-frame score accrual while running: distance (scroll speed by scaled
/// time, boosted by the streak) plus a dash bonus from horizontal speed.
pub open spec fn spec_score_accrual(scroll: int, sdt: int, streak: int, velx: int) -> int {
    (scroll * sdt * streak) / 20_000_000 + (velx * sdt * 7) / 100_000
}

/// An untrusted frame delta clamped into `[0, MAX_FRAME_MS]`.
pub open spec fn spec_clamped_dt(dt: int) -> int {
    spec_clamp(dt, 0, MAX_FRAME_MS as int)
}

/// One Running frame, told through two intermediate worlds: `wm` is the
/// world after the timers, the power-up countdown, the player physics and
/// the two spawn passes; `wn` the world after collision resolution; `w1`
/// the frame's result after effects, fades and score accrual. Slow time
/// scales the frame once, through the scaled delta `sdt`; only the
/// floating-text fade runs at the real (unscaled) delta. Every value but
/// the particle variation is a function of `w0`, `dt` and `draws`.
pub open spec fn spec_running_frame(w0: World, wm: World, wn: World, w1: World, dt: int,
    draws: FrameDraws) -> bool {
    let ts = spec_time_scale(w0.power_up);
    let sdt = spec_scaled(dt, ts, 1_000);
    let time1 = spec_sat_add_cap(w0.difficulty.time_ms as int, sdt, TIME_CAP as int);
    let ground = crate::types::spec_ground_y(time1);
    let pu1 = w0.power_up.spec_update(sdt);
    let slow1 = spec_time_scale(pu1);
    let wa = World {
        difficulty: crate::types::DifficultyTrack {
            time_ms: time1 as i64,
            ..w0.difficulty
        },
        slow_mo_milli: slow1 as i64,
        ..w0
    };
    let scroll1 = spec_scroll_speed(time1);
    &&& wm.player == crate::player::spec_update_player(w0.player, sdt, ground)
    &&& wm.obstacles@ == spec_obstacles_after(wa, sdt, ground, draws)
    &&& wm.collectibles@ == spec_collectibles_after(wa, sdt, ground, draws)
    &&& wm.difficulty == (crate::types::DifficultyTrack {
        time_ms: time1 as i64,
        base_spacing_ms: w0.difficulty.base_spacing_ms,
        obstacle_timer_ms: spec_timer_after(w0.difficulty.obstacle_timer_ms as int, sdt,
            spec_obstacle_interval(w0.difficulty.base_spacing_ms as int, time1),
            draws.obstacle_jitter_ms as int, -220, 280, 350) as i64,
        collectible_timer_ms: spec_timer_after(w0.difficulty.collectible_timer_ms as int, sdt,
            spec_collectible_interval(time1), draws.collectible_jitter_ms as int, -300, 500,
            240) as i64,
    })
    &&& wm.floating_texts@ == w0.floating_texts@
    &&& wm.particles@ == w0.particles@
    &&& wm.power_up == pu1
    &&& wm.state == GameState::Running
    &&& wm.score_milli == w0.score_milli
    &&& wm.currency == w0.currency
    &&& wm.streak_milli == w0.streak_milli
    &&& wm.best_score_milli == w0.best_score_milli
    &&& wm.menu_selected == w0.menu_selected
    &&& wm.pause_flash_milli == w0.pause_flash_milli
    &&& wm.survival_time_ms == spec_sat_add_cap(w0.survival_time_ms as int, sdt,
        TIME_CAP as int)
    &&& wm.day_phase_micro == spec_day_advance(w0.day_phase_micro as int, sdt)
    &&& wm.slow_mo_milli == slow1
    &&& crate::collision::spec_collision_resolution(wm, wn, ground, draws)
    &&& wn.difficulty == wm.difficulty
    &&& wn.survival_time_ms == wm.survival_time_ms
    &&& wn.day_phase_micro == wm.day_phase_micro
    &&& wn.slow_mo_milli == wm.slow_mo_milli
    &&& wn.menu_selected == wm.menu_selected
    &&& wn.best_score_milli == wm.best_score_milli
    &&& wn.pause_flash_milli == wm.pause_flash_milli
    &&& wn.particles@.len() == wm.particles@.len()
    &&& w1.player == wn.player
    &&& w1.obstacles@ == wn.obstacles@
    &&& w1.collectibles@ == wn.collectibles@
    &&& w1.power_up == wn.power_up
    &&& w1.state == wn.state
    &&& w1.difficulty == wn.difficulty
    &&& w1.survival_time_ms == wn.survival_time_ms
    &&& w1.day_phase_micro == wn.day_phase_micro
    &&& w1.slow_mo_milli == wn.slow_mo_milli
    &&& w1.menu_selected == wn.menu_selected
    &&& w1.pause_flash_milli == wn.pause_flash_milli
    &&& w1.currency == wn.currency
    &&& w1.streak_milli == wn.streak_milli
    &&& w1.floating_texts@ == wn.floating_texts@.map_values(
        |t: FloatingText| crate::particles::spec_update_text(t, dt)).filter(
        |t: FloatingText| t.timer_ms > 0)
    &&& w1.particles@.len() == wn.particles@.len()
    &&& forall|j: int|
        0 <= j < wn.particles@.len() ==> w1.particles@[j]
            == crate::particles::spec_update_particle(#[trigger] wn.particles@[j], sdt,
            scroll1)
    &&& w1.score_milli == spec_sat_add_cap(wn.score_milli as int,
        spec_score_accrual(scroll1, sdt, wn.streak_milli as int, wn.player.vel_x as int),
        SCORE_CAP as int)
    &&& w1.best_score_milli == spec_max_i(w0.best_score_milli as int, w1.score_milli as int)
}

/// Advance the whole world by one frame. The frame delta is untrusted and
/// is clamped before it touches any state. Which update runs is decided by
/// the state machine: the splash screen times out into the menu, the menu
/// fades in and cycles the day, a Running frame steps every subsystem in a
/// fixed order (timers, power-up, player, spawns, collisions, effects,
/// score), pause only lets its flash decay, and game-over cools down while
/// the effects settle.
#[verifier::rlimit(100)]
pub fn update_world(world: &mut World, dt: i64, draws: &FrameDraws)
    requires
        old(world).wf(),
    ensures
        final(world).wf(),
        old(world).state matches GameState::Splash { timer_ms } ==> {
            let t1 = timer_ms + spec_clamped_dt(dt as int);
            &&& final(world).state == (if t1 > SPLASH_TIME_MS {
                GameState::Menu { fade_milli: 0i64 }
            } else {
                GameState::Splash { timer_ms: t1 as i64 }
            })
            &&& *final(world) == (World { state: final(world).state, ..*old(world) })
        },
        old(world).state matches GameState::Menu { fade_milli } ==> {
            let dtc = spec_clamped_dt(dt as int);
            &&& final(world).state == (GameState::Menu {
                fade_milli: spec_min_i(fade_milli + spec_scaled(dtc, 1_000, 1_400),
                    1_000) as i64,
            })
            &&& final(world).day_phase_micro == spec_day_advance(
                old(world).day_phase_micro as int, dtc)
            &&& final(world).particles@.len() == old(world).particles@.len()
            &&& forall|j: int|
                0 <= j < old(world).particles@.len() ==> final(world).particles@[j]
                    == crate::particles::spec_update_particle(
                    #[trigger] old(world).particles@[j], dtc, 72_000)
            &&& *final(world) == (World {
                state: final(world).state,
                day_phase_micro: final(world).day_phase_micro,
                particles: final(world).particles,
                ..*old(world)
            })
        },
        old(world).state == GameState::Paused ==> {
            &&& final(world).pause_flash_milli == spec_max_i(
                old(world).pause_flash_milli - spec_clamped_dt(dt as int), 0)
            &&& *final(world) == (World {
                pause_flash_milli: final(world).pause_flash_milli,
                ..*old(world)
            })
        },
        old(world).state matches GameState::GameOver { cooldown_ms } ==> {
            let dtc = spec_clamped_dt(dt as int);
            let slow_dt = spec_scaled(dtc, 75, 100);
            &&& final(world).state == (GameState::GameOver {
                cooldown_ms: spec_max_i(cooldown_ms - dtc, 0) as i64,
            })
            &&& final(world).particles@.len() == old(world).particles@.len()
            &&& forall|j: int|
                0 <= j < old(world).particles@.len() ==> final(world).particles@[j]
                    == crate::particles::spec_update_particle(
                    #[trigger] old(world).particles@[j], slow_dt, 180_000)
            &&& final(world).floating_texts@ == old(world).floating_texts@.map_values(
                |t: FloatingText| crate::particles::spec_update_text(t, dtc)).filter(
                |t: FloatingText| t.timer_ms > 0)
            &&& *final(world) == (World {
                state: final(world).state,
                particles: final(world).particles,
                floating_texts: final(world).floating_texts,
                ..*old(world)
            })
        },
        old(world).state == GameState::Running ==> exists|wm: World, wn: World|
            #![auto]
            spec_running_frame(*old(world), wm, wn, *final(world), spec_clamped_dt(dt as int),
                *draws),
{
    let dtc: i64 = clamp_i64(dt, 0, MAX_FRAME_MS);
    match world.state {
        GameState::Splash { timer_ms } => {
            let t1: i64 = timer_ms + dtc;
            if t1 > SPLASH_TIME_MS {
                world.state = GameState::Menu { fade_milli: 0 };
            } else {
                world.state = GameState::Splash { timer_ms: t1 };
            }
        },
        GameState::Menu { fade_milli } => {
            let fade1: i64 = min_i64(fade_milli + scaled(dtc, 1_000, 1_400), 1_000);
            world.state = GameState::Menu { fade_milli: fade1 };
            let inc: i64 = scaled(dtc, 1_000_000, 45_000);
            world.day_phase_micro = (((world.day_phase_micro + inc) as u64)
                % (DAY_PHASE_CYCLE as u64)) as i64;
            update_particles(&mut world.particles, dtc, 72_000);
        },
        GameState::Running => {
            running_frame(world, dtc, draws);
        },
        GameState::Paused => {
            world.pause_flash_milli = max_i64(world.pause_flash_milli - dtc, 0);
        },
        GameState::GameOver { cooldown_ms } => {
            let c1: i64 = max_i64(cooldown_ms - dtc, 0);
            world.state = GameState::GameOver { cooldown_ms: c1 };
            let slow_dt: i64 = scaled(dtc, 75, 100);
            update_particles(&mut world.particles, slow_dt, 180_000);
            update_floating_texts(&mut world.floating_texts, dtc);
        },
    }
}


/// One frame of the Running state; see `spec_running_frame`.
#[verifier::rlimit(100)]
#[verifier::spinoff_prover]
fn running_frame(world: &mut World, dtc: i64, draws: &FrameDraws)
    requires
        old(world).wf(),
        old(world).state == GameState::Running,
        0 <= dtc <= MAX_FRAME_MS,
    ensures
        final(world).wf(),
        exists|wm: World, wn: World|
            #![auto]
            spec_running_frame(*old(world), wm, wn, *final(world), dtc as int, *draws),
{
    let ghost w0 = *world;
    let ts: i64 = if world.power_up.active
        && world.power_up.kind == PowerUpKind::TimeSlow {
        600
    } else {
        1_000
    };
    let sdt: i64 = scaled(dtc, ts, 1_000);
    world.difficulty.time_ms = sat_add_cap(world.difficulty.time_ms, sdt, TIME_CAP);
    world.survival_time_ms = sat_add_cap(world.survival_time_ms, sdt, TIME_CAP);
    let inc: i64 = scaled(sdt, 1_000_000, 45_000);
    world.day_phase_micro = (((world.day_phase_micro + inc) as u64)
        % (DAY_PHASE_CYCLE as u64)) as i64;
    world.power_up.update(sdt);
    world.slow_mo_milli = if world.power_up.active
        && world.power_up.kind == PowerUpKind::TimeSlow {
        600
    } else {
        1_000
    };
    let ground: i64 = world.difficulty.ground_y();
    crate::player::update_player(&mut world.player, sdt, ground);
    update_obstacles(world, sdt, ground, draws);
    update_collectibles(world, sdt, ground, draws);
    let ghost wm = *world;
    crate::collision::handle_collisions(world, ground, draws);
    let ghost wn = *world;
    let scroll: i64 = world.difficulty.scroll_speed();
    update_particles(&mut world.particles, sdt, scroll);
    // announcements fade at real time, outside any slow-time scale
    update_floating_texts(&mut world.floating_texts, dtc);
    proof {
        assert(scroll * sdt <= 820_000 * 1_000 && scroll * sdt >= 0)
            by (nonlinear_arith)
            requires
                0 <= scroll <= 820_000,
                0 <= sdt <= 1_000,
        {
        }
        assert(scroll * sdt * world.streak_milli
            <= 820_000 * 1_000 * 3_000) by (nonlinear_arith)
            requires
                0 <= scroll <= 820_000,
                0 <= sdt <= 1_000,
                0 <= world.streak_milli <= 3_000,
        {
        }
        assert(scroll * sdt * world.streak_milli >= 0) by (nonlinear_arith)
            requires
                0 <= scroll,
                0 <= sdt,
                0 <= world.streak_milli,
        {
        }
        assert(world.player.vel_x * sdt <= 820_000 * 1_000
            && world.player.vel_x * sdt >= 0) by (nonlinear_arith)
            requires
                0 <= world.player.vel_x <= 820_000,
                0 <= sdt <= 1_000,
        {
        }
        assert(world.player.vel_x * sdt * 7 <= 820_000 * 1_000 * 7) by (nonlinear_arith)
            requires
                0 <= world.player.vel_x <= 820_000,
                0 <= sdt <= 1_000,
        {
        }
        assert(world.player.vel_x * sdt * 7 >= 0) by (nonlinear_arith)
            requires
                0 <= world.player.vel_x,
                0 <= sdt,
        {
        }
    }
    let d1: u64 = ((scroll as u64) * (sdt as u64) * (world.streak_milli as u64))
        / 20_000_000;
    let d2: u64 = ((world.player.vel_x as u64) * (sdt as u64) * 7) / 100_000;
    proof {
        vstd::arithmetic::div_mod::lemma_div_is_ordered(
            scroll * sdt * world.streak_milli, 820_000int * 1_000 * 3_000, 20_000_000);
        vstd::arithmetic::div_mod::lemma_div_is_ordered(world.player.vel_x * sdt * 7,
            820_000int * 1_000 * 7, 100_000);
    }
    world.score_milli = sat_add_cap(world.score_milli, (d1 + d2) as i64, SCORE_CAP);
    world.best_score_milli = max_i64(world.best_score_milli, world.score_milli);
    proof {
        assert(spec_running_frame(w0, wm, wn, *world, dtc as int, *draws));
    }
}

/// The culled obstacle list: exactly the obstacles still (partly) visible.
pub open spec fn spec_cull_obstacles(s: Seq<Obstacle>) -> Seq<Obstacle> {
    s.filter(|o: Obstacle| !o.spec_is_offscreen())
}

/// The culled collectible list: exactly the collectibles still visible
/// (their threshold differs from the obstacles').
pub open spec fn spec_cull_collectibles(s: Seq<Collectible>) -> Seq<Collectible> {
    s.filter(|c: Collectible| !c.spec_is_offscreen())
}

/// Off-screen culling acts exactly once: an entity is dropped in the frame
/// it qualifies (fully past the left edge) and never while any part is
/// still visible, so culling an already-culled list removes nothing.
pub proof fn lemma_obstacle_cull_idempotent(s: Seq<Obstacle>)
    ensures
        spec_cull_obstacles(spec_cull_obstacles(s)) == spec_cull_obstacles(s),
        forall|i: int|
    0 <= i < spec_cull_obstacles(s).len() ==> !(#[trigger] spec_cull_obstacles(s)[
    i]).spec_is_offscreen(),
        forall|i: int|
    0 <= i < s.len() && !(#[trigger] s[i]).spec_is_offscreen()
        ==> spec_cull_obstacles(s).contains(s[i]),
{
    crate::utils::lemma_filter_idempotent(s, |o: Obstacle| !o.spec_is_offscreen());
    crate::utils::lemma_filter_complete(s, |o: Obstacle| !o.spec_is_offscreen());
}

/// The same culling facts for collectibles.
pub proof fn lemma_collectible_cull_idempotent(s: Seq<Collectible>)
    ensures
        spec_cull_collectibles(spec_cull_collectibles(s)) == spec_cull_collectibles(s),
        forall|i: int|
    0 <= i < spec_cull_collectibles(s).len() ==> !(#[trigger] spec_cull_collectibles(
    s)[i]).spec_is_offscreen(),
        forall|i: int|
    0 <= i < s.len() && !(#[trigger] s[i]).spec_is_offscreen()
        ==> spec_cull_collectibles(s).contains(s[i]),
{
    crate::utils::lemma_filter_idempotent(s, |c: Collectible| !c.spec_is_offscreen());
    crate::utils::lemma_filter_complete(s, |c: Collectible| !c.spec_is_offscreen());
}


/// Replay determinism: one Running frame pins everything but the particle
/// variation. Two frames from the same world, the same (clamped) delta and
/// the same draws agree on the whole run state afterwards: the player, the
/// entity lists, the economy, the state machine, the clocks and the
/// announcements. Capturing the numeric run state and replaying the same
/// deltas with the same draws therefore reproduces it.
pub proof fn lemma_running_frame_deterministic(w0: World, wm1: World, wn1: World, w1: World,
    wm2: World, wn2: World, w2: World, dt: int, draws: FrameDraws)
    requires
        spec_running_frame(w0, wm1, wn1, w1, dt, draws),
        spec_running_frame(w0, wm2, wn2, w2, dt, draws),
    ensures
        w1.player == w2.player,
        w1.obstacles@ == w2.obstacles@,
        w1.collectibles@ == w2.collectibles@,
        w1.floating_texts@ == w2.floating_texts@,
        w1.power_up == w2.power_up,
        w1.state == w2.state,
        w1.difficulty == w2.difficulty,
        w1.score_milli == w2.score_milli,
        w1.best_score_milli == w2.best_score_milli,
        w1.currency == w2.currency,
        w1.survival_time_ms == w2.survival_time_ms,
        w1.slow_mo_milli == w2.slow_mo_milli,
        w1.streak_milli == w2.streak_milli,
        w1.day_phase_micro == w2.day_phase_micro,
        w1.menu_selected == w2.menu_selected,
        w1.pause_flash_milli == w2.pause_flash_milli,
{
    let ts = spec_time_scale(w0.power_up);
    let sdt = spec_scaled(dt, ts, 1_000);
    let time1 = spec_sat_add_cap(w0.difficulty.time_ms as int, sdt, TIME_CAP as int);
    let ground = crate::types::spec_ground_y(time1);
    assert(wm1.player == wm2.player);
    assert(wm1.obstacles@ == wm2.obstacles@);
    assert(wm1.collectibles@ == wm2.collectibles@);
    assert(wm1.floating_texts@ == wm2.floating_texts@);
    assert(wm1.power_up == wm2.power_up);
    assert(crate::collision::spec_first_hit(wm1.obstacles@, wm1.player, ground)
        == crate::collision::spec_first_hit(wm2.obstacles@, wm2.player, ground));
    assert(wn1.player == wn2.player);
    assert(wn1.obstacles@ == wn2.obstacles@);
    assert(wn1.collectibles@ == wn2.collectibles@);
    assert(wn1.floating_texts@ == wn2.floating_texts@);
    assert(wn1.power_up == wn2.power_up);
    assert(wn1.state == wn2.state);
    assert(wn1.score_milli == wn2.score_milli);
    assert(wn1.currency == wn2.currency);
    assert(wn1.streak_milli == wn2.streak_milli);
}

} // verus!