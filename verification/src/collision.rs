//! Collision resolution and the score/currency economy: the first-hit
//! scan, shield absorption, the pickup fold, and the power-up roll.

use vstd::prelude::*;
use crate::collectibles::Collectible;
use crate::constants::{GAME_OVER_COOLDOWN_MS, PLAYER_H, POWERUP_DURATION_MS, SCORE_CAP};
use crate::obstacles::Obstacle;
use crate::geom::Rect;
use crate::particles::{pool_wf, spawn_collect_effect, spawn_death_effect, spawn_fills,
    spawn_shield_burst, spec_pickup_color, spec_pickup_text, spec_run_lost_text, texts_wf,
    Particle, ParticleColor};
use crate::player::{ground_in_band, Player};
use crate::rng::{FrameDraws, SeedStream};
use crate::types::{FloatingText, FloatingTextKind, GameState, ObstacleKind, PowerUpKind};
use crate::utils::{max_i64, sat_add_cap, sat_add_u64, spec_max_i, spec_min_i, spec_sat_add_cap,
    spec_sat_add_u64};
use crate::world::{collectibles_wf, obstacles_wf, state_wf, PowerUp, World};

verus! {

/// Whether an obstacle stops the player: a pit by horizontal overlap while
/// the player's feet are at or below four pixels above the ground
/// (independent of any hurt-box), any other kind by hurt-box overlap with
/// the player's hurt rectangle.
pub open spec fn spec_obstacle_hits(o: Obstacle, p: Player, ground: int) -> bool {
    if o.kind == ObstacleKind::Pit {
        let pr = p.spec_rect();
        &&& pr.x + pr.w > o.rect.x
        &&& pr.x < o.rect.x + o.rect.w
        &&& p.pos_y + PLAYER_H >= ground - 4_000
    } else {
        o.hurt_box.spec_overlaps(p.spec_rect())
    }
}

/// The first hitting obstacle at or after position `i`, scanning in list
/// order.
pub open spec fn spec_first_hit_from(obs: Seq<Obstacle>, p: Player, ground: int,
    i: int) -> Option<int>
    decreases obs.len() - i,
{
    if i < 0 || i >= obs.len() {
        None
    } else if spec_obstacle_hits(obs[i], p, ground) {
        Some(i)
    } else {
        spec_first_hit_from(obs, p, ground, i + 1)
    }
}

/// The first obstacle in list order that hits the player, if any. The first
/// match alone decides the frame's outcome.
pub open spec fn spec_first_hit(obs: Seq<Obstacle>, p: Player, ground: int) -> Option<int> {
    spec_first_hit_from(obs, p, ground, 0)
}

/// The first hit depends only on the list up to and including its index:
/// two obstacle lists that agree there have the same first hit, whatever
/// stands behind that index in either list.
pub proof fn lemma_first_hit_prefix(obs1: Seq<Obstacle>, obs2: Seq<Obstacle>, p: Player,
    ground: int, i: int)
    requires
        spec_first_hit(obs1, p, ground) == Some(i),
        i < obs2.len(),
        forall|j: int| 0 <= j <= i ==> obs1[j] == obs2[j],
    ensures
        spec_first_hit(obs2, p, ground) == Some(i),
{
    lemma_first_hit_in_range(obs1, p, ground, 0);
    lemma_first_hit_prefix_from(obs1, obs2, p, ground, i, 0);
}

proof fn lemma_first_hit_prefix_from(obs1: Seq<Obstacle>, obs2: Seq<Obstacle>, p: Player,
    ground: int, i: int, k: int)
    requires
        0 <= k <= i,
        spec_first_hit_from(obs1, p, ground, k) == Some(i),
        i < obs1.len(),
        i < obs2.len(),
        forall|j: int| 0 <= j <= i ==> obs1[j] == obs2[j],
    ensures
        spec_first_hit_from(obs2, p, ground, k) == Some(i),
    decreases i - k,
{
    if k == i {
        if !spec_obstacle_hits(obs1[k], p, ground) {
            lemma_first_hit_in_range(obs1, p, ground, k + 1);
            assert(false);
        }
    } else {
        assert(!spec_obstacle_hits(obs1[k], p, ground));
        lemma_first_hit_prefix_from(obs1, obs2, p, ground, i, k + 1);
    }
}

/// A hit index returned by the scan stays within the list and really hits.
pub proof fn lemma_first_hit_in_range(obs: Seq<Obstacle>, p: Player, ground: int, i: int)
    requires
        0 <= i <= obs.len(),
        spec_first_hit_from(obs, p, ground, i) is Some,
    ensures
        i <= spec_first_hit_from(obs, p, ground, i)->0 < obs.len(),
        spec_obstacle_hits(obs[spec_first_hit_from(obs, p, ground, i)->0], p, ground),
    decreases obs.len() - i,
{
    if i < obs.len() && !spec_obstacle_hits(obs[i], p, ground) {
        lemma_first_hit_in_range(obs, p, ground, i + 1);
    }
}

/// Whether a collectible overlaps the player's hurt rectangle this frame.
pub open spec fn spec_picked(c: Collectible, p: Player) -> bool {
    c.rect.spec_overlaps(p.spec_rect())
}

/// The run economy a pickup pass threads along: score, currency, combo and
/// streak multiplier.
pub struct Econ {
    pub score: int,
    pub currency: int,
    pub combo: int,
    pub streak: int,
}

/// One pickup: score grows by value times streak (saturating at the score
/// cap), currency by a quarter of the value, the combo steps (capped at
/// 999), the streak steps by 0.08 (capped at 3.0).
pub open spec fn spec_apply_pickup(e: Econ, value: int) -> Econ {
    Econ {
        score: spec_sat_add_cap(e.score, value * e.streak, SCORE_CAP as int),
        currency: spec_sat_add_u64(e.currency, value / 4),
        combo: spec_min_i(e.combo + 1, 999),
        streak: spec_min_i(e.streak + 80, 3_000),
    }
}

/// The economy after collecting every overlapping item among the first `i`
/// collectibles, processed in descending index order (the order removal
/// uses, so earlier indices stay valid and nothing is skipped or counted
/// twice).
pub open spec fn spec_pickups_down(items: Seq<Collectible>, p: Player, i: int,
    e: Econ) -> Econ
    decreases i,
{
    if i <= 0 {
        e
    } else {
        let e2 = if spec_picked(items[i - 1], p) {
            spec_apply_pickup(e, items[i - 1].value as int)
        } else {
            e
        };
        spec_pickups_down(items, p, i - 1, e2)
    }
}

/// The reward texts the same pass pushes, in the same descending order.
pub open spec fn spec_pickup_texts_down(items: Seq<Collectible>, p: Player,
    i: int) -> Seq<FloatingText>
    decreases i,
{
    if i <= 0 {
        Seq::empty()
    } else {
        let head: Seq<FloatingText> = if spec_picked(items[i - 1], p) {
            seq![spec_pickup_text(items[i - 1])]
        } else {
            Seq::empty()
        };
        head + spec_pickup_texts_down(items, p, i - 1)
    }
}

/// Which power-up a kind roll (reduced modulo 1000) activates: shield on
/// the lowest two fifths, score boost on the next thirty-five hundredths,
/// slow time on the rest.
pub open spec fn spec_powerup_choice(roll: int) -> PowerUpKind {
    if roll < 400 {
        PowerUpKind::Shield
    } else if roll < 750 {
        PowerUpKind::ScoreBoost
    } else {
        PowerUpKind::TimeSlow
    }
}

/// The announcement pushed when a power-up activates.
pub open spec fn spec_powerup_text(p: Player, kind: PowerUpKind) -> FloatingText {
    FloatingText {
        kind: FloatingTextKind::PowerUpLabel { kind },
        pos_x: (p.pos_x + 28_000) as i64,
        pos_y: (p.pos_y - 24_000) as i64,
        vel_x: 0,
        vel_y: -42_000i64,
        timer_ms: 1_200,
        max_timer_ms: 1_200,
    }
}

/// The burst a shield absorption scatters from the absorbed obstacle's
/// display rectangle: up to 32 slots in the shield-burst profile.
pub open spec fn spec_shield_burst_fill(before: Seq<Particle>, after: Seq<Particle>,
    rect: Rect) -> bool {
    spawn_fills(before, after, 32, rect.x + rect.w / 2, rect.y + rect.h / 2, -260_000,
        260_000, -260_000, 260_000, 400, 800, ParticleColor::ShieldBurst)
}

/// The burst a death scatters from the player's center: every free slot,
/// in the death profile.
pub open spec fn spec_death_fill(before: Seq<Particle>, after: Seq<Particle>, x: int,
    y: int) -> bool {
    spawn_fills(before, after, before.len() as int, x, y, -380_000, 380_000, -380_000,
        120_000, 700, 1_100, ParticleColor::Death)
}

/// The flash one pickup claims: up to 14 slots above the item, in the
/// item's color.
pub open spec fn spec_collect_fill(before: Seq<Particle>, after: Seq<Particle>,
    item: Collectible) -> bool {
    spawn_fills(before, after, 14, item.rect.x + item.rect.w / 2, item.rect.y as int,
        -110_000, 110_000, -220_000, -60_000, 400, 800, spec_pickup_color(item.kind))
}

/// The pool evolution of the pickup pass over `items`: there is a chain of
/// intermediate pools, one per item index (descending processing order, the
/// last item first), in which each collected item's flash is claimed from
/// the pool the previous pickups left behind and each skipped item changes
/// nothing. `pools[k]` is the pool once every index at or above `k` has
/// been handled, so the chain runs from `before` down to `after`.
pub open spec fn spec_pickup_fills_down(items: Seq<Collectible>, p: Player,
    before: Seq<Particle>, after: Seq<Particle>) -> bool {
    exists|pools: Seq<Seq<Particle>>|
        #![trigger pools[0]]
        {
            &&& pools.len() == items.len() + 1
            &&& pools[items.len() as int] == before
            &&& pools[0] == after
            &&& forall|k: int|
                0 <= k < items.len() && spec_picked(items[k], p) ==> spec_collect_fill(
                    pools[k + 1], #[trigger] pools[k], items[k])
            &&& forall|k: int|
                0 <= k < items.len() && !spec_picked(items[k], p) ==> #[trigger] pools[k]
                    == pools[k + 1]
        }
}

/// The pickup pass, streak decay and power-up roll that follow a frame the
/// player survives: collectibles overlapping the player are removed (the
/// list is filtered), the economy folds over them in descending index
/// order with one flash per item claimed from `pool0` on, the streak
/// decays by a fixed per-frame step when nothing was collected, and a roll
/// of at least 996 in 1000 activates a power-up if none is active.
pub open spec fn spec_economy_tail(w0: World, w1: World, shield_hit: bool,
    draws: FrameDraws, pool0: Seq<Particle>) -> bool {
    let p = w0.player;
    let items = w0.collectibles@;
    let e0 = Econ {
        score: w0.score_milli as int,
        currency: w0.currency as int,
        combo: if shield_hit { 0int } else { p.combo as int },
        streak: w0.streak_milli as int,
    };
    let e1 = spec_pickups_down(items, p, items.len() as int, e0);
    let any = exists|k: int| 0 <= k < items.len() && spec_picked(items[k], p);
    let streak1 = if any {
        e1.streak
    } else {
        spec_max_i(e1.streak - 12, 1_000)
    };
    let pu1 = if shield_hit {
        PowerUp { active: false, kind: w0.power_up.kind, timer_ms: 0 }
    } else {
        w0.power_up
    };
    let rolled = draws.powerup_roll as int % 1_000 >= 996 && !pu1.active;
    let kind = spec_powerup_choice(draws.powerup_kind_roll as int % 1_000);
    let roll_texts: Seq<FloatingText> = if rolled {
        seq![spec_powerup_text(p, kind)]
    } else {
        Seq::empty()
    };
    &&& w1.collectibles@ == items.filter(|c: Collectible| !spec_picked(c, p))
    &&& w1.score_milli == e1.score
    &&& w1.currency == e1.currency
    &&& w1.player == (Player { combo: e1.combo as u32, ..p })
    &&& w1.streak_milli == streak1
    &&& w1.power_up == (if rolled {
        PowerUp { active: true, kind, timer_ms: POWERUP_DURATION_MS }
    } else {
        pu1
    })
    &&& w1.floating_texts@ == w0.floating_texts@ + spec_pickup_texts_down(items, p,
        items.len() as int) + roll_texts
    &&& spec_pickup_fills_down(items, p, pool0, w1.particles@)
}

/// What one collision pass does to the world, decided by the first hit in
/// obstacle list order. A pit is fatal unconditionally, shield or not, and
/// leaves the shield unconsumed. For any other kind a death and a shield
/// absorption exclude one another: the shield consumes exactly the one
/// hitting obstacle and the power-up (scattering its burst) and the run
/// goes on; without a shield the first hit ends the run on the spot,
/// awards currency, and nothing is collected that frame.
pub open spec fn spec_collision_resolution(w0: World, w1: World, ground: int,
    draws: FrameDraws) -> bool {
    let p = w0.player;
    let shielded = w0.power_up.active && w0.power_up.kind == PowerUpKind::Shield;
    match spec_first_hit(w0.obstacles@, p, ground) {
        Some(i) => {
            if shielded && w0.obstacles@[i].kind != ObstacleKind::Pit {
                &&& w1.obstacles@ == w0.obstacles@.remove(i)
                &&& w1.state == w0.state
                &&& exists|burst: Seq<Particle>|
                    #![auto]
                    spec_shield_burst_fill(w0.particles@, burst, w0.obstacles@[i].rect)
                        && spec_economy_tail(w0, w1, true, draws, burst)
            } else {
                &&& w1.state == (GameState::GameOver {
                    cooldown_ms: GAME_OVER_COOLDOWN_MS as i64,
                })
                &&& w1.currency == spec_sat_add_u64(w0.currency as int,
                    w0.score_milli as int / 10_000 + p.combo as int)
                &&& w1.player == (Player { combo: 0u32, ..p })
                &&& w1.obstacles@ == w0.obstacles@
                &&& w1.collectibles@ == w0.collectibles@
                &&& w1.streak_milli == w0.streak_milli
                &&& w1.score_milli == w0.score_milli
                &&& w1.power_up == w0.power_up
                &&& w1.floating_texts@ == w0.floating_texts@.push(spec_run_lost_text(
                    p.pos_x + 28_000, p.pos_y + 36_000))
                &&& spec_death_fill(w0.particles@, w1.particles@, p.pos_x + 28_000,
                    p.pos_y + 36_000)
            }
        },
        None => {
            &&& w1.obstacles@ == w0.obstacles@
            &&& w1.state == w0.state
            &&& spec_economy_tail(w0, w1, false, draws, w0.particles@)
        },
    }
}

/// Filtering distributes over taking off the first element.
proof fn lemma_filter_first<A>(s: Seq<A>, pred: spec_fn(A) -> bool)
    requires
        s.len() > 0,
    ensures
        s.filter(pred) == (if pred(s[0]) {
            seq![s[0]] + s.drop_first().filter(pred)
        } else {
            s.drop_first().filter(pred)
        }),
    decreases s.len(),
{
    reveal(Seq::filter);
    if s.len() == 1 {
        assert(s.drop_last() =~= Seq::<A>::empty());
        assert(s.drop_first() =~= Seq::<A>::empty());
        if pred(s[0]) {
            assert(s.filter(pred) =~= seq![s[0]] + s.drop_first().filter(pred));
        }
    } else {
        let t = s.drop_last();
        lemma_filter_first(t, pred);
        assert(t[0] == s[0]);
        assert(t.drop_first() =~= s.drop_first().drop_last());
        assert(s.drop_first().last() == s.last());
        if pred(s[0]) {
            assert(s.filter(pred) =~= seq![s[0]] + s.drop_first().filter(pred));
        } else {
            assert(s.filter(pred) =~= s.drop_first().filter(pred));
        }
    }
}

/// Resolve this frame's collisions: find the first hitting obstacle, let a
/// shield absorb it or end the run, then collect overlapping collectibles,
/// decay the streak on an empty frame, and roll for a power-up.
#[verifier::rlimit(100)]
#[verifier::spinoff_prover]
pub fn handle_collisions(world: &mut World, ground: i64, draws: &FrameDraws)
    requires
        old(world).wf(),
        ground_in_band(ground as int),
    ensures
        spec_collision_resolution(*old(world), *final(world), ground as int, *draws),
        final(world).difficulty == old(world).difficulty,
        final(world).survival_time_ms == old(world).survival_time_ms,
        final(world).day_phase_micro == old(world).day_phase_micro,
        final(world).slow_mo_milli == old(world).slow_mo_milli,
        final(world).menu_selected == old(world).menu_selected,
        final(world).best_score_milli == old(world).best_score_milli,
        final(world).pause_flash_milli == old(world).pause_flash_milli,
        final(world).particles@.len() == old(world).particles@.len(),
        final(world).wf(),
{
    let ghost w0 = *world;
    let mut stream = SeedStream::new(draws.particle_seed);
    let player_rect = world.player.rect();
    let shielded = world.power_up.active && world.power_up.kind == PowerUpKind::Shield;

    let n: usize = world.obstacles.len();
    let mut i: usize = 0;
    let mut hit: Option<usize> = None;
    while i < n && hit.is_none()
        invariant
            *world == w0,
            w0.wf(),
            ground_in_band(ground as int),
            player_rect == w0.player.spec_rect(),
            n == w0.obstacles@.len(),
            i <= n,
            match hit {
                Some(k) => k < n && spec_first_hit(w0.obstacles@, w0.player, ground as int)
                    == Some(k as int),
                None => spec_first_hit(w0.obstacles@, w0.player, ground as int)
                    == spec_first_hit_from(w0.obstacles@, w0.player, ground as int, i as int),
            },
        decreases n - i + (if hit is None { 1int } else { 0int }),
    {
        let o = world.obstacles[i];
        let hits_now: bool = if o.kind == ObstacleKind::Pit {
            player_rect.x + player_rect.w > o.rect.x && player_rect.x < o.rect.x + o.rect.w
                && world.player.pos_y + PLAYER_H >= ground - 4_000
        } else {
            o.hurt_box.overlaps(&player_rect)
        };
        if hits_now {
            hit = Some(i);
        } else {
            i = i + 1;
        }
    }

    match hit {
        Some(idx) => {
            let ob = world.obstacles[idx];
            if !shielded || ob.kind == ObstacleKind::Pit {
                // a pit ends the run whatever is active; any other hit is
                // fatal only without a shield
                world.state = GameState::GameOver { cooldown_ms: GAME_OVER_COOLDOWN_MS };
                let gain: u64 = (world.score_milli as u64) / 10_000
                    + (world.player.combo as u64);
                world.currency = sat_add_u64(world.currency, gain);
                spawn_death_effect(&mut world.particles, &mut world.floating_texts,
                    world.player.pos_x + 28_000, world.player.pos_y + 36_000, &mut stream);
                world.player.reset_combo();
                return;
            }
            world.obstacles.remove(idx);
            spawn_shield_burst(&mut world.particles, ob.rect, &mut stream);
            world.power_up.deactivate();
            world.player.reset_combo();
        },
        None => {},
    }

    let ghost shield_hit = hit is Some;
    let ghost obs1 = world.obstacles@;
    let ghost st1 = world.state;
    let ghost pu1 = world.power_up;
    let ghost items = w0.collectibles@;
    let ghost keep = |c: Collectible| !spec_picked(c, w0.player);
    let ghost e0 = Econ {
        score: w0.score_milli as int,
        currency: w0.currency as int,
        combo: if shield_hit { 0int } else { w0.player.combo as int },
        streak: w0.streak_milli as int,
    };
    let ghost nn = items.len() as int;
    let ghost texts0 = world.floating_texts@;
    let ghost pool0 = world.particles@;
    let ghost mut chain: Seq<Seq<Particle>> = Seq::new((nn + 1) as nat, |i: int| pool0);

    proof {
        assert(items.take(nn) =~= items);
        assert(items.skip(nn) =~= Seq::<Collectible>::empty());
        assert(items.skip(nn).filter(keep) =~= Seq::<Collectible>::empty()) by {
            reveal(Seq::filter);
        }
        assert(world.collectibles@ =~= items.take(nn) + items.skip(nn).filter(keep));
    }

    let mut any_picked = false;
    let mut j: usize = world.collectibles.len();
    while j > 0
        invariant
            j <= nn,
            nn == items.len(),
            collectibles_wf(items),
            w0.wf(),
            ground_in_band(ground as int),
            keep == (|c: Collectible| !spec_picked(c, w0.player)),
            player_rect == w0.player.spec_rect(),
            world.collectibles@ == items.take(j as int) + items.skip(j as int).filter(keep),
            collectibles_wf(world.collectibles@),
            spec_pickups_down(items, w0.player, j as int, Econ {
                score: world.score_milli as int,
                currency: world.currency as int,
                combo: world.player.combo as int,
                streak: world.streak_milli as int,
            }) == spec_pickups_down(items, w0.player, nn, e0),
            world.floating_texts@ + spec_pickup_texts_down(items, w0.player, j as int)
                == texts0 + spec_pickup_texts_down(items, w0.player, nn),
            any_picked == exists|k: int| j <= k < nn && spec_picked(items[k], w0.player),
            chain.len() == nn + 1,
            chain[nn] == pool0,
            chain[j as int] == world.particles@,
            forall|k: int|
                j <= k < nn && spec_picked(items[k], w0.player) ==> spec_collect_fill(
                    chain[k + 1], #[trigger] chain[k], items[k]),
            forall|k: int|
                j <= k < nn && !spec_picked(items[k], w0.player) ==> #[trigger] chain[k]
                    == chain[k + 1],
            world.player == (Player { combo: world.player.combo, ..w0.player }),
            world.player.wf(),
            0 <= world.score_milli <= SCORE_CAP,
            1_000 <= world.streak_milli <= 3_000,
            world.obstacles@ == obs1,
            obstacles_wf(world.obstacles@),
            world.state == st1,
            state_wf(world.state),
            world.power_up == pu1,
            world.power_up.wf(),
            world.difficulty == w0.difficulty,
            world.survival_time_ms == w0.survival_time_ms,
            world.day_phase_micro == w0.day_phase_micro,
            world.slow_mo_milli == w0.slow_mo_milli,
            world.menu_selected == w0.menu_selected,
            world.best_score_milli == w0.best_score_milli,
            world.pause_flash_milli == w0.pause_flash_milli,
            pool_wf(world.particles@),
            world.particles@.len() == w0.particles@.len(),
            texts_wf(world.floating_texts@),
        decreases j,
    {
        let ghost jj = j as int;
        proof {
            assert(spec_pickup_texts_down(items, w0.player, jj) == (if spec_picked(
                items[jj - 1], w0.player) {
                seq![spec_pickup_text(items[jj - 1])]
            } else {
                Seq::<FloatingText>::empty()
            }) + spec_pickup_texts_down(items, w0.player, jj - 1));
        }
        j = j - 1;
        let item = world.collectibles[j];
        proof {
            assert(world.collectibles@[jj - 1] == items.take(jj)[jj - 1]);
            assert(item == items[jj - 1]);
            assert(items.skip(jj - 1).drop_first() =~= items.skip(jj));
            assert(items.skip(jj - 1)[0] == items[jj - 1]);
            lemma_filter_first(items.skip(jj - 1), keep);
        }
        if item.rect.overlaps(&player_rect) {
            let item = world.collectibles.remove(j);
            proof {
                assert(item == items[jj - 1]);
                assert(!keep(items[jj - 1]));
                assert(items.skip(jj - 1).filter(keep) == items.skip(jj).filter(keep));
                assert(world.collectibles@ =~= items.take(jj - 1)
                    + items.skip(jj - 1).filter(keep));
            }
            let ghost texts_before = world.floating_texts@;
            let ghost pool_prev = world.particles@;
            proof {
                assert(items[jj - 1].wf());
                assert(item.value == 20 || item.value == 120);
                assert(0 <= (item.value as i64) * world.streak_milli <= 360_000)
                    by (nonlinear_arith)
                    requires
                        item.value == 20 || item.value == 120,
                        1_000 <= world.streak_milli <= 3_000,
                {
                }
            }
            world.score_milli = sat_add_cap(world.score_milli,
                (item.value as i64) * world.streak_milli, SCORE_CAP);
            world.currency = sat_add_u64(world.currency, (item.value / 4) as u64);
            world.player.add_combo();
            world.streak_milli = if world.streak_milli + 80 > 3_000 {
                3_000
            } else {
                world.streak_milli + 80
            };
            spawn_collect_effect(&mut world.particles, &mut world.floating_texts, &item,
                &mut stream);
            proof {
                assert(world.floating_texts@ =~= texts_before + seq![spec_pickup_text(
                    items[jj - 1])]);
                assert(world.floating_texts@ + spec_pickup_texts_down(items, w0.player, jj - 1)
                    =~= texts_before + (seq![spec_pickup_text(items[jj - 1])]
                    + spec_pickup_texts_down(items, w0.player, jj - 1)));
                assert(spec_picked(items[jj - 1], w0.player));
                assert(spec_collect_fill(pool_prev, world.particles@, items[jj - 1]));
                chain = chain.update(jj - 1, world.particles@);
                assert(chain[jj] == pool_prev);
            }
            any_picked = true;
        } else {
            proof {
                assert(keep(items[jj - 1]));
                assert(items.skip(jj - 1).filter(keep) == seq![items[jj - 1]]
                    + items.skip(jj).filter(keep));
                assert(world.collectibles@ =~= items.take(jj - 1)
                    + items.skip(jj - 1).filter(keep));
                assert(!spec_picked(items[jj - 1], w0.player));
                chain = chain.update(jj - 1, world.particles@);
            }
        }
    }

    proof {
        assert(items.take(0) =~= Seq::<Collectible>::empty());
        assert(items.skip(0) =~= items);
        assert(world.collectibles@ =~= items.filter(keep));
        assert(world.floating_texts@ + spec_pickup_texts_down(items, w0.player, 0)
            =~= world.floating_texts@);
        assert(chain[0] == world.particles@);
        assert(spec_pickup_fills_down(items, w0.player, pool0, world.particles@));
    }

    if !any_picked {
        world.streak_milli = max_i64(world.streak_milli - 12, 1_000);
    }

    let ghost texts_pre_roll = world.floating_texts@;
    if draws.powerup_roll % 1_000 >= 996 && !world.power_up.active {
        let kind = if draws.powerup_kind_roll % 1_000 < 400 {
            PowerUpKind::Shield
        } else if draws.powerup_kind_roll % 1_000 < 750 {
            PowerUpKind::ScoreBoost
        } else {
            PowerUpKind::TimeSlow
        };
        world.power_up.activate(kind);
        world.floating_texts.push(FloatingText {
            kind: FloatingTextKind::PowerUpLabel { kind },
            pos_x: world.player.pos_x + 28_000,
            pos_y: world.player.pos_y - 24_000,
            vel_x: 0,
            vel_y: -42_000,
            timer_ms: 1_200,
            max_timer_ms: 1_200,
        });
        proof {
            assert(world.floating_texts@ =~= texts_pre_roll + seq![spec_powerup_text(w0.player,
                spec_powerup_choice(draws.powerup_kind_roll as int % 1_000))]);
        }
    } else {
        proof {
            assert(texts_pre_roll + Seq::<FloatingText>::empty() =~= texts_pre_roll);
        }
    }

    proof {
        match hit {
            Some(idx) => {
                assert(spec_shield_burst_fill(w0.particles@, pool0,
                    w0.obstacles@[idx as int].rect));
                assert(spec_economy_tail(w0, *world, true, *draws, pool0));
            },
            None => {},
        }
    }
}


/// How many of the first `i` collectibles overlap the player.
pub open spec fn spec_picked_count(items: Seq<Collectible>, p: Player, i: int) -> int
    decreases i,
{
    if i <= 0 {
        0
    } else {
        spec_picked_count(items, p, i - 1) + (if spec_picked(items[i - 1], p) {
            1int
        } else {
            0int
        })
    }
}

/// The pickup fold counts every overlapping collectible exactly once and
/// skips none: the combo after the pass is the combo before plus the
/// number of overlapping items, saturating at 999.
pub proof fn lemma_pickups_counted_once(items: Seq<Collectible>, p: Player, i: int, e: Econ)
    requires
        0 <= i <= items.len(),
        0 <= e.combo <= 999,
    ensures
        0 <= spec_picked_count(items, p, i),
        spec_pickups_down(items, p, i, e).combo == spec_min_i(
            e.combo + spec_picked_count(items, p, i), 999),
    decreases i,
{
    if i > 0 {
        let c1 = spec_picked_count(items, p, i - 1);
        if spec_picked(items[i - 1], p) {
            let e2 = spec_apply_pickup(e, items[i - 1].value as int);
            lemma_pickups_counted_once(items, p, i - 1, e2);
            assert(spec_pickups_down(items, p, i, e) == spec_pickups_down(items, p, i - 1,
                e2));
            assert(spec_picked_count(items, p, i) == c1 + 1);
            assert(e2.combo == spec_min_i(e.combo + 1, 999));
            assert(spec_min_i(spec_min_i(e.combo + 1, 999) + c1, 999) == spec_min_i(
                e.combo + 1 + c1, 999));
        } else {
            lemma_pickups_counted_once(items, p, i - 1, e);
            assert(spec_pickups_down(items, p, i, e) == spec_pickups_down(items, p, i - 1, e));
            assert(spec_picked_count(items, p, i) == c1);
        }
    }
}

/// A shield absorption and a death exclude one another in a frame. Under
/// an active shield a non-pit hit never ends the run, and the absorption
/// consumes exactly one obstacle (the first hit in list order) and the
/// shield itself: afterwards the slot is empty unless the same frame's
/// rare roll armed a fresh power-up at full duration. A pit, or any hit
/// without a shield, ends the run and consumes neither an obstacle nor
/// the power-up.
pub proof fn lemma_shield_absorption(w0: World, w1: World, ground: int, draws: FrameDraws)
    requires
        spec_collision_resolution(w0, w1, ground, draws),
    ensures
        ({
            let shielded = w0.power_up.active && w0.power_up.kind == PowerUpKind::Shield;
            match spec_first_hit(w0.obstacles@, w0.player, ground) {
                Some(i) => if shielded && w0.obstacles@[i].kind != ObstacleKind::Pit {
                    &&& w1.state == w0.state
                    &&& w1.obstacles@.len() == w0.obstacles@.len() - 1
                    &&& (w1.power_up.active ==> w1.power_up.timer_ms == POWERUP_DURATION_MS)
                } else {
                    &&& w1.state == (GameState::GameOver {
                        cooldown_ms: GAME_OVER_COOLDOWN_MS as i64,
                    })
                    &&& w1.obstacles@ == w0.obstacles@
                    &&& w1.power_up == w0.power_up
                },
                None => w1.obstacles@ == w0.obstacles@ && w1.state == w0.state,
            }
        }),
{
    let shielded = w0.power_up.active && w0.power_up.kind == PowerUpKind::Shield;
    match spec_first_hit(w0.obstacles@, w0.player, ground) {
        Some(i) => {
            if shielded && w0.obstacles@[i].kind != ObstacleKind::Pit {
                lemma_first_hit_in_range(w0.obstacles@, w0.player, ground, 0);
                assert(w1.obstacles@ == w0.obstacles@.remove(i));
            }
        },
        None => {},
    }
}


} // verus!
