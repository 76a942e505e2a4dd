//! The fixed-capacity effect pool, its spawn profiles, and the floating
//! announcements.

use vstd::prelude::*;
use crate::collectibles::Collectible;
use crate::constants::{COORD_LIMIT, MAX_FRAME_MS, MAX_SCROLL_SPEED, VEL_LIMIT};
use crate::geom::Rect;
use crate::rng::SeedStream;
use crate::types::{CollectibleKind, FloatingText, FloatingTextKind};
use crate::utils::{clamp_i64, scaled, spec_clamp, spec_scaled};

verus! {

/// The tint family of a particle; the renderer maps it to a color.
#[derive(Clone, Copy, PartialEq, Eq, Structural, Debug)]
pub enum ParticleColor {
    Dust,
    ShieldBurst,
    Death,
    Coin,
    Gem,
}

/// One slot of the fixed-capacity effect pool.
#[derive(Clone, Copy, PartialEq, Eq, Structural, Debug)]
pub struct Particle {
    pub active: bool,
    pub pos_x: i64,
    pub pos_y: i64,
    pub vel_x: i64,
    pub vel_y: i64,
    pub lifetime_ms: i64,
    pub max_lifetime_ms: i64,
    pub color: ParticleColor,
}

impl Particle {
    pub open spec fn wf(self) -> bool {
        &&& -2 * COORD_LIMIT <= self.pos_x <= 2 * COORD_LIMIT
        &&& -2 * COORD_LIMIT <= self.pos_y <= 2 * COORD_LIMIT
        &&& -VEL_LIMIT <= self.vel_x <= VEL_LIMIT
        &&& -VEL_LIMIT <= self.vel_y <= VEL_LIMIT
        &&& 0 <= self.lifetime_ms <= self.max_lifetime_ms
        &&& self.max_lifetime_ms <= 1_200
        &&& self.active ==> self.lifetime_ms > 0
    }

    /// An unclaimed pool slot.
    pub open spec fn spec_inactive() -> Particle {
        Particle {
            active: false,
            pos_x: 0,
            pos_y: 0,
            vel_x: 0,
            vel_y: 0,
            lifetime_ms: 0,
            max_lifetime_ms: 0,
            color: ParticleColor::Dust,
        }
    }

    pub fn inactive() -> (r: Particle)
        ensures
            r == Particle::spec_inactive(),
            r.wf(),
    {
        Particle {
            active: false,
            pos_x: 0,
            pos_y: 0,
            vel_x: 0,
            vel_y: 0,
            lifetime_ms: 0,
            max_lifetime_ms: 0,
            color: ParticleColor::Dust,
        }
    }
}

/// What a freshly claimed slot of a spawn profile looks like: alive at the
/// given point, velocity and lifetime inside the profile's ranges, in the
/// profile's color.
pub open spec fn fresh_in_profile(p: Particle, x: int, y: int, vx_lo: int, vx_hi: int,
    vy_lo: int, vy_hi: int, life_lo: int, life_hi: int, color: ParticleColor) -> bool {
    &&& p.active
    &&& p.pos_x == x
    &&& p.pos_y == y
    &&& vx_lo <= p.vel_x < vx_hi
    &&& vy_lo <= p.vel_y < vy_hi
    &&& life_lo <= p.lifetime_ms < life_hi
    &&& p.max_lifetime_ms == p.lifetime_ms
    &&& p.color == color
}

/// Build one fresh particle for a profile, drawing its variation from the
/// seed stream.
fn fresh_particle(x: i64, y: i64, vx_lo: i64, vx_span: i64, vy_lo: i64, vy_span: i64,
    life_lo: i64, life_span: i64, color: ParticleColor, stream: &mut SeedStream) -> (r: Particle)
    requires
        -2 * COORD_LIMIT <= x <= 2 * COORD_LIMIT,
        -2 * COORD_LIMIT <= y <= 2 * COORD_LIMIT,
        -1_000_000 <= vx_lo && 0 < vx_span <= 1_000_000 && vx_lo + vx_span <= 1_000_000,
        -1_000_000 <= vy_lo && 0 < vy_span <= 1_000_000 && vy_lo + vy_span <= 1_000_000,
        0 < life_lo && 0 < life_span && life_lo + life_span <= 1_200,
    ensures
        fresh_in_profile(r, x as int, y as int, vx_lo as int, vx_lo + vx_span, vy_lo as int,
            vy_lo + vy_span, life_lo as int, life_lo + life_span, color),
        r.wf(),
{
    let ux: i64 = stream.next_unit() as i64;
    let uy: i64 = stream.next_unit() as i64;
    let ul: i64 = stream.next_unit() as i64;
    let vx: i64 = vx_lo + scaled(vx_span, ux, 1_000);
    let vy: i64 = vy_lo + scaled(vy_span, uy, 1_000);
    let life: i64 = life_lo + scaled(life_span, ul, 1_000);
    proof {
        lemma_span_draw(vx_span as int, ux as int);
        lemma_span_draw(vy_span as int, uy as int);
        lemma_span_draw(life_span as int, ul as int);
    }
    Particle {
        active: true,
        pos_x: x,
        pos_y: y,
        vel_x: vx,
        vel_y: vy,
        lifetime_ms: life,
        max_lifetime_ms: life,
        color,
    }
}

/// A unit draw scaled into a span stays inside `[0, span)`.
proof fn lemma_span_draw(span: int, u: int)
    requires
        0 < span,
        0 <= u < 1_000,
    ensures
        0 <= spec_scaled(span, u, 1_000) < span,
{
    assert(span * u <= span * 999) by (nonlinear_arith)
        requires
            0 < span,
            u <= 999,
    {
    }
    vstd::arithmetic::div_mod::lemma_div_is_ordered(span * u, span * 999, 1_000);
    assert((span * 999) / 1_000 < span) by (nonlinear_arith)
        requires
            0 < span,
    {
    }
    vstd::arithmetic::div_mod::lemma_div_pos_is_pos(span * u, 1_000);
}

/// How many free (inactive) slots stand before position `j` of the pool.
pub open spec fn spec_free_before(s: Seq<Particle>, j: int) -> int
    decreases j,
{
    if j <= 0 {
        0
    } else {
        spec_free_before(s, j - 1) + (if !s[j - 1].active {
            1int
        } else {
            0int
        })
    }
}

/// Never more free slots before `j` than slots before `j`.
pub proof fn lemma_free_before_le(s: Seq<Particle>, j: int)
    requires
        0 <= j,
    ensures
        0 <= spec_free_before(s, j) <= j,
    decreases j,
{
    if j > 0 {
        lemma_free_before_le(s, j - 1);
    }
}

/// Exactly what a spawn pass does to the pool: scanning from the front, the
/// first `count` free slots are claimed fresh in the given profile, and
/// every other slot (active, or free but past the budget) is untouched.
pub open spec fn spawn_fills(before: Seq<Particle>, after: Seq<Particle>, count: int, x: int,
    y: int, vx_lo: int, vx_hi: int, vy_lo: int, vy_hi: int, life_lo: int, life_hi: int,
    color: ParticleColor) -> bool {
    &&& after.len() == before.len()
    &&& forall|j: int|
        0 <= j < before.len() ==> if !before[j].active && spec_free_before(before, j) < count {
            fresh_in_profile(#[trigger] after[j], x, y, vx_lo, vx_hi, vy_lo, vy_hi, life_lo,
                life_hi, color)
        } else {
            after[j] == before[j]
        }
}

/// All particles of the pool well-formed.
pub open spec fn pool_wf(s: Seq<Particle>) -> bool {
    forall|j: int| 0 <= j < s.len() ==> (#[trigger] s[j]).wf()
}

/// Dust kicked up at a jump: up to `count` slots, thrown upward.
pub fn spawn_dust(particles: &mut Vec<Particle>, origin_x: i64, origin_y: i64, count: usize,
    stream: &mut SeedStream)
    requires
        pool_wf(old(particles)@),
        -2 * COORD_LIMIT <= origin_x <= 2 * COORD_LIMIT,
        -2 * COORD_LIMIT <= origin_y <= 2 * COORD_LIMIT,
    ensures
        spawn_fills(old(particles)@, final(particles)@, count as int, origin_x as int,
            origin_y as int, -90_000, 90_000, -240_000, -120_000, 350, 600,
            ParticleColor::Dust),
        pool_wf(final(particles)@),
{
    let ghost before = particles@;
    let mut claimed: usize = 0;
    let mut i: usize = 0;
    while i < particles.len()
        invariant
            particles@.len() == before.len(),
            i <= before.len(),
            forall|j: int| i <= j < before.len() ==> particles@[j] == before[j],
            claimed as int == crate::utils::spec_min_i(count as int, spec_free_before(before,
                i as int)),
            forall|j: int|
                0 <= j < i ==> if !before[j].active && spec_free_before(before, j)
                    < count as int {
                    fresh_in_profile(#[trigger] particles@[j], origin_x as int,
                        origin_y as int, -90_000, 90_000, -240_000, -120_000, 350, 600,
                        ParticleColor::Dust)
                } else {
                    particles@[j] == before[j]
                },
            pool_wf(particles@),
            -2 * COORD_LIMIT <= origin_x <= 2 * COORD_LIMIT,
            -2 * COORD_LIMIT <= origin_y <= 2 * COORD_LIMIT,
        decreases before.len() - i,
    {
        proof {
            lemma_free_before_le(before, i as int);
        }
        if claimed < count && !particles[i].active {
            let p = fresh_particle(origin_x, origin_y, -90_000, 180_000, -240_000, 120_000, 350,
                250, ParticleColor::Dust, stream);
            particles[i] = p;
            claimed = claimed + 1;
        }
        i = i + 1;
    }
}

/// Burst when the shield absorbs a hit: up to 32 slots, scattered from the
/// obstacle's center in every direction.
pub fn spawn_shield_burst(particles: &mut Vec<Particle>, rect: Rect, stream: &mut SeedStream)
    requires
        pool_wf(old(particles)@),
        rect.wf(),
        -COORD_LIMIT <= rect.x <= COORD_LIMIT,
        -COORD_LIMIT <= rect.y <= COORD_LIMIT,
    ensures
        spawn_fills(old(particles)@, final(particles)@, 32, rect.x + rect.w / 2,
            rect.y + rect.h / 2, -260_000, 260_000, -260_000, 260_000, 400, 800,
            ParticleColor::ShieldBurst),
        pool_wf(final(particles)@),
{
    let ghost before = particles@;
    proof {
        vstd::arithmetic::div_mod::lemma_div_is_ordered_by_denominator(rect.w as int, 1, 2);
        vstd::arithmetic::div_mod::lemma_div_is_ordered_by_denominator(rect.h as int, 1, 2);
    }
    let cx: i64 = rect.x + ((rect.w as u64) / 2) as i64;
    let cy: i64 = rect.y + ((rect.h as u64) / 2) as i64;
    let mut claimed: usize = 0;
    let mut i: usize = 0;
    while i < particles.len()
        invariant
            particles@.len() == before.len(),
            i <= before.len(),
            forall|j: int| i <= j < before.len() ==> particles@[j] == before[j],
            claimed as int == crate::utils::spec_min_i(32, spec_free_before(before, i as int)),
            forall|j: int|
                0 <= j < i ==> if !before[j].active && spec_free_before(before, j) < 32 {
                    fresh_in_profile(#[trigger] particles@[j], rect.x + rect.w / 2,
                        rect.y + rect.h / 2, -260_000, 260_000, -260_000, 260_000, 400, 800,
                        ParticleColor::ShieldBurst)
                } else {
                    particles@[j] == before[j]
                },
            pool_wf(particles@),
            rect.wf(),
            cx == rect.x + rect.w / 2,
            cy == rect.y + rect.h / 2,
            -2 * COORD_LIMIT <= cx <= 2 * COORD_LIMIT,
            -2 * COORD_LIMIT <= cy <= 2 * COORD_LIMIT,
        decreases before.len() - i,
    {
        proof {
            lemma_free_before_le(before, i as int);
        }
        if claimed < 32 && !particles[i].active {
            let p = fresh_particle(cx, cy, -260_000, 520_000, -260_000, 520_000, 400, 400,
                ParticleColor::ShieldBurst, stream);
            particles[i] = p;
            claimed = claimed + 1;
        }
        i = i + 1;
    }
}

/// The text pushed when a run is lost.
pub open spec fn spec_run_lost_text(x: int, y: int) -> FloatingText {
    FloatingText {
        kind: FloatingTextKind::RunLost,
        pos_x: x as i64,
        pos_y: y as i64,
        vel_x: 0,
        vel_y: -28_000i64,
        timer_ms: 1_600,
        max_timer_ms: 1_600,
    }
}

/// Burst and announcement at the player's death: every free slot is
/// claimed, and the loss text is pushed.
pub fn spawn_death_effect(particles: &mut Vec<Particle>, floating_texts: &mut Vec<FloatingText>,
    pos_x: i64, pos_y: i64, stream: &mut SeedStream)
    requires
        pool_wf(old(particles)@),
        -2 * COORD_LIMIT <= pos_x <= 2 * COORD_LIMIT,
        -2 * COORD_LIMIT <= pos_y <= 2 * COORD_LIMIT,
    ensures
        spawn_fills(old(particles)@, final(particles)@, old(particles)@.len() as int,
            pos_x as int, pos_y as int, -380_000, 380_000, -380_000, 120_000, 700, 1_100,
            ParticleColor::Death),
        pool_wf(final(particles)@),
        final(floating_texts)@ == old(floating_texts)@.push(
            spec_run_lost_text(pos_x as int, pos_y as int)),
{
    let ghost before = particles@;
    let mut i: usize = 0;
    while i < particles.len()
        invariant
            particles@.len() == before.len(),
            i <= before.len(),
            forall|j: int| i <= j < before.len() ==> particles@[j] == before[j],
            forall|j: int|
                0 <= j < i ==> if !before[j].active && spec_free_before(before, j)
                    < before.len() as int {
                    fresh_in_profile(#[trigger] particles@[j], pos_x as int, pos_y as int,
                        -380_000, 380_000, -380_000, 120_000, 700, 1_100, ParticleColor::Death)
                } else {
                    particles@[j] == before[j]
                },
            pool_wf(particles@),
            -2 * COORD_LIMIT <= pos_x <= 2 * COORD_LIMIT,
            -2 * COORD_LIMIT <= pos_y <= 2 * COORD_LIMIT,
        decreases before.len() - i,
    {
        proof {
            lemma_free_before_le(before, i as int);
        }
        if !particles[i].active {
            let p = fresh_particle(pos_x, pos_y, -380_000, 760_000, -380_000, 500_000, 700, 400,
                ParticleColor::Death, stream);
            particles[i] = p;
        }
        i = i + 1;
    }
    floating_texts.push(FloatingText {
        kind: FloatingTextKind::RunLost,
        pos_x,
        pos_y,
        vel_x: 0,
        vel_y: -28_000,
        timer_ms: 1_600,
        max_timer_ms: 1_600,
    });
}

/// The text pushed when a collectible is picked up.
pub open spec fn spec_pickup_text(item: Collectible) -> FloatingText {
    FloatingText {
        kind: FloatingTextKind::Pickup {
            value: item.value,
            gem: item.kind == CollectibleKind::Gem,
        },
        pos_x: item.rect.x,
        pos_y: item.rect.y,
        vel_x: 0,
        vel_y: -40_000i64,
        timer_ms: 1_000,
        max_timer_ms: 1_000,
    }
}

/// The color family of a pickup flash.
pub open spec fn spec_pickup_color(kind: CollectibleKind) -> ParticleColor {
    if kind == CollectibleKind::Gem {
        ParticleColor::Gem
    } else {
        ParticleColor::Coin
    }
}

/// Flash and reward text when a collectible is picked up: up to 14 slots.
pub fn spawn_collect_effect(particles: &mut Vec<Particle>,
    floating_texts: &mut Vec<FloatingText>, item: &Collectible, stream: &mut SeedStream)
    requires
        pool_wf(old(particles)@),
        item.wf(),
    ensures
        spawn_fills(old(particles)@, final(particles)@, 14, item.rect.x + item.rect.w / 2,
            item.rect.y as int, -110_000, 110_000, -220_000, -60_000, 400, 800,
            spec_pickup_color(item.kind)),
        pool_wf(final(particles)@),
        final(floating_texts)@ == old(floating_texts)@.push(spec_pickup_text(*item)),
{
    let ghost before = particles@;
    proof {
        vstd::arithmetic::div_mod::lemma_div_is_ordered_by_denominator(item.rect.w as int, 1, 2);
    }
    let cx: i64 = item.rect.x + ((item.rect.w as u64) / 2) as i64;
    let color = if item.kind == CollectibleKind::Gem {
        ParticleColor::Gem
    } else {
        ParticleColor::Coin
    };
    let mut claimed: usize = 0;
    let mut i: usize = 0;
    while i < particles.len()
        invariant
            particles@.len() == before.len(),
            i <= before.len(),
            forall|j: int| i <= j < before.len() ==> particles@[j] == before[j],
            claimed as int == crate::utils::spec_min_i(14, spec_free_before(before, i as int)),
            forall|j: int|
                0 <= j < i ==> if !before[j].active && spec_free_before(before, j) < 14 {
                    fresh_in_profile(#[trigger] particles@[j], item.rect.x + item.rect.w / 2,
                        item.rect.y as int, -110_000, 110_000, -220_000, -60_000, 400, 800,
                        spec_pickup_color(item.kind))
                } else {
                    particles@[j] == before[j]
                },
            pool_wf(particles@),
            item.wf(),
            color == spec_pickup_color(item.kind),
            cx == item.rect.x + item.rect.w / 2,
            -2 * COORD_LIMIT <= cx <= 2 * COORD_LIMIT,
        decreases before.len() - i,
    {
        proof {
            lemma_free_before_le(before, i as int);
        }
        if claimed < 14 && !particles[i].active {
            let p = fresh_particle(cx, item.rect.y, -110_000, 220_000, -220_000, 160_000, 400,
                400, color, stream);
            particles[i] = p;
            claimed = claimed + 1;
        }
        i = i + 1;
    }
    floating_texts.push(FloatingText {
        kind: FloatingTextKind::Pickup {
            value: item.value,
            gem: matches!(item.kind, CollectibleKind::Gem),
        },
        pos_x: item.rect.x,
        pos_y: item.rect.y,
        vel_x: 0,
        vel_y: -40_000,
        timer_ms: 1_000,
        max_timer_ms: 1_000,
    });
}

/// One frame of a particle: life runs down (the slot frees at zero),
/// otherwise the position integrates, scroll drag pulls the horizontal
/// velocity back and gravity pulls the vertical one down.
pub open spec fn spec_update_particle(p: Particle, dt: int, scroll_speed: int) -> Particle {
    if !p.active {
        p
    } else if p.lifetime_ms - dt <= 0 {
        Particle { active: false, lifetime_ms: 0, max_lifetime_ms: p.max_lifetime_ms, ..p }
    } else {
        let px = spec_clamp(p.pos_x + spec_scaled(p.vel_x as int, dt, 1_000),
            -2 * COORD_LIMIT as int, 2 * COORD_LIMIT as int);
        let py = spec_clamp(p.pos_y + spec_scaled(p.vel_y as int, dt, 1_000),
            -2 * COORD_LIMIT as int, 2 * COORD_LIMIT as int);
        let vx = spec_clamp(p.vel_x - spec_scaled(scroll_speed * 32, dt, 100_000),
            -VEL_LIMIT as int, VEL_LIMIT as int);
        let vy = spec_clamp(p.vel_y + 520 * dt, -VEL_LIMIT as int, VEL_LIMIT as int);
        Particle {
            active: true,
            pos_x: px as i64,
            pos_y: py as i64,
            vel_x: vx as i64,
            vel_y: vy as i64,
            lifetime_ms: (p.lifetime_ms - dt) as i64,
            max_lifetime_ms: p.max_lifetime_ms,
            color: p.color,
        }
    }
}

/// Advance every pool slot by `dt` under the current scroll speed.
pub fn update_particles(particles: &mut Vec<Particle>, dt: i64, scroll_speed: i64)
    requires
        pool_wf(old(particles)@),
        0 <= dt <= MAX_FRAME_MS,
        0 <= scroll_speed <= MAX_SCROLL_SPEED,
    ensures
        final(particles)@.len() == old(particles)@.len(),
        forall|j: int|
            0 <= j < old(particles)@.len() ==> final(particles)@[j] == spec_update_particle(
                #[trigger] old(particles)@[j], dt as int, scroll_speed as int),
        pool_wf(final(particles)@),
{
    let ghost before = particles@;
    let mut i: usize = 0;
    while i < particles.len()
        invariant
            particles@.len() == before.len(),
            i <= before.len(),
            forall|j: int| i <= j < before.len() ==> particles@[j] == before[j],
            forall|j: int|
                0 <= j < i ==> particles@[j] == spec_update_particle(#[trigger] before[j],
                    dt as int, scroll_speed as int),
            pool_wf(particles@),
            0 <= dt <= MAX_FRAME_MS,
            0 <= scroll_speed <= MAX_SCROLL_SPEED,
        decreases before.len() - i,
    {
        let p = particles[i];
        if p.active {
            if p.lifetime_ms - dt <= 0 {
                particles[i] = Particle {
                    active: false,
                    lifetime_ms: 0,
                    max_lifetime_ms: p.max_lifetime_ms,
                    ..p
                };
            } else {
                let px = clamp_i64(p.pos_x + scaled(p.vel_x, dt, 1_000), -2 * COORD_LIMIT,
                    2 * COORD_LIMIT);
                let py = clamp_i64(p.pos_y + scaled(p.vel_y, dt, 1_000), -2 * COORD_LIMIT,
                    2 * COORD_LIMIT);
                let vx = clamp_i64(p.vel_x - scaled(scroll_speed * 32, dt, 100_000), -VEL_LIMIT,
                    VEL_LIMIT);
                let vy = clamp_i64(p.vel_y + 520 * dt, -VEL_LIMIT, VEL_LIMIT);
                particles[i] = Particle {
                    active: true,
                    pos_x: px,
                    pos_y: py,
                    vel_x: vx,
                    vel_y: vy,
                    lifetime_ms: p.lifetime_ms - dt,
                    max_lifetime_ms: p.max_lifetime_ms,
                    color: p.color,
                };
            }
        }
        i = i + 1;
    }
}

/// One frame of a floating text: drift by its velocity and run its fade
/// timer down.
pub open spec fn spec_update_text(t: FloatingText, dt: int) -> FloatingText {
    FloatingText {
        pos_x: spec_clamp(t.pos_x + spec_scaled(t.vel_x as int, dt, 1_000),
            -2 * COORD_LIMIT as int, 2 * COORD_LIMIT as int) as i64,
        pos_y: spec_clamp(t.pos_y + spec_scaled(t.vel_y as int, dt, 1_000),
            -2 * COORD_LIMIT as int, 2 * COORD_LIMIT as int) as i64,
        timer_ms: (t.timer_ms - dt) as i64,
        ..t
    }
}

/// Every floating text well-formed.
pub open spec fn texts_wf(s: Seq<FloatingText>) -> bool {
    forall|j: int| 0 <= j < s.len() ==> text_wf(#[trigger] s[j])
}

pub open spec fn text_wf(t: FloatingText) -> bool {
    &&& -2 * COORD_LIMIT <= t.pos_x <= 2 * COORD_LIMIT
    &&& -2 * COORD_LIMIT <= t.pos_y <= 2 * COORD_LIMIT
    &&& -VEL_LIMIT <= t.vel_x <= VEL_LIMIT
    &&& -VEL_LIMIT <= t.vel_y <= VEL_LIMIT
    &&& 0 < t.timer_ms <= t.max_timer_ms <= 2_000
}

/// Advance every floating text and drop the ones whose timer ran out.
pub fn update_floating_texts(floating_texts: &mut Vec<FloatingText>, dt: i64)
    requires
        texts_wf(old(floating_texts)@),
        0 <= dt <= MAX_FRAME_MS,
    ensures
        final(floating_texts)@ == old(floating_texts)@.map_values(
            |t: FloatingText| spec_update_text(t, dt as int)).filter(
            |t: FloatingText| t.timer_ms > 0),
        texts_wf(final(floating_texts)@),
{
    let ghost before = floating_texts@;
    let ghost moved = before.map_values(|t: FloatingText| spec_update_text(t, dt as int));
    let ghost keep = |t: FloatingText| t.timer_ms > 0;
    let mut out: Vec<FloatingText> = Vec::new();
    let mut i: usize = 0;
    proof {
        assert(moved.take(0) =~= Seq::<FloatingText>::empty());
        assert(moved.take(0).filter(keep) =~= Seq::<FloatingText>::empty()) by {
            reveal(Seq::filter);
        }
    }
    while i < floating_texts.len()
        invariant
            floating_texts@ == before,
            i <= before.len(),
            moved == before.map_values(|t: FloatingText| spec_update_text(t, dt as int)),
            keep == (|t: FloatingText| t.timer_ms > 0),
            out@ == moved.take(i as int).filter(keep),
            texts_wf(before),
            texts_wf(out@),
            0 <= dt <= MAX_FRAME_MS,
        decreases before.len() - i,
    {
        let t = floating_texts[i];
        let px = clamp_i64(t.pos_x + scaled(t.vel_x, dt, 1_000), -2 * COORD_LIMIT,
            2 * COORD_LIMIT);
        let py = clamp_i64(t.pos_y + scaled(t.vel_y, dt, 1_000), -2 * COORD_LIMIT,
            2 * COORD_LIMIT);
        let updated = FloatingText { pos_x: px, pos_y: py, timer_ms: t.timer_ms - dt, ..t };
        proof {
            assert(updated == spec_update_text(before[i as int], dt as int));
            assert(moved.take(i + 1) =~= moved.take(i as int).push(moved[i as int]));
            crate::utils::lemma_filter_push(moved.take(i as int), moved[i as int], keep);
        }
        if updated.timer_ms > 0 {
            out.push(updated);
        }
        i = i + 1;
    }
    proof {
        assert(moved.take(before.len() as int) =~= moved);
    }
    *floating_texts = out;
}

} // verus!
