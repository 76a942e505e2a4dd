//! Collectibles: spawn geometry, per-frame motion and culling tests.

use vstd::prelude::*;
use crate::constants::{COORD_LIMIT, MAX_FRAME_MS, MAX_SCROLL_SPEED, PLAYER_H, SCREEN_W,
    TWO_PI_MRAD};
use crate::geom::Rect;
use crate::rng::FrameDraws;
use crate::types::CollectibleKind;
use crate::utils::{scaled, spec_scaled};

verus! {

/// A coin or gem drifting toward the player, with the bob phase its
/// renderer reads.
#[derive(Clone, Copy, PartialEq, Eq, Structural, Debug)]
pub struct Collectible {
    pub kind: CollectibleKind,
    pub rect: Rect,
    pub value: u32,
    pub float_phase_mrad: i64,
}

impl Collectible {
    pub open spec fn wf(self) -> bool {
        &&& self.rect.wf()
        &&& -COORD_LIMIT <= self.rect.x <= COORD_LIMIT
        &&& -COORD_LIMIT <= self.rect.y <= COORD_LIMIT
        &&& 0 <= self.float_phase_mrad < TWO_PI_MRAD
        &&& self.value == spec_collectible_value(self.kind)
    }

    /// The geometry a spawn with unit draws `a`, `b`, `c` (each in
    /// `[0, 1000)`) produces: coins appear close to the edge and low, gems
    /// farther out and higher, and are worth more.
    pub open spec fn spec_new(kind: CollectibleKind, ground_y: int, a: int, b: int,
        c: int) -> Collectible {
        match kind {
            CollectibleKind::Coin => Collectible {
                kind,
                rect: Rect {
                    x: (SCREEN_W + 40_000 + 160 * a) as i64,
                    y: (ground_y - PLAYER_H - (40_000 + 90 * b)) as i64,
                    w: 24_000,
                    h: 24_000,
                },
                value: 20,
                float_phase_mrad: ((TWO_PI_MRAD * c) / 1_000) as i64,
            },
            CollectibleKind::Gem => Collectible {
                kind,
                rect: Rect {
                    x: (SCREEN_W + 240_000 + 140 * a) as i64,
                    y: (ground_y - PLAYER_H - (70_000 + 150 * b)) as i64,
                    w: 30_000,
                    h: 30_000,
                },
                value: 120,
                float_phase_mrad: ((TWO_PI_MRAD * c) / 1_000) as i64,
            },
        }
    }

    /// Spawn a collectible of `kind` off the right edge, placed by the unit
    /// draws of `draws`.
    pub fn new(kind: CollectibleKind, ground_y: i64, draws: &FrameDraws) -> (r: Collectible)
        requires
            crate::player::ground_in_band(ground_y as int),
        ensures
            r == Collectible::spec_new(kind, ground_y as int, (draws.shape_a % 1000) as int,
                (draws.shape_b % 1000) as int, (draws.shape_c % 1000) as int),
            r.wf(),
            r.kind == kind,
    {
        let a: i64 = (draws.shape_a % 1000) as i64;
        let b: i64 = (draws.shape_b % 1000) as i64;
        let c: i64 = (draws.shape_c % 1000) as i64;
        let phase: i64 = (TWO_PI_MRAD * c) / 1_000;
        match kind {
            CollectibleKind::Coin => Collectible {
                kind,
                rect: Rect::new(SCREEN_W + 40_000 + 160 * a,
                    ground_y - PLAYER_H - (40_000 + 90 * b), 24_000, 24_000),
                value: 20,
                float_phase_mrad: phase,
            },
            CollectibleKind::Gem => Collectible {
                kind,
                rect: Rect::new(SCREEN_W + 240_000 + 140 * a,
                    ground_y - PLAYER_H - (70_000 + 150 * b), 30_000, 30_000),
                value: 120,
                float_phase_mrad: phase,
            },
        }
    }

    /// One frame of motion: scroll left (floored at the coordinate limit)
    /// and advance the bob phase.
    pub open spec fn spec_update(self, dt: int, speed: int) -> Collectible {
        let dx = spec_scaled(speed, dt, 1_000);
        let rx = if self.rect.x - dx < -COORD_LIMIT {
            -COORD_LIMIT as int
        } else {
            self.rect.x - dx
        };
        Collectible {
            rect: Rect { x: rx as i64, ..self.rect },
            float_phase_mrad: ((self.float_phase_mrad + 3 * dt) % (TWO_PI_MRAD as int)) as i64,
            ..self
        }
    }

    /// Advance the collectible by `dt` at scroll speed `speed`.
    pub fn update(&mut self, dt: i64, speed: i64)
        requires
            old(self).wf(),
            0 <= dt <= MAX_FRAME_MS,
            0 <= speed <= MAX_SCROLL_SPEED,
        ensures
            *final(self) == old(self).spec_update(dt as int, speed as int),
            final(self).wf(),
    {
        let dx: i64 = scaled(speed, dt, 1_000);
        self.rect.x = if self.rect.x - dx < -COORD_LIMIT {
            -COORD_LIMIT
        } else {
            self.rect.x - dx
        };
        self.float_phase_mrad = (((self.float_phase_mrad + 3 * dt) as u64)
            % (TWO_PI_MRAD as u64)) as i64;
    }

    /// Fully scrolled past the left edge (with a 60-pixel margin).
    pub open spec fn spec_is_offscreen(self) -> bool {
        self.rect.x + self.rect.w < -60_000
    }

    pub fn is_offscreen(&self) -> (r: bool)
        requires
            self.wf(),
        ensures
            r == self.spec_is_offscreen(),
    {
        self.rect.x + self.rect.w < -60_000
    }
}

/// The worth of a collectible kind.
pub open spec fn spec_collectible_value(kind: CollectibleKind) -> u32 {
    match kind {
        CollectibleKind::Coin => 20u32,
        CollectibleKind::Gem => 120u32,
    }
}

/// Which collectible a kind roll (reduced modulo 1000) selects: a gem on
/// the top fifth of rolls, a coin otherwise.
pub open spec fn spec_choose_collectible_kind(roll: int) -> CollectibleKind {
    if roll >= 800 {
        CollectibleKind::Gem
    } else {
        CollectibleKind::Coin
    }
}

/// Pick the next collectible kind from a roll.
pub fn choose_collectible_kind(roll: u32) -> (r: CollectibleKind)
    ensures
        r == spec_choose_collectible_kind((roll % 1000) as int),
{
    if roll % 1000 >= 800 {
        CollectibleKind::Gem
    } else {
        CollectibleKind::Coin
    }
}

} // verus!
