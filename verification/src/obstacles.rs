//! Obstacles: spawn geometry, per-frame motion and culling tests.

use vstd::prelude::*;
use crate::constants::{
    COORD_LIMIT, MAX_FRAME_MS, MAX_SCROLL_SPEED, PLAYER_H, SCREEN_W, TIME_CAP, TWO_PI_MRAD,
};
use crate::geom::Rect;
use crate::rng::FrameDraws;
use crate::types::ObstacleKind;
use crate::utils::{scaled, spec_scaled};

verus! {

/// A hazard scrolling toward the player: its display rectangle, the
/// (possibly shrunken) hurt-box used for collision, and an animation phase
/// (saw rotation; a drone's bob phase stays at its spawn value).
#[derive(Clone, Copy, PartialEq, Eq, Structural, Debug)]
pub struct Obstacle {
    pub kind: ObstacleKind,
    pub rect: Rect,
    pub hurt_box: Rect,
    pub saw_phase_mrad: i64,
}

impl Obstacle {
    pub open spec fn wf(self) -> bool {
        &&& self.rect.wf()
        &&& self.hurt_box.wf()
        &&& -COORD_LIMIT <= self.rect.x <= COORD_LIMIT
        &&& -COORD_LIMIT <= self.rect.y <= COORD_LIMIT
        &&& 0 <= self.saw_phase_mrad < TWO_PI_MRAD
    }

    /// The geometry a spawn with unit draws `a`, `b`, `c`, `d` (each in
    /// `[0, 1000)`) produces for each kind.
    pub open spec fn spec_new(kind: ObstacleKind, ground_y: int, a: int, b: int, c: int,
        d: int) -> Obstacle {
        match kind {
            ObstacleKind::Crate => {
                let w = 52_000 + 40 * a;
                let h = 56_000 + 42 * b;
                let x = SCREEN_W + w + 120 * c;
                let rect = Rect {
                    x: x as i64,
                    y: (ground_y - h) as i64,
                    w: w as i64,
                    h: h as i64,
                };
                Obstacle { kind, rect, hurt_box: rect, saw_phase_mrad: 0 }
            },
            ObstacleKind::Saw => {
                let size = 66_000 + 24 * a;
                let x = SCREEN_W + size + 160 * c;
                let y = ground_y - size + (-12_000 + 24 * b);
                let rect = Rect {
                    x: x as i64,
                    y: y as i64,
                    w: size as i64,
                    h: size as i64,
                };
                Obstacle {
                    kind,
                    rect,
                    hurt_box: rect.spec_inflate(-12_000, -12_000),
                    saw_phase_mrad: ((TWO_PI_MRAD * d) / 1_000) as i64,
                }
            },
            ObstacleKind::Pit => {
                let w = 140_000 + 120 * a;
                let x = SCREEN_W + w + 40_000 + 150 * b;
                let rect = Rect {
                    x: x as i64,
                    y: (ground_y - 4_000) as i64,
                    w: w as i64,
                    h: 32_000,
                };
                Obstacle { kind, rect, hurt_box: rect, saw_phase_mrad: 0 }
            },
            ObstacleKind::Drone => {
                let x = SCREEN_W + 78_000 + 160 * c;
                let y = ground_y - PLAYER_H - (120_000 + 90 * b);
                let rect = Rect {
                    x: x as i64,
                    y: y as i64,
                    w: 78_000,
                    h: 48_000,
                };
                Obstacle {
                    kind,
                    rect,
                    hurt_box: rect.spec_inflate(-10_000, -10_000),
                    saw_phase_mrad: 0,
                }
            },
        }
    }

    /// Spawn an obstacle of `kind` off the right edge, shaped by the unit
    /// draws of `draws`.
    pub fn new(kind: ObstacleKind, ground_y: i64, draws: &FrameDraws) -> (r: Obstacle)
        requires
            crate::player::ground_in_band(ground_y as int),
        ensures
            r == Obstacle::spec_new(kind, ground_y as int, (draws.shape_a % 1000) as int,
                (draws.shape_b % 1000) as int, (draws.shape_c % 1000) as int,
                (draws.shape_d % 1000) as int),
            r.wf(),
            r.kind == kind,
    {
        let a: i64 = (draws.shape_a % 1000) as i64;
        let b: i64 = (draws.shape_b % 1000) as i64;
        let c: i64 = (draws.shape_c % 1000) as i64;
        let d: i64 = (draws.shape_d % 1000) as i64;
        match kind {
            ObstacleKind::Crate => {
                let w: i64 = 52_000 + 40 * a;
                let h: i64 = 56_000 + 42 * b;
                let x: i64 = SCREEN_W + w + 120 * c;
                let rect = Rect::new(x, ground_y - h, w, h);
                Obstacle { kind, rect, hurt_box: rect, saw_phase_mrad: 0 }
            },
            ObstacleKind::Saw => {
                let size: i64 = 66_000 + 24 * a;
                let x: i64 = SCREEN_W + size + 160 * c;
                let y: i64 = ground_y - size + (-12_000 + 24 * b);
                let rect = Rect::new(x, y, size, size);
                Obstacle {
                    kind,
                    rect,
                    hurt_box: rect.inflate(-12_000, -12_000),
                    saw_phase_mrad: (TWO_PI_MRAD * d) / 1_000,
                }
            },
            ObstacleKind::Pit => {
                let w: i64 = 140_000 + 120 * a;
                let x: i64 = SCREEN_W + w + 40_000 + 150 * b;
                let rect = Rect::new(x, ground_y - 4_000, w, 32_000);
                Obstacle { kind, rect, hurt_box: rect, saw_phase_mrad: 0 }
            },
            ObstacleKind::Drone => {
                let x: i64 = SCREEN_W + 78_000 + 160 * c;
                let y: i64 = ground_y - PLAYER_H - (120_000 + 90 * b);
                let rect = Rect::new(x, y, 78_000, 48_000);
                Obstacle {
                    kind,
                    rect,
                    hurt_box: rect.inflate(-10_000, -10_000),
                    saw_phase_mrad: 0,
                }
            },
        }
    }

    /// One frame of motion: both boxes scroll left (floored at the
    /// coordinate limit), a saw's blade turns, and a drone re-anchors its
    /// hurt-box to its body after bobbing by the sine of its phase.
    pub open spec fn spec_update(self, dt: int, speed: int) -> Obstacle {
        let dx = spec_scaled(speed, dt, 1_000);
        let rx = if self.rect.x - dx < -COORD_LIMIT {
            -COORD_LIMIT as int
        } else {
            self.rect.x - dx
        };
        let hx0 = if self.hurt_box.x - dx < -COORD_LIMIT {
            -COORD_LIMIT as int
        } else {
            self.hurt_box.x - dx
        };
        let phase = if self.kind == ObstacleKind::Saw {
            (self.saw_phase_mrad + (6_400 * dt) / 1_000) % (TWO_PI_MRAD as int)
        } else {
            self.saw_phase_mrad as int
        };
        if self.kind == ObstacleKind::Drone {
            let bob = spec_scaled(crate::utils::spec_sin_milli(self.saw_phase_mrad as int) * 22,
                dt, 1_000_000);
            let ry = if self.rect.y + bob > COORD_LIMIT {
                COORD_LIMIT as int
            } else if self.rect.y + bob < -COORD_LIMIT {
                -COORD_LIMIT as int
            } else {
                self.rect.y + bob
            };
            Obstacle {
                kind: self.kind,
                rect: Rect { x: rx as i64, y: ry as i64, ..self.rect },
                hurt_box: Rect {
                    x: (rx + 8_000) as i64,
                    y: (ry + 8_000) as i64,
                    ..self.hurt_box
                },
                saw_phase_mrad: phase as i64,
            }
        } else {
            Obstacle {
                kind: self.kind,
                rect: Rect { x: rx as i64, ..self.rect },
                hurt_box: Rect { x: hx0 as i64, ..self.hurt_box },
                saw_phase_mrad: phase as i64,
            }
        }
    }

    /// Advance the obstacle by `dt` at scroll speed `speed`.
    pub fn update(&mut self, dt: i64, speed: i64)
        requires
            old(self).wf(),
            0 <= dt <= MAX_FRAME_MS,
            0 <= speed <= MAX_SCROLL_SPEED,
        ensures
            *final(self) == old(self).spec_update(dt as int, speed as int),
            final(self).wf(),
    {
        let dx: i64 = scaled(speed, dt, 1_000);
        self.rect.x = if self.rect.x - dx < -COORD_LIMIT {
            -COORD_LIMIT
        } else {
            self.rect.x - dx
        };
        self.hurt_box.x = if self.hurt_box.x - dx < -COORD_LIMIT {
            -COORD_LIMIT
        } else {
            self.hurt_box.x - dx
        };
        if self.kind == ObstacleKind::Saw {
            let inc: i64 = ((6_400u64 * (dt as u64)) / 1_000) as i64;
            self.saw_phase_mrad = (((self.saw_phase_mrad + inc) as u64) % (TWO_PI_MRAD as u64))
                as i64;
        }
        if self.kind == ObstacleKind::Drone {
            let s: i64 = crate::utils::sin_milli(self.saw_phase_mrad);
            let bob: i64 = scaled(s * 22, dt, 1_000_000);
            let ry: i64 = if self.rect.y + bob > COORD_LIMIT {
                COORD_LIMIT
            } else if self.rect.y + bob < -COORD_LIMIT {
                -COORD_LIMIT
            } else {
                self.rect.y + bob
            };
            self.rect.y = ry;
            self.hurt_box.y = ry + 8_000;
            self.hurt_box.x = self.rect.x + 8_000;
        }
    }

    /// Fully scrolled past the left edge (with a 200-pixel margin).
    pub open spec fn spec_is_offscreen(self) -> bool {
        self.rect.x + self.rect.w < -200_000
    }

    pub fn is_offscreen(&self) -> (r: bool)
        requires
            self.wf(),
        ensures
            r == self.spec_is_offscreen(),
    {
        self.rect.x + self.rect.w < -200_000
    }
}

/// Which obstacle a kind roll (reduced modulo 1000) selects after `time_ms`
/// of running: crates and saws always, pits only once twenty seconds have
/// passed, drones otherwise.
pub open spec fn spec_choose_obstacle_kind(time_ms: int, roll: int) -> ObstacleKind {
    let t = if time_ms < 180_000 {
        time_ms
    } else {
        180_000
    };
    if roll < 400 {
        ObstacleKind::Crate
    } else if roll < 680 {
        ObstacleKind::Saw
    } else if t >= 20_000 && roll < 880 {
        ObstacleKind::Pit
    } else {
        ObstacleKind::Drone
    }
}

/// Pick the next obstacle kind from the run time and a roll.
pub fn choose_obstacle_kind(time_ms: i64, roll: u32) -> (r: ObstacleKind)
    requires
        0 <= time_ms <= TIME_CAP,
    ensures
        r == spec_choose_obstacle_kind(time_ms as int, (roll % 1000) as int),
{
    let t: i64 = if time_ms < 180_000 {
        time_ms
    } else {
        180_000
    };
    let u: u32 = roll % 1000;
    if u < 400 {
        ObstacleKind::Crate
    } else if u < 680 {
        ObstacleKind::Saw
    } else if t >= 20_000 && u < 880 {
        ObstacleKind::Pit
    } else {
        ObstacleKind::Drone
    }
}

} // verus!
