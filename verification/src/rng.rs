//! Randomness at the boundary: the one call into the process-wide
//! generator, the per-frame draw set, and the deterministic seed stream.

use vstd::prelude::*;
use crate::constants::DAY_PHASE_CYCLE;

verus! {

/// Relies on macroquad::rand::rand: one draw from the process-wide
/// pseudo-random generator (a PCG step). Nothing is promised beyond the
/// type: any `u32` may come back, and two calls may differ.
#[verifier::external_body]
fn rand_u32() -> (r: u32) {
    macroquad::rand::rand()
}

/// A deterministic unit-draw stream: a linear congruential generator that
/// expands one seed into the per-particle variation of an effect burst.
/// Substituting the seed substitutes the whole stream, which keeps every
/// update reproducible from its arguments.
#[derive(Clone, Copy, PartialEq, Eq, Structural, Debug)]
pub struct SeedStream {
    pub state: u32,
}

/// The successor state of the stream.
pub open spec fn spec_stream_next(state: int) -> int {
    (state * 1_103_515_245 + 12_345) % 0x1_0000_0000
}

/// The unit draw (in `[0, 1000)`) read off a stream state.
pub open spec fn spec_stream_unit(state: int) -> int {
    (state / 4_096) % 1_000
}

impl SeedStream {
    pub fn new(seed: u32) -> (r: SeedStream)
        ensures
            r.state == seed,
    {
        SeedStream { state: seed }
    }

    /// Advance the stream and hand out a draw in `[0, 1000)`.
    pub fn next_unit(&mut self) -> (u: u32)
        ensures
            final(self).state == spec_stream_next(old(self).state as int),
            u == spec_stream_unit(final(self).state as int),
            u < 1_000,
    {
        let s0: u64 = self.state as u64;
        proof {
            assert(s0 * 1_103_515_245 + 12_345 < 0x8000_0000_0000_0000u64) by (nonlinear_arith)
                requires
                    s0 <= 0xFFFF_FFFFu64,
            {
            }
        }
        let wide: u64 = s0 * 1_103_515_245 + 12_345;
        self.state = (wide % 0x1_0000_0000) as u32;
        (self.state / 4_096) % 1_000
    }
}

/// The random draws one frame consumes, all plain integers. The embedding
/// program fills one from the process generator (`FrameDraws::fresh`); a test
/// writes the fields directly. Out-of-range values are reduced or clamped at
/// the point of use, so any contents are acceptable.
#[derive(Clone, Copy, PartialEq, Eq, Structural, Debug)]
pub struct FrameDraws {
    /// Jitter added to the obstacle spawn interval, clamped into [-220, 280] ms.
    pub obstacle_jitter_ms: i64,
    /// Jitter added to the collectible spawn interval, clamped into [-300, 500] ms.
    pub collectible_jitter_ms: i64,
    /// Which obstacle kind spawns; reduced modulo 1000.
    pub obstacle_kind_roll: u32,
    /// Which collectible kind spawns; reduced modulo 1000.
    pub collectible_kind_roll: u32,
    /// Power-up activation roll; reduced modulo 1000.
    pub powerup_roll: u32,
    /// Which power-up activates; reduced modulo 1000.
    pub powerup_kind_roll: u32,
    /// Spawn geometry unit draws; each reduced modulo 1000.
    pub shape_a: u32,
    pub shape_b: u32,
    pub shape_c: u32,
    pub shape_d: u32,
    /// Seed for the particle variation stream of this frame.
    pub particle_seed: u32,
    /// Day phase after a run reset; reduced modulo the cycle length.
    pub day_phase_draw: u32,
}

impl FrameDraws {
    /// Draw a fresh set from the process-wide generator. Every field is an
    /// independent draw; the jitters land inside their stated ranges.
    pub fn fresh() -> (r: FrameDraws)
        ensures
            -220 <= r.obstacle_jitter_ms <= 280,
            -300 <= r.collectible_jitter_ms <= 500,
            r.day_phase_draw < DAY_PHASE_CYCLE,
    {
        let oj: u32 = rand_u32() % 501;
        let cj: u32 = rand_u32() % 801;
        FrameDraws {
            obstacle_jitter_ms: (oj as i64) - 220,
            collectible_jitter_ms: (cj as i64) - 300,
            obstacle_kind_roll: rand_u32(),
            collectible_kind_roll: rand_u32(),
            powerup_roll: rand_u32(),
            powerup_kind_roll: rand_u32(),
            shape_a: rand_u32(),
            shape_b: rand_u32(),
            shape_c: rand_u32(),
            shape_d: rand_u32(),
            particle_seed: rand_u32(),
            day_phase_draw: rand_u32() % (DAY_PHASE_CYCLE as u32),
        }
    }

    /// A fixed all-zero draw set, handy as a neutral default.
    pub fn zeroed() -> (r: FrameDraws)
        ensures
            r == (FrameDraws {
                obstacle_jitter_ms: 0,
                collectible_jitter_ms: 0,
                obstacle_kind_roll: 0,
                collectible_kind_roll: 0,
                powerup_roll: 0,
                powerup_kind_roll: 0,
                shape_a: 0,
                shape_b: 0,
                shape_c: 0,
                shape_d: 0,
                particle_seed: 0,
                day_phase_draw: 0,
            }),
    {
        FrameDraws {
            obstacle_jitter_ms: 0,
            collectible_jitter_ms: 0,
            obstacle_kind_roll: 0,
            collectible_kind_roll: 0,
            powerup_roll: 0,
            powerup_kind_roll: 0,
            shape_a: 0,
            shape_b: 0,
            shape_c: 0,
            shape_d: 0,
            particle_seed: 0,
            day_phase_draw: 0,
        }
    }
}

} // verus!
