//! The player entity and its per-frame physics.

use vstd::prelude::*;
use crate::constants::{
    BASE_GROUND_Y, COORD_LIMIT, DASH_SPEED, GROUND_VARIATION, JUMP_VEL, MAX_COMBO, MAX_FRAME_MS,
    MAX_STAMINA, PLAYER_H, PLAYER_START_X, PLAYER_START_Y, PLAYER_W, TERMINAL_VEL, TIME_CAP,
};
use crate::geom::Rect;
use crate::types::PlayerAction;
use crate::utils::{clamp_i64, scaled, spec_clamp, spec_max_i, spec_min_i, spec_scaled};

verus! {

/// The player entity: kinematics, the action state machine, stamina and the
/// combo counter.
#[derive(Clone, Copy, PartialEq, Eq, Structural, Debug)]
pub struct Player {
    pub pos_x: i64,
    pub pos_y: i64,
    pub vel_x: i64,
    pub vel_y: i64,
    pub action: PlayerAction,
    pub action_timer_ms: i64,
    pub stamina: i64,
    pub can_double_jump: bool,
    pub combo: u32,
    pub dash_cooldown_ms: i64,
}

/// Vertical bound the ground baseline can take (the difficulty curve keeps
/// it inside one oscillation band).
pub open spec fn ground_in_band(ground: int) -> bool {
    BASE_GROUND_Y - GROUND_VARIATION <= ground <= BASE_GROUND_Y + GROUND_VARIATION
}

impl Player {
    /// Every numeric field inside its stated interval.
    pub open spec fn wf(self) -> bool {
        &&& -COORD_LIMIT <= self.pos_x <= COORD_LIMIT
        &&& -COORD_LIMIT <= self.pos_y <= COORD_LIMIT
        &&& 0 <= self.vel_x <= DASH_SPEED
        &&& JUMP_VEL <= self.vel_y <= TERMINAL_VEL
        &&& 0 <= self.action_timer_ms <= 400
        &&& 0 <= self.stamina <= MAX_STAMINA
        &&& self.combo <= MAX_COMBO
        &&& -MAX_FRAME_MS <= self.dash_cooldown_ms <= TIME_CAP
    }

    /// The player at the start of a run.
    pub open spec fn spec_initial() -> Player {
        Player {
            pos_x: PLAYER_START_X,
            pos_y: PLAYER_START_Y,
            vel_x: 0,
            vel_y: 0,
            action: PlayerAction::Running,
            action_timer_ms: 0,
            stamina: MAX_STAMINA,
            can_double_jump: true,
            combo: 0,
            dash_cooldown_ms: 0,
        }
    }

    /// A player at the start position, for a new run or a reset.
    pub fn new() -> (r: Player)
        ensures
            r == Player::spec_initial(),
            r.wf(),
    {
        Player {
            pos_x: PLAYER_START_X,
            pos_y: PLAYER_START_Y,
            vel_x: 0,
            vel_y: 0,
            action: PlayerAction::Running,
            action_timer_ms: 0,
            stamina: MAX_STAMINA,
            can_double_jump: true,
            combo: 0,
            dash_cooldown_ms: 0,
        }
    }

    /// The hurt rectangle is a pure function of position and action: sliding
    /// drops the top by 35% of the player's height.
    pub open spec fn spec_rect(self) -> Rect {
        let offset: int = if self.action == PlayerAction::Slide {
            (PLAYER_H * 35) / 100
        } else {
            0
        };
        Rect {
            x: self.pos_x,
            y: (self.pos_y + offset) as i64,
            w: PLAYER_W,
            h: (PLAYER_H - offset) as i64,
        }
    }

    /// Current hurt rectangle (smaller while sliding).
    pub fn rect(&self) -> (r: Rect)
        requires
            self.wf(),
        ensures
            r == self.spec_rect(),
            r.wf(),
    {
        let offset: i64 = if self.action == PlayerAction::Slide {
            (PLAYER_H * 35) / 100
        } else {
            0
        };
        Rect {
            x: self.pos_x,
            y: self.pos_y + offset,
            w: PLAYER_W,
            h: PLAYER_H - offset,
        }
    }

    /// Whether the player's feet are within half a pixel of the ground.
    pub open spec fn spec_on_ground(self, ground: int) -> bool {
        -500 < self.pos_y + PLAYER_H - ground < 500
    }

    pub fn on_ground(&self, ground: i64) -> (r: bool)
        requires
            self.wf(),
            ground_in_band(ground as int),
        ensures
            r == self.spec_on_ground(ground as int),
    {
        let gap: i64 = self.pos_y + PLAYER_H - ground;
        -500 < gap && gap < 500
    }

    /// Raise the combo counter, saturating at `MAX_COMBO`.
    pub fn add_combo(&mut self)
        ensures
            *final(self) == (Player {
                combo: spec_min_i(old(self).combo + 1, MAX_COMBO as int) as u32,
                ..*old(self)
            }),
    {
        self.combo = if self.combo < MAX_COMBO {
            self.combo + 1
        } else {
            MAX_COMBO
        };
    }

    /// Break the combo chain.
    pub fn reset_combo(&mut self)
        ensures
            *final(self) == (Player { combo: 0u32, ..*old(self) }),
    {
        self.combo = 0;
    }
}

/// The physics step: timers run down, gravity pulls (capped at terminal
/// velocity), position integrates, ground contact snaps the feet to the
/// baseline and re-arms the double jump, falling off an edge turns Running
/// into Jump, and a finished action reverts to Running once grounded.
pub open spec fn spec_update_player(p: Player, dt: int, ground: int) -> Player {
    let timer = spec_max_i(p.action_timer_ms - dt, 0);
    let vy_fall = spec_min_i(p.vel_y + 2_000 * dt, TERMINAL_VEL as int);
    let px = spec_clamp(p.pos_x + spec_scaled(p.vel_x as int, dt, 1_000), -COORD_LIMIT as int,
        COORD_LIMIT as int);
    let py_int = spec_clamp(p.pos_y + spec_scaled(vy_fall, dt, 1_000), -COORD_LIMIT as int,
        COORD_LIMIT as int);
    let landed = py_int + PLAYER_H >= ground;
    let py = if landed {
        ground - PLAYER_H
    } else {
        py_int
    };
    let vy = if landed {
        0
    } else {
        vy_fall
    };
    let cdj = if landed {
        true
    } else {
        p.can_double_jump
    };
    let act_land = if landed && p.action != PlayerAction::Dash {
        PlayerAction::Running
    } else {
        p.action
    };
    let act_fall = if py + PLAYER_H < ground - 4_000 && act_land == PlayerAction::Running {
        PlayerAction::Jump
    } else {
        act_land
    };
    let near = -500 < py + PLAYER_H - ground < 500;
    let act = if timer == 0 && act_fall != PlayerAction::Running && near {
        PlayerAction::Running
    } else {
        act_fall
    };
    let cooldown = if p.dash_cooldown_ms > 0 {
        p.dash_cooldown_ms - dt
    } else {
        p.dash_cooldown_ms as int
    };
    Player {
        pos_x: px as i64,
        pos_y: py as i64,
        vel_x: p.vel_x,
        vel_y: vy as i64,
        action: act,
        action_timer_ms: timer as i64,
        stamina: p.stamina,
        can_double_jump: cdj,
        combo: p.combo,
        dash_cooldown_ms: cooldown as i64,
    }
}

/// Advance the player's physics and action state machine by `dt`.
pub fn update_player(player: &mut Player, dt: i64, ground: i64)
    requires
        old(player).wf(),
        0 <= dt <= MAX_FRAME_MS,
        ground_in_band(ground as int),
    ensures
        *final(player) == spec_update_player(*old(player), dt as int, ground as int),
        final(player).wf(),
{
    if player.action_timer_ms > dt {
        player.action_timer_ms = player.action_timer_ms - dt;
    } else {
        player.action_timer_ms = 0;
    }

    let vy_pull: i64 = player.vel_y + 2_000 * dt;
    player.vel_y = if vy_pull < TERMINAL_VEL {
        vy_pull
    } else {
        TERMINAL_VEL
    };

    let dx: i64 = scaled(player.vel_x, dt, 1_000);
    player.pos_x = clamp_i64(player.pos_x + dx, -COORD_LIMIT, COORD_LIMIT);
    let dy: i64 = scaled(player.vel_y, dt, 1_000);
    player.pos_y = clamp_i64(player.pos_y + dy, -COORD_LIMIT, COORD_LIMIT);

    if player.pos_y + PLAYER_H >= ground {
        player.pos_y = ground - PLAYER_H;
        player.vel_y = 0;
        player.can_double_jump = true;
        if player.action != PlayerAction::Dash {
            player.action = PlayerAction::Running;
        }
    }

    if player.pos_y + PLAYER_H < ground - 4_000 && player.action == PlayerAction::Running {
        player.action = PlayerAction::Jump;
    }

    let gap: i64 = player.pos_y + PLAYER_H - ground;
    if player.action_timer_ms == 0 && player.action != PlayerAction::Running && -500 < gap
        && gap < 500 {
        player.action = PlayerAction::Running;
    }

    if player.dash_cooldown_ms > 0 {
        player.dash_cooldown_ms = player.dash_cooldown_ms - dt;
    }
}

} // verus!
