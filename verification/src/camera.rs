//! The lagging, clamped follow camera.
//!
//! Per frame the tracked player's frame-scaled displacement intent pulls
//! half of itself out of the camera's velocity (the camera lags opposite
//! to the motion), the velocity is hard-clamped to a per-axis limit, and
//! on any axis with no intent it decays toward zero by a third of the
//! frame's speed, never overshooting past zero.  The screen offset is
//! then the zoomed negative player position, centred on the player's
//! visual midpoint and the screen, plus the velocity.

use vstd::prelude::*;

use crate::collision::signed_step;
use crate::geom::Vec2;
use crate::motion::{dir_step, scaled_dir_step};
use crate::player::{player_wf, Player};
use crate::units::{
    div_pos, div_trunc, tdiv, BOX_CAP, CAM_POS_LIMIT, CAM_VEL_CAP, COORD_LIMIT, DT_CAP, MILLI,
    SCREEN_CAP, STEP_CAP, ZOOM_CAP,
};

verus! {

/// The camera: a screen offset, a zoom factor, a lag velocity and its
/// per-axis limit.
pub struct Camera {
    pub pos: Vec2,
    pub zoom: i64,
    pub speed: Vec2,
    pub speed_limit: Vec2,
}

/// Validity of the camera; in particular the velocity never exceeds its
/// per-axis limit.
pub open spec fn camera_wf(c: Camera) -> bool {
    &&& -CAM_POS_LIMIT <= c.pos.x <= CAM_POS_LIMIT
    &&& -CAM_POS_LIMIT <= c.pos.y <= CAM_POS_LIMIT
    &&& 0 <= c.zoom <= ZOOM_CAP
    &&& 0 <= c.speed_limit.x <= CAM_VEL_CAP
    &&& 0 <= c.speed_limit.y <= CAM_VEL_CAP
    &&& -c.speed_limit.x <= c.speed.x <= c.speed_limit.x
    &&& -c.speed_limit.y <= c.speed.y <= c.speed_limit.y
}

/// A velocity hard-clamped to a limit, keeping its sign.
pub open spec fn clamp_limit(v: int, limit: int) -> int {
    if v > limit || -v > limit {
        if v > 0 {
            limit
        } else {
            -limit
        }
    } else {
        v
    }
}

/// A velocity decayed toward zero by a third of the frame speed on an
/// idle axis, clamped at the zero crossing.
pub open spec fn decay_axis(v: int, dir: int, s: int) -> int {
    if dir == 0 && v > 0 {
        if v - s / 3 < 0 {
            0
        } else {
            v - s / 3
        }
    } else if dir == 0 && v < 0 {
        if v + s / 3 > 0 {
            0
        } else {
            v + s / 3
        }
    } else {
        v
    }
}

/// One axis of the camera velocity after a frame: lag accumulation,
/// hard clamp, then idle decay.
pub open spec fn vel_axis(v0: int, dir: int, s: int, limit: int) -> int {
    decay_axis(clamp_limit(v0 - dir * (s / 2), limit), dir, s)
}

/// One axis of the screen offset: the zoomed negative player position,
/// centred on the player's visual midpoint and the screen, plus the lag
/// velocity.
pub open spec fn cam_off(epos: int, half: int, zoom: int, screen: int, vel: int) -> int {
    tdiv((-epos - half) * zoom, MILLI as int) + screen / 2 + vel
}

/// One axis of the camera velocity after a frame.
fn axis_vel(v0: i64, dir: i8, s: i64, limit: i64) -> (r: i64)
    requires
        -CAM_VEL_CAP <= v0 <= CAM_VEL_CAP,
        -1 <= dir <= 1,
        0 <= s <= STEP_CAP,
        0 <= limit <= CAM_VEL_CAP,
    ensures
        r == vel_axis(v0 as int, dir as int, s as int, limit as int),
        -limit <= r <= limit,
{
    let half = div_pos(s, 2);
    let v1 = v0 - signed_step(dir, half);
    let v2 = if (if v1 < 0 { -v1 } else { v1 }) > limit {
        if v1 > 0 {
            limit
        } else {
            -limit
        }
    } else {
        v1
    };
    let third = div_pos(s, 3);
    if dir == 0 && v2 > 0 {
        let d = v2 - third;
        if d < 0 {
            0
        } else {
            d
        }
    } else if dir == 0 && v2 < 0 {
        let d = v2 + third;
        if d > 0 {
            0
        } else {
            d
        }
    } else {
        v2
    }
}

/// One axis of the screen offset.
fn axis_off(epos: i64, half: i64, zoom: i64, screen: i64, vel: i64) -> (r: i64)
    requires
        -COORD_LIMIT <= epos <= COORD_LIMIT,
        0 <= half <= BOX_CAP,
        0 <= zoom <= ZOOM_CAP,
        0 <= screen <= SCREEN_CAP,
        -CAM_VEL_CAP <= vel <= CAM_VEL_CAP,
    ensures
        r == cam_off(epos as int, half as int, zoom as int, screen as int, vel as int),
        -CAM_POS_LIMIT <= r <= CAM_POS_LIMIT,
{
    let t = -epos - half;
    proof {
        assert(-2_000_000_000_000_000_000i64 <= t * zoom <= 2_000_000_000_000_000_000i64)
            by (nonlinear_arith)
            requires
                -2_000_000_000_000i64 <= t <= 2_000_000_000_000i64,
                0 <= zoom <= 1_000_000i64,
        ;
    }
    let scaled = div_trunc(t * zoom, MILLI);
    scaled + div_pos(screen, 2) + vel
}

/// How one camera frame rewrites the camera against the tracked player.
pub open spec fn camera_stepped(c0: Camera, c1: Camera, p: Player, dt: int, sw: int, sh: int) -> bool {
    let s = dir_step(p.speed as int, dt, p.dir.x as int, p.dir.y as int);
    &&& c1.speed.x == vel_axis(c0.speed.x as int, p.dir.x as int, s, c0.speed_limit.x as int)
    &&& c1.speed.y == vel_axis(c0.speed.y as int, p.dir.y as int, s, c0.speed_limit.y as int)
    &&& -c0.speed_limit.x <= c1.speed.x <= c0.speed_limit.x
    &&& -c0.speed_limit.y <= c1.speed.y <= c0.speed_limit.y
    &&& c1.pos.x == cam_off(
        p.pos.x as int,
        p.real_size.x as int / 2,
        c0.zoom as int,
        sw,
        c1.speed.x as int,
    )
    &&& c1.pos.y == cam_off(
        p.pos.y as int,
        p.real_size.y as int / 2,
        c0.zoom as int,
        sh,
        c1.speed.y as int,
    )
    &&& c1.zoom == c0.zoom
    &&& c1.speed_limit == c0.speed_limit
}

impl Camera {
    /// One camera frame against the tracked player: accumulate and clamp
    /// the lag velocity, decay it on idle axes, and recompute the screen
    /// offset.
    pub fn update(&mut self, player: &Player, dt: i64, screen_w: i64, screen_h: i64)
        requires
            camera_wf(*old(self)),
            player_wf(*player),
            0 <= dt <= DT_CAP,
            0 <= screen_w <= SCREEN_CAP,
            0 <= screen_h <= SCREEN_CAP,
        ensures
            camera_wf(*final(self)),
            camera_stepped(*old(self), *final(self), *player, dt as int, screen_w as int, screen_h as int),
    {
        let s = scaled_dir_step(player.speed, dt, player.dir.x, player.dir.y);
        self.speed.x = axis_vel(self.speed.x, player.dir.x, s, self.speed_limit.x);
        self.speed.y = axis_vel(self.speed.y, player.dir.y, s, self.speed_limit.y);
        let hw = div_pos(player.real_size.x, 2);
        let hh = div_pos(player.real_size.y, 2);
        self.pos.x = axis_off(player.pos.x, hw, self.zoom, screen_w, self.speed.x);
        self.pos.y = axis_off(player.pos.y, hh, self.zoom, screen_h, self.speed.y);
    }
}

/// The camera's velocity never exceeds its configured per-axis limit,
/// whatever velocity a frame starts from and however many frames of
/// whatever input came before.
pub proof fn lemma_camera_velocity_bounded(v0: int, dir: int, s: int, limit: int)
    requires
        0 <= limit,
        0 <= s,
    ensures
        -limit <= vel_axis(v0, dir, s, limit) <= limit,
{
}

} // verus!
