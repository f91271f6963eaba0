//! Frame-rate scaling and diagonal correction of movement speeds.
//!
//! A base speed is tuned for a sixtieth-of-a-second frame; a frame of
//! `dt` ticks scales it by `dt / FRAME_TICKS`, so the same input covers
//! the same ground per second at any frame rate.  When both axes of the
//! intent are active, the scaled speed is corrected by the factor 2/3
//! (the tuned stand-in for one over root two), so a diagonal frame covers
//! strictly less ground per axis than an axial one.

use vstd::prelude::*;

use vstd::arithmetic::div_mod::{lemma_div_is_ordered, lemma_div_is_strictly_smaller};

use crate::units::{div_pos, DT_CAP, FRAME_TICKS, SPEED_CAP, STEP_CAP};

verus! {

/// A base speed scaled to a frame of `dt` ticks.
pub open spec fn frame_step(speed: int, dt: int) -> int {
    speed * dt / FRAME_TICKS as int
}

/// The per-axis displacement of one frame: the frame-scaled speed,
/// corrected by 2/3 when the intent is diagonal.
pub open spec fn dir_step(speed: int, dt: int, dx: int, dy: int) -> int {
    if dx != 0 && dy != 0 {
        frame_step(speed, dt) * 2 / 3
    } else {
        frame_step(speed, dt)
    }
}

/// Scale a base speed to a frame of `dt` ticks.
pub fn scaled_frame_step(speed: i64, dt: i64) -> (r: i64)
    requires
        0 <= speed <= SPEED_CAP,
        0 <= dt <= DT_CAP,
    ensures
        r == frame_step(speed as int, dt as int),
        0 <= r <= STEP_CAP,
{
    proof {
        assert(0 <= speed * dt <= SPEED_CAP * DT_CAP) by (nonlinear_arith)
            requires
                0 <= speed <= SPEED_CAP,
                0 <= dt <= DT_CAP,
        ;
        lemma_div_is_ordered(speed * dt, SPEED_CAP * DT_CAP, FRAME_TICKS as int);
    }
    let prod = speed * dt;
    div_pos(prod, FRAME_TICKS)
}

/// Correct a frame-scaled speed for diagonal movement.
pub fn diagonal_step(s: i64) -> (r: i64)
    requires
        0 <= s <= STEP_CAP,
    ensures
        r == s as int * 2 / 3,
        0 <= r <= s,
{
    proof {
        lemma_div_is_ordered(s as int * 2, s as int * 3, 3);
        assert(s as int * 3 / 3 == s as int) by (nonlinear_arith);
    }
    div_pos(s * 2, 3)
}

/// The per-axis displacement of one frame along an intent.
pub fn scaled_dir_step(speed: i64, dt: i64, dx: i8, dy: i8) -> (r: i64)
    requires
        0 <= speed <= SPEED_CAP,
        0 <= dt <= DT_CAP,
    ensures
        r == dir_step(speed as int, dt as int, dx as int, dy as int),
        0 <= r <= STEP_CAP,
{
    let s = scaled_frame_step(speed, dt);
    if dx != 0 && dy != 0 {
        diagonal_step(s)
    } else {
        s
    }
}

/// Diagonal correction slows each axis down: whenever an axial frame
/// would cover any ground at all, a diagonal frame at the same base
/// speed covers strictly less per axis.
pub proof fn lemma_diagonal_slower(speed: int, dt: int)
    requires
        0 <= speed,
        0 <= dt,
        frame_step(speed, dt) >= 1,
    ensures
        dir_step(speed, dt, 1, 1) < dir_step(speed, dt, 1, 0),
{
    let s = frame_step(speed, dt);
    assert(s * 2 < s * 3) by (nonlinear_arith)
        requires
            s >= 1,
    ;
    lemma_div_is_ordered(s * 2, s * 3 - 1, 3);
    assert(s * 3 % 3 == 0) by (nonlinear_arith);
    assert((s * 3 - 1) / 3 < s) by {
        assert(s * 3 / 3 == s) by (nonlinear_arith);
        lemma_div_is_strictly_smaller_helper(s);
    }
}

/// One step below a multiple of three divides to one less.
proof fn lemma_div_is_strictly_smaller_helper(s: int)
    requires
        s >= 1,
    ensures
        (s * 3 - 1) / 3 < s,
{
    assert((s * 3 - 1) / 3 == s - 1) by (nonlinear_arith);
}

} // verus!
