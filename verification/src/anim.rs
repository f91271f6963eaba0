//! Per-entity animation state machines.
//!
//! An [`Animation`] is one named state: a fixed count of equally sized
//! frames and a current frame index.  An [`AnimatedSprite`] owns a set of
//! animations, the index of the active one, a shared frame duration and a
//! time accumulator.  Advancing accumulates elapsed ticks; when the
//! accumulator exceeds the frame duration it is reduced by the duration
//! (the remainder is carried, so timing does not drift) and, only while
//! the `playing` flag is set, the frame index steps forward and wraps to
//! zero after the last frame.  While `playing` is clear, time still
//! accumulates but the frame freezes, which callers use to detect "the
//! cycle returned to its rest frame" as a one-shot gameplay signal.

use vstd::prelude::*;

use crate::units::{acc_time, time_acc, DUR_CAP, PX_CAP};

verus! {

/// One animation state: a strip of `frames` frames, each `width` by
/// `height` pixels in the source image, and the frame currently shown.
#[derive(Clone, Copy)]
pub struct Animation {
    pub width: usize,
    pub height: usize,
    pub frames: usize,
    pub cur_frame: usize,
}

/// Validity of one animation state.
pub open spec fn anim_wf(a: Animation) -> bool {
    &&& 1 <= a.width <= PX_CAP
    &&& 1 <= a.height <= PX_CAP
    &&& 1 <= a.frames <= PX_CAP
    &&& a.cur_frame < a.frames
}

/// Whether an accumulator at `t` grown by `dt` steps past a frame of
/// duration `dur`.
pub open spec fn anim_fires(t: int, dt: int, dur: int) -> bool {
    time_acc(t, dt) > dur
}

/// The accumulator after growing by `dt` against a frame of duration
/// `dur`: the duration is subtracted once when stepped past.
pub open spec fn anim_time_after(t: int, dt: int, dur: int) -> int {
    if anim_fires(t, dt, dur) {
        time_acc(t, dt) - dur
    } else {
        time_acc(t, dt)
    }
}

/// The frame after `cur`, wrapping to zero past the last of `frames`.
pub open spec fn next_frame(cur: int, frames: int) -> int {
    if cur + 1 == frames {
        0
    } else {
        cur + 1
    }
}

/// The frame shown after one advance step.
pub open spec fn frame_after(a: Animation, t: int, dt: int, dur: int, playing: bool) -> int {
    if anim_fires(t, dt, dur) && playing {
        next_frame(a.cur_frame as int, a.frames as int)
    } else {
        a.cur_frame as int
    }
}

impl Animation {
    /// Horizontal pixel offset of the current frame in the source strip.
    pub fn src_x(&self) -> (r: usize)
        requires
            anim_wf(*self),
        ensures
            r == self.cur_frame * self.width,
    {
        assert(self.cur_frame * self.width <= 100_000_000) by (nonlinear_arith)
            requires
                self.cur_frame <= 10_000,
                self.width <= 10_000,
        ;
        self.cur_frame * self.width
    }

    /// Advance this state against the shared accumulator `time`.
    pub fn update(&mut self, time: &mut i64, dur: i64, playing: bool, dt: i64)
        requires
            anim_wf(*old(self)),
            0 <= *old(time),
            0 <= dt,
            1 <= dur <= DUR_CAP,
        ensures
            *final(time) == anim_time_after(*old(time) as int, dt as int, dur as int),
            final(self).cur_frame == frame_after(*old(self), *old(time) as int, dt as int, dur as int, playing),
            final(self).width == old(self).width,
            final(self).height == old(self).height,
            final(self).frames == old(self).frames,
            anim_wf(*final(self)),
            0 <= *final(time),
    {
        *time = acc_time(*time, dt);
        if *time > dur {
            *time = *time - dur;
            if playing {
                if self.cur_frame + 1 == self.frames {
                    self.cur_frame = 0;
                } else {
                    self.cur_frame = self.cur_frame + 1;
                }
            }
        }
    }
}

/// A set of animation states sharing one clock and one playing flag.
pub struct AnimatedSprite {
    pub animations: Vec<Animation>,
    pub cur_animation: usize,
    pub dur: i64,
    pub time: i64,
    pub playing: bool,
}

/// Validity of a sprite: an active state exists and every state is valid.
pub open spec fn sprite_wf(s: AnimatedSprite) -> bool {
    &&& s.cur_animation < s.animations.len()
    &&& forall|i: int| 0 <= i < s.animations.len() ==> anim_wf(#[trigger] s.animations[i])
    &&& 1 <= s.dur <= DUR_CAP
    &&& 0 <= s.time
}

/// The active animation of a sprite.
pub open spec fn cur_anim(s: AnimatedSprite) -> Animation {
    s.animations[s.cur_animation as int]
}

/// The active animation after one advance of the sprite.
pub open spec fn anim_after(s: AnimatedSprite, dt: int) -> Animation {
    Animation {
        cur_frame: frame_after(cur_anim(s), s.time as int, dt, s.dur as int, s.playing) as usize,
        ..cur_anim(s)
    }
}

/// How one advance step rewrites a sprite: the active animation's frame
/// steps (or freezes), the clock carries its remainder, everything else
/// stays.
pub open spec fn sprite_stepped(s0: AnimatedSprite, s1: AnimatedSprite, dt: int) -> bool {
    &&& s1.animations@ == s0.animations@.update(s0.cur_animation as int, anim_after(s0, dt))
    &&& s1.time == anim_time_after(s0.time as int, dt, s0.dur as int)
    &&& s1.cur_animation == s0.cur_animation
    &&& s1.dur == s0.dur
    &&& s1.playing == s0.playing
}

impl AnimatedSprite {
    /// Advance the active animation by `dt` ticks.
    pub fn update(&mut self, dt: i64)
        requires
            sprite_wf(*old(self)),
            0 <= dt,
        ensures
            final(self).animations@ == old(self).animations@.update(
                old(self).cur_animation as int,
                anim_after(*old(self), dt as int),
            ),
            final(self).time == anim_time_after(old(self).time as int, dt as int, old(self).dur as int),
            final(self).cur_animation == old(self).cur_animation,
            final(self).dur == old(self).dur,
            final(self).playing == old(self).playing,
            sprite_wf(*final(self)),
    {
        let idx = self.cur_animation;
        let dur = self.dur;
        let playing = self.playing;
        let a = &mut self.animations[idx];
        a.update(&mut self.time, dur, playing, dt);
    }
}

} // verus!
