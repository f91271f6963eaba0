//! The wandering owl enemy and its projectiles.
//!
//! Each frame the owl draws a fresh intent per axis from the random
//! generator (jitter wander, no pathing), moves under the same
//! axis-separated collision as the player with the same 2/3 diagonal
//! correction — though its speed is not frame-time scaled — and runs a
//! projectile battery: once its timer exceeds the spawn interval and the
//! cooldown is lifted, a ball is born at the owl's position with the
//! velocity handed in.  Balls fly in a straight line one velocity step
//! per frame, ignore tiles, and expire once their lifetime passes the
//! ceiling; expired balls leave the active set the same frame.

use vstd::prelude::*;

use crate::anim::{cur_anim, sprite_stepped, sprite_wf, AnimatedSprite, Animation};
use crate::collision::{
    blocked_x, blocked_y, chest_probed, doors_opened, moved_axis, resolve_move, Probe,
};
use crate::geom::{dir_wf, Dir, HitBox, Vec2};
use crate::map::{grid_of, map_wf, TileMap};
use crate::motion::diagonal_step;
use crate::player::{anim_index, box_h, box_w, flip_after, sprite_box};
use crate::rng::gen_range_i32;
use crate::units::{
    acc_time, clamp_coord, clamped, time_acc, BOX_CAP, COORD_LIMIT, DT_CAP, SCALE_CAP, SPEED_CAP,
    VEL_CAP,
};

verus! {

/// Ticks a ball lives before it expires: ten seconds.
pub const BALL_LIFETIME: i64 = 60_000;

/// Ticks between projectile spawns while the cooldown is lifted.
pub const SPAWN_INTERVAL: i64 = 1_800;

/// The ball's looping animation.
pub open spec fn ball_anim() -> Animation {
    Animation { width: 21, height: 21, frames: 5, cur_frame: 0 }
}

/// A projectile: straight-line flight at a fixed per-frame velocity, a
/// lifetime clock and an expiry flag.
pub struct Ball {
    pub pos: Vec2,
    pub time: i64,
    pub velocity: Vec2,
    pub sprite: AnimatedSprite,
    pub die: bool,
}

/// Validity of a ball.
pub open spec fn ball_wf(b: Ball) -> bool {
    &&& -COORD_LIMIT <= b.pos.x <= COORD_LIMIT
    &&& -COORD_LIMIT <= b.pos.y <= COORD_LIMIT
    &&& -VEL_CAP <= b.velocity.x <= VEL_CAP
    &&& -VEL_CAP <= b.velocity.y <= VEL_CAP
    &&& 0 <= b.time
    &&& sprite_wf(b.sprite)
}

/// A newborn ball: at its spawn point, with the handed velocity, a zero
/// clock, alive, and a fresh looping sprite.
pub open spec fn ball_fresh(b: Ball, pos: Vec2, velocity: Vec2) -> bool {
    &&& b.pos == pos
    &&& b.velocity == velocity
    &&& b.time == 0
    &&& !b.die
    &&& b.sprite.animations@ == seq![ball_anim()]
    &&& b.sprite.cur_animation == 0
    &&& b.sprite.dur == 1200
    &&& b.sprite.time == 0
    &&& b.sprite.playing
}

/// How one frame rewrites a ball: one velocity step of flight (saturated
/// at the world edge), the sprite advances, the clock grows, and the
/// expiry flag latches once the clock passes the ceiling.
pub open spec fn ball_stepped(b0: Ball, b1: Ball, dt: int) -> bool {
    &&& b1.pos.x == clamped(b0.pos.x + b0.velocity.x)
    &&& b1.pos.y == clamped(b0.pos.y + b0.velocity.y)
    &&& b1.velocity == b0.velocity
    &&& sprite_stepped(b0.sprite, b1.sprite, dt)
    &&& b1.time == time_acc(b0.time as int, dt)
    &&& b1.die == (b0.die || time_acc(b0.time as int, dt) > BALL_LIFETIME)
}

/// Each ball of a set stepped by one frame, in place.
pub open spec fn balls_stepped(bs0: Seq<Ball>, bs1: Seq<Ball>, dt: int) -> bool {
    &&& bs1.len() == bs0.len()
    &&& forall|i: int| 0 <= i < bs0.len() ==> ball_stepped(bs0[i], #[trigger] bs1[i], dt)
}

impl Ball {
    /// A ball born at a position with a per-frame velocity.
    pub fn new(pos: Vec2, velocity: Vec2) -> (b: Ball)
        requires
            -COORD_LIMIT <= pos.x <= COORD_LIMIT,
            -COORD_LIMIT <= pos.y <= COORD_LIMIT,
            -VEL_CAP <= velocity.x <= VEL_CAP,
            -VEL_CAP <= velocity.y <= VEL_CAP,
        ensures
            ball_fresh(b, pos, velocity),
            ball_wf(b),
    {
        let mut anims: Vec<Animation> = Vec::new();
        anims.push(Animation { width: 21, height: 21, frames: 5, cur_frame: 0 });
        let sprite = AnimatedSprite {
            animations: anims,
            cur_animation: 0,
            dur: 1200,
            time: 0,
            playing: true,
        };
        proof {
            assert(sprite.animations@ =~= seq![ball_anim()]);
        }
        Ball { pos, time: 0, velocity, sprite, die: false }
    }

    /// One frame of flight.
    pub fn update(&mut self, dt: i64)
        requires
            ball_wf(*old(self)),
            0 <= dt,
        ensures
            ball_stepped(*old(self), *final(self), dt as int),
            ball_wf(*final(self)),
    {
        self.pos = Vec2 {
            x: clamp_coord(self.pos.x + self.velocity.x),
            y: clamp_coord(self.pos.y + self.velocity.y),
        };
        self.sprite.update(dt);
        self.time = acc_time(self.time, dt);
        if self.time > BALL_LIFETIME {
            self.die = true;
        }
    }
}

/// Projectile lifecycle over one frame of an active set (no ball of
/// which has expired yet): a ball stays alive exactly while its grown
/// clock is within the lifetime ceiling, a live ball survives the purge,
/// and every live ball's clock is within the ceiling.
pub proof fn lemma_projectile_lifecycle(bs0: Seq<Ball>, bs1: Seq<Ball>, dt: int)
    requires
        balls_stepped(bs0, bs1, dt),
        forall|i: int| 0 <= i < bs0.len() ==> !(#[trigger] bs0[i]).die,
    ensures
        forall|i: int|
            0 <= i < bs1.len() ==> (!(#[trigger] bs1[i]).die <==> time_acc(
                bs0[i].time as int,
                dt,
            ) <= BALL_LIFETIME),
        forall|i: int|
            0 <= i < bs1.len() && time_acc(bs0[i].time as int, dt) <= BALL_LIFETIME
                ==> bs1.filter(|b: Ball| !b.die).contains(#[trigger] bs1[i]),
        forall|i: int| 0 <= i < bs1.len() && !(#[trigger] bs1[i]).die ==> bs1[i].time <= BALL_LIFETIME,
{
    assert forall|i: int|
        0 <= i < bs1.len() && time_acc(bs0[i].time as int, dt) <= BALL_LIFETIME implies bs1.filter(
        |b: Ball| !b.die,
    ).contains(#[trigger] bs1[i]) by {
        Seq::lemma_filter_contains(bs1, |b: Ball| !b.die, i);
    }
}

/// Drop every expired ball, keeping the survivors in order.
fn purge_dead(balls: &mut Vec<Ball>)
    requires
        forall|i: int| 0 <= i < old(balls)@.len() ==> ball_wf(#[trigger] old(balls)@[i]),
    ensures
        final(balls)@ == old(balls)@.filter(|b: Ball| !b.die),
        forall|j: int| 0 <= j < final(balls)@.len() ==> ball_wf(#[trigger] final(balls)@[j]),
{
    let mut kept: Vec<Ball> = Vec::new();
    let ghost mut done_now: Seq<Ball> = Seq::<Ball>::empty();
    proof {
        assert(Seq::<Ball>::empty().filter(|b: Ball| !b.die) =~= Seq::<Ball>::empty()) by {
            reveal(Seq::filter);
        }
        assert(done_now + balls@ =~= balls@);
    }
    while balls.len() > 0
        invariant
            old(balls)@ == done_now + balls@,
            kept@ == done_now.filter(|b: Ball| !b.die),
            forall|i: int| 0 <= i < balls@.len() ==> ball_wf(#[trigger] balls@[i]),
            forall|j: int| 0 <= j < kept@.len() ==> ball_wf(#[trigger] kept@[j]),
        decreases balls@.len(),
    {
        let ghost pre = balls@;
        let b = balls.remove(0);
        proof {
            reveal(Seq::filter);
            assert(done_now.push(b).drop_last() =~= done_now);
            assert(done_now.push(b).last() == b);
            assert(balls@ =~= pre.drop_first());
            assert(done_now.push(b) + balls@ =~= old(balls)@);
            assert(b == old(balls)@[done_now.len() as int]);
        }
        if !b.die {
            kept.push(b);
        }
        proof {
            done_now = done_now.push(b);
        }
    }
    proof {
        assert(done_now =~= old(balls)@);
    }
    *balls = kept;
}

/// The owl.
pub struct Coruja {
    pub pos: Vec2,
    pub size: i64,
    pub sprite: AnimatedSprite,
    pub speed: i64,
    pub flipped: bool,
    pub real_size: Vec2,
    pub dir: Dir,
    pub hit: HitBox,
    pub balls: Vec<Ball>,
    pub time: i64,
    pub cooldown: bool,
}

/// Validity of the owl.
pub open spec fn coruja_wf(c: Coruja) -> bool {
    &&& -COORD_LIMIT <= c.pos.x <= COORD_LIMIT
    &&& -COORD_LIMIT <= c.pos.y <= COORD_LIMIT
    &&& 1 <= c.size <= SCALE_CAP
    &&& 0 <= c.speed <= SPEED_CAP
    &&& sprite_wf(c.sprite)
    &&& c.sprite.animations@.len() == 3
    &&& dir_wf(c.dir)
    &&& 0 <= c.real_size.x <= BOX_CAP
    &&& 0 <= c.real_size.y <= BOX_CAP
    &&& 0 <= c.time
    &&& forall|i: int| 0 <= i < c.balls@.len() ==> ball_wf(#[trigger] c.balls@[i])
}

/// The owl's idle animation.
pub open spec fn coruja_idle_anim() -> Animation {
    Animation { width: 33, height: 40, frames: 8, cur_frame: 0 }
}

/// The owl's attack animation.
pub open spec fn coruja_attack_anim() -> Animation {
    Animation { width: 34, height: 43, frames: 8, cur_frame: 0 }
}

/// The owl's hurt animation.
pub open spec fn coruja_hurt_anim() -> Animation {
    Animation { width: 34, height: 40, frames: 8, cur_frame: 0 }
}

/// Draw one axis of the wander intent: a draw over three equal bands
/// maps to -1, 0 or 1.
fn wander_axis() -> (r: i8)
    ensures
        -1 <= r <= 1,
{
    let d = gen_range_i32(0, 3);
    if d >= 2 {
        1
    } else if d <= 0 {
        -1
    } else {
        0
    }
}

/// The owl's wander speed along an intent: the base speed, corrected by
/// 2/3 on a diagonal; unlike the player's it is not frame-time scaled.
pub open spec fn wander_speed(speed: int, dx: int, dy: int) -> int {
    if dx != 0 && dy != 0 {
        speed * 2 / 3
    } else {
        speed
    }
}

/// The owl's diagonal wander covers strictly less ground per axis than
/// its axial wander at the same base speed, whenever that speed covers
/// any ground at all.  The wander speed equals the player's frame-scaled
/// speed at the sixtieth-of-a-second reference frame.
pub proof fn lemma_wander_diagonal_slower(speed: int)
    requires
        1 <= speed,
    ensures
        wander_speed(speed, 1, 1) < wander_speed(speed, 1, 0),
{
    assert(speed * 100 / 100 == speed) by (nonlinear_arith)
        requires
            1 <= speed,
    ;
    crate::motion::lemma_diagonal_slower(speed, 100);
}

/// How one wander step along a drawn intent rewrites the owl and the
/// wall layer, and what chest contact it reports: the same
/// axis-separated resolution and door trigger as the player's movement.
pub open spec fn coruja_wandered(
    c0: Coruja,
    c1: Coruja,
    w0: TileMap,
    w1: TileMap,
    f: TileMap,
    dx: int,
    dy: int,
    touched: bool,
) -> bool {
    let ai = anim_index(dx, dy);
    let q = Probe {
        px: c0.pos.x as int,
        py: c0.pos.y as int,
        dx,
        dy,
        step: wander_speed(c0.speed as int, dx, dy),
        bw: c0.sprite.animations@[ai].width * c0.size,
        bh: c0.sprite.animations@[ai].height * c0.size,
        cell: w0.size as int,
    };
    &&& c1.dir.x == dx
    &&& c1.dir.y == dy
    &&& c1.flipped == flip_after(c0.flipped, dx)
    &&& c1.sprite.cur_animation == ai
    &&& c1.sprite.animations == c0.sprite.animations
    &&& c1.sprite.dur == c0.sprite.dur
    &&& c1.sprite.time == c0.sprite.time
    &&& c1.sprite.playing == c0.sprite.playing
    &&& c1.pos.x == moved_axis(q.px, q.dx, q.step, blocked_x(grid_of(w0), grid_of(f), q))
    &&& c1.pos.y == moved_axis(q.py, q.dy, q.step, blocked_y(grid_of(w0), grid_of(f), q))
    &&& grid_of(w1) == doors_opened(grid_of(w0), q)
    &&& touched == chest_probed(grid_of(w0), q)
    &&& w1.chest == w0.chest
    &&& w1.width == w0.width
    &&& w1.height == w0.height
    &&& w1.size == w0.size
    &&& w1.wall == w0.wall
    &&& w1.animated == w0.animated
    &&& c1.size == c0.size
    &&& c1.speed == c0.speed
    &&& c1.real_size == c0.real_size
    &&& c1.hit == c0.hit
    &&& c1.balls == c0.balls
    &&& c1.time == c0.time
    &&& c1.cooldown == c0.cooldown
}

/// How the rest of an owl frame rewrites it after the wander step: the
/// sprite advances, the hit box re-anchors, the spawn timer grows and
/// may bear a ball with the handed velocity, every ball flies one step,
/// and the expired ones are purged.
pub open spec fn coruja_animated(c1: Coruja, c2: Coruja, dt: int, vel: Vec2) -> bool {
    let t1 = time_acc(c1.time as int, dt);
    let spawns = t1 > SPAWN_INTERVAL && !c1.cooldown;
    &&& sprite_stepped(c1.sprite, c2.sprite, dt)
    &&& c2.hit.pos == c1.pos
    &&& c2.hit.size.x == box_w(c1.sprite, c1.size as int)
    &&& c2.hit.size.y == box_h(c1.sprite, c1.size as int)
    &&& c2.time == if spawns {
        0int
    } else {
        t1
    }
    &&& exists|born: Seq<Ball>, flown: Seq<Ball>|
        {
            &&& if spawns {
                exists|nb: Ball| ball_fresh(nb, c1.pos, vel) && born == c1.balls@.push(nb)
            } else {
                born == c1.balls@
            }
            &&& #[trigger] balls_stepped(born, flown, dt)
            &&& c2.balls@ == flown.filter(|b: Ball| !b.die)
        }
    &&& c2.pos == c1.pos
    &&& c2.size == c1.size
    &&& c2.speed == c1.speed
    &&& c2.flipped == c1.flipped
    &&& c2.real_size == c1.real_size
    &&& c2.dir == c1.dir
    &&& c2.cooldown == c1.cooldown
}

/// An owl with its bounding box refreshed from the active animation.
pub open spec fn coruja_with_box(c: Coruja) -> Coruja {
    Coruja {
        real_size: Vec2 {
            x: box_w(c.sprite, c.size as int) as i64,
            y: box_h(c.sprite, c.size as int) as i64,
        },
        ..c
    }
}

impl Coruja {
    /// A fresh owl at a position, with a size multiplier and a base
    /// speed; its cooldown starts engaged.
    pub fn new(pos: Vec2, size: i64, speed: i64) -> (c: Coruja)
        requires
            -COORD_LIMIT <= pos.x <= COORD_LIMIT,
            -COORD_LIMIT <= pos.y <= COORD_LIMIT,
            1 <= size <= SCALE_CAP,
            0 <= speed <= SPEED_CAP,
        ensures
            coruja_wf(c),
            c.pos == pos,
            c.size == size,
            c.speed == speed,
            !c.flipped,
            c.dir == (Dir { x: 0, y: 0 }),
            c.sprite.animations@ == seq![coruja_idle_anim(), coruja_attack_anim(), coruja_hurt_anim()],
            c.sprite.cur_animation == 0,
            c.sprite.dur == 1200,
            c.sprite.time == 0,
            c.sprite.playing,
            c.real_size.x == 33 * size,
            c.real_size.y == 40 * size,
            c.hit.pos == pos,
            c.hit.size.x == 33 * size,
            c.hit.size.y == 40 * size,
            c.balls@.len() == 0,
            c.time == 0,
            c.cooldown,
    {
        let mut anims: Vec<Animation> = Vec::new();
        anims.push(Animation { width: 33, height: 40, frames: 8, cur_frame: 0 });
        anims.push(Animation { width: 34, height: 43, frames: 8, cur_frame: 0 });
        anims.push(Animation { width: 34, height: 40, frames: 8, cur_frame: 0 });
        let sprite = AnimatedSprite {
            animations: anims,
            cur_animation: 0,
            dur: 1200,
            time: 0,
            playing: true,
        };
        proof {
            assert(sprite.animations@ =~= seq![
                coruja_idle_anim(),
                coruja_attack_anim(),
                coruja_hurt_anim(),
            ]);
        }
        Coruja {
            pos,
            size,
            sprite,
            speed,
            flipped: false,
            real_size: Vec2 { x: 33 * size, y: 40 * size },
            dir: Dir { x: 0, y: 0 },
            hit: HitBox { pos, size: Vec2 { x: 33 * size, y: 40 * size } },
            balls: Vec::new(),
            time: 0,
            cooldown: true,
        }
    }

    /// One wander step along a given intent: facing, animation selection
    /// and collision-checked motion with the door trigger, reporting
    /// whether the chest was touched.
    pub fn wander_step(&mut self, dx: i8, dy: i8, walls: &mut TileMap, floors: &TileMap) -> (touched:
        bool)
        requires
            coruja_wf(*old(self)),
            map_wf(*old(walls)),
            map_wf(*floors),
            old(walls).size == floors.size,
            -1 <= dx <= 1,
            -1 <= dy <= 1,
        ensures
            coruja_wandered(
                *old(self),
                *final(self),
                *old(walls),
                *final(walls),
                *floors,
                dx as int,
                dy as int,
                touched,
            ),
            coruja_wf(*final(self)),
            map_wf(*final(walls)),
            final(walls).size == floors.size,
    {
        self.dir = Dir { x: dx, y: dy };
        let step = if dx != 0 && dy != 0 {
            diagonal_step(self.speed)
        } else {
            self.speed
        };
        if dx < 0 {
            self.flipped = true;
        } else if dx > 0 {
            self.flipped = false;
        }
        if dx != 0 || dy != 0 {
            self.sprite.cur_animation = 1;
        } else {
            self.sprite.cur_animation = 0;
        }
        let b = sprite_box(&self.sprite, self.size);
        resolve_move(&mut self.pos, Dir { x: dx, y: dy }, step, b.0, b.1, walls, floors)
    }

    /// One wander step along a freshly drawn random intent — each axis a
    /// uniform choice among -1, 0 and 1 — reporting whether the chest
    /// was touched.
    pub fn movement(&mut self, walls: &mut TileMap, floors: &TileMap) -> (touched: bool)
        requires
            coruja_wf(*old(self)),
            map_wf(*old(walls)),
            map_wf(*floors),
            old(walls).size == floors.size,
        ensures
            exists|dx: int, dy: int|
                -1 <= dx <= 1 && -1 <= dy <= 1 && #[trigger] coruja_wandered(
                    *old(self),
                    *final(self),
                    *old(walls),
                    *final(walls),
                    *floors,
                    dx,
                    dy,
                    touched,
                ),
            coruja_wf(*final(self)),
            map_wf(*final(walls)),
            final(walls).size == floors.size,
    {
        let x = wander_axis();
        let y = wander_axis();
        self.wander_step(x, y, walls, floors)
    }

    /// One full owl frame: refresh the bounding box, wander, advance the
    /// sprite, re-anchor the hit box, run the spawn timer (a new ball
    /// takes the handed velocity), fly every ball and purge the expired,
    /// reporting whether the wander touched the chest.
    pub fn update(&mut self, walls: &mut TileMap, floors: &TileMap, dt: i64, ball_vel: Vec2) -> (touched:
        bool)
        requires
            coruja_wf(*old(self)),
            map_wf(*old(walls)),
            map_wf(*floors),
            old(walls).size == floors.size,
            0 <= dt <= DT_CAP,
            -VEL_CAP <= ball_vel.x <= VEL_CAP,
            -VEL_CAP <= ball_vel.y <= VEL_CAP,
        ensures
            coruja_wf(*final(self)),
            map_wf(*final(walls)),
            final(walls).size == floors.size,
            exists|dx: int, dy: int, cm: Coruja|
                {
                    &&& -1 <= dx <= 1
                    &&& -1 <= dy <= 1
                    &&& #[trigger] coruja_wandered(
                        coruja_with_box(*old(self)),
                        cm,
                        *old(walls),
                        *final(walls),
                        *floors,
                        dx,
                        dy,
                        touched,
                    )
                    &&& coruja_animated(cm, *final(self), dt as int, ball_vel)
                },
    {
        let b = sprite_box(&self.sprite, self.size);
        self.real_size = Vec2 { x: b.0, y: b.1 };
        let ghost c0 = *self;
        let touched = self.movement(walls, floors);
        let ghost cm = *self;
        self.sprite.update(dt);
        let hb = sprite_box(&self.sprite, self.size);
        self.hit = HitBox { pos: self.pos, size: Vec2 { x: hb.0, y: hb.1 } };
        self.time = acc_time(self.time, dt);
        if self.time > SPAWN_INTERVAL && !self.cooldown {
            let nb = Ball::new(self.pos, ball_vel);
            self.time = 0;
            self.balls.push(nb);
        }
        let ghost ca = *self;
        let ghost born = self.balls@;
        let n = self.balls.len();
        let mut i: usize = 0;
        while i < n
            invariant
                i <= n,
                n == self.balls@.len(),
                born.len() == n,
                0 <= dt,
                forall|j: int|
                    0 <= j < i ==> ball_stepped(born[j], #[trigger] self.balls@[j], dt as int),
                forall|j: int| i <= j < n ==> #[trigger] self.balls@[j] == born[j],
                forall|j: int| 0 <= j < n ==> ball_wf(#[trigger] born[j]),
                forall|j: int| 0 <= j < i ==> ball_wf(#[trigger] self.balls@[j]),
                self.pos == ca.pos,
                self.size == ca.size,
                self.speed == ca.speed,
                self.flipped == ca.flipped,
                self.real_size == ca.real_size,
                self.dir == ca.dir,
                self.cooldown == ca.cooldown,
                self.sprite == ca.sprite,
                self.hit == ca.hit,
                self.time == ca.time,
            decreases n - i,
        {
            let ball = &mut self.balls[i];
            ball.update(dt);
            i = i + 1;
        }
        let ghost flown = self.balls@;
        purge_dead(&mut self.balls);
        proof {
            assert(c0 == coruja_with_box(*old(self)));
            let (dx0, dy0): (int, int) = choose|dx: int, dy: int|
                -1 <= dx <= 1 && -1 <= dy <= 1 && #[trigger] coruja_wandered(
                    c0,
                    cm,
                    *old(walls),
                    *walls,
                    *floors,
                    dx,
                    dy,
                    touched,
                );
            assert(coruja_wandered(c0, cm, *old(walls), *walls, *floors, dx0, dy0, touched));
            assert(balls_stepped(born, flown, dt as int));
            assert(coruja_animated(cm, *self, dt as int, ball_vel));
        }
        touched
    }
}

} // verus!
