//! The enemy collection: every owl takes its frame in order, then a
//! read-only comparison of its position against the player's sword hit
//! box decides whether it switches to the hurt animation.  Cross-entity
//! effects go one way only: the owls never mutate the player.

use vstd::prelude::*;

use crate::coruja::{
    coruja_animated, coruja_wandered, coruja_wf, coruja_with_box, Coruja,
};
use crate::geom::Vec2;
use crate::map::{map_wf, TileMap};
use crate::player::{player_wf, Player};
use crate::units::{DT_CAP, VEL_CAP};

verus! {

/// The enemy collection.
pub struct Enemies {
    pub corujas: Vec<Coruja>,
}

/// Validity of the collection.
pub open spec fn enemies_wf(e: Enemies) -> bool {
    forall|i: int| 0 <= i < e.corujas@.len() ==> coruja_wf(#[trigger] e.corujas@[i])
}

/// The hurt test played each frame: a read-only comparison of the owl's
/// position against the player's sword hit box, the attack flag, and
/// the world's positive quadrant.  Its polarity is deliberate and kept
/// exactly as stated: the test fires for owls *outside* the sword's
/// reach, while no attack is under way, or off the positive quadrant —
/// the hurt animation is the owls' ambient reaction, not a hit
/// reaction.
pub open spec fn hurt_cond(c: Coruja, p: Player) -> bool {
    ||| c.pos.x - p.sword_hit.pos.x > p.sword_hit.size.x
    ||| c.pos.y - p.sword_hit.pos.y > p.sword_hit.size.y
    ||| !p.attacking
    ||| c.pos.x < 0
    ||| c.pos.y < 0
}

/// How the hurt test rewrites an owl: when it fires, only the active
/// animation switches to the hurt state.
pub open spec fn hurt_applied(c1: Coruja, c2: Coruja, p: Player) -> bool {
    &&& c2.sprite.cur_animation == (if hurt_cond(c1, p) {
        2int
    } else {
        c1.sprite.cur_animation as int
    })
    &&& c2.sprite.animations == c1.sprite.animations
    &&& c2.sprite.dur == c1.sprite.dur
    &&& c2.sprite.time == c1.sprite.time
    &&& c2.sprite.playing == c1.sprite.playing
    &&& c2.pos == c1.pos
    &&& c2.size == c1.size
    &&& c2.speed == c1.speed
    &&& c2.flipped == c1.flipped
    &&& c2.real_size == c1.real_size
    &&& c2.dir == c1.dir
    &&& c2.hit == c1.hit
    &&& c2.balls == c1.balls
    &&& c2.time == c1.time
    &&& c2.cooldown == c1.cooldown
}

/// One owl's whole frame: a drawn wander intent resolves against the
/// layers and reports its chest contact, the animation and projectile
/// half follows, then the hurt test is played against the player.
pub open spec fn coruja_frame(
    c0: Coruja,
    c2: Coruja,
    w0: TileMap,
    w1: TileMap,
    f: TileMap,
    p: Player,
    dt: int,
    vel: Vec2,
    touched: bool,
) -> bool {
    exists|dx: int, dy: int, cm: Coruja, ch: Coruja|
        #![trigger coruja_wandered(coruja_with_box(c0), cm, w0, w1, f, dx, dy, touched), coruja_animated(cm, ch, dt, vel)]
        {
            &&& -1 <= dx <= 1
            &&& -1 <= dy <= 1
            &&& coruja_wandered(coruja_with_box(c0), cm, w0, w1, f, dx, dy, touched)
            &&& coruja_animated(cm, ch, dt, vel)
            &&& hurt_applied(ch, c2, p)
        }
}

/// Whether any report in a sequence of per-owl contact reports is set.
pub open spec fn any_true(s: Seq<bool>) -> bool {
    exists|i: int| 0 <= i < s.len() && s[i]
}

/// Appending one report to a sequence sets the aggregate exactly when
/// the old aggregate or the new report is set.
pub proof fn lemma_any_true_push(s: Seq<bool>, b: bool)
    ensures
        any_true(s.push(b)) == (any_true(s) || b),
{
    if b {
        assert(s.push(b)[s.len() as int]);
    }
    if any_true(s) {
        let i = choose|i: int| 0 <= i < s.len() && s[i];
        assert(s.push(b)[i]);
    }
    if any_true(s.push(b)) && !b {
        let i = choose|i: int| 0 <= i < s.push(b).len() && s.push(b)[i];
        assert(s[i]);
    }
}

/// The owls' frames in order, each handing the wall layer to the next
/// and leaving its chest contact report in `touches`.
pub open spec fn enemies_stepped(
    cs0: Seq<Coruja>,
    cs2: Seq<Coruja>,
    w0: TileMap,
    w1: TileMap,
    f: TileMap,
    p: Player,
    dt: int,
    vels: Seq<Vec2>,
    touches: Seq<bool>,
) -> bool
    decreases cs0.len(),
{
    if cs0.len() == 0 {
        &&& cs2.len() == 0
        &&& w1 == w0
        &&& touches.len() == 0
    } else {
        &&& cs2.len() == cs0.len()
        &&& touches.len() == cs0.len()
        &&& exists|wm: TileMap|
            #![trigger coruja_frame(cs0.last(), cs2.last(), wm, w1, f, p, dt, vels.last(), touches.last())]
            {
                &&& enemies_stepped(
                    cs0.drop_last(),
                    cs2.drop_last(),
                    w0,
                    wm,
                    f,
                    p,
                    dt,
                    vels.drop_last(),
                    touches.drop_last(),
                )
                &&& coruja_frame(
                    cs0.last(),
                    cs2.last(),
                    wm,
                    w1,
                    f,
                    p,
                    dt,
                    vels.last(),
                    touches.last(),
                )
            }
    }
}

/// Appending one owl's frame to a chain of frames keeps the chain and
/// appends its contact report.
proof fn lemma_enemies_stepped_snoc(
    cs0: Seq<Coruja>,
    cs2: Seq<Coruja>,
    w0: TileMap,
    wm: TileMap,
    w1: TileMap,
    f: TileMap,
    p: Player,
    dt: int,
    vels: Seq<Vec2>,
    c0: Coruja,
    c2: Coruja,
    vel: Vec2,
    ts: Seq<bool>,
    t_new: bool,
)
    requires
        enemies_stepped(cs0, cs2, w0, wm, f, p, dt, vels, ts),
        coruja_frame(c0, c2, wm, w1, f, p, dt, vel, t_new),
        vels.len() == cs0.len(),
    ensures
        enemies_stepped(
            cs0.push(c0),
            cs2.push(c2),
            w0,
            w1,
            f,
            p,
            dt,
            vels.push(vel),
            ts.push(t_new),
        ),
{
    assert(cs0.push(c0).drop_last() =~= cs0);
    assert(cs2.push(c2).drop_last() =~= cs2);
    assert(vels.push(vel).drop_last() =~= vels);
    assert(ts.push(t_new).drop_last() =~= ts);
    assert(coruja_frame(
        cs0.push(c0).last(),
        cs2.push(c2).last(),
        wm,
        w1,
        f,
        p,
        dt,
        vels.push(vel).last(),
        ts.push(t_new).last(),
    ));
}

impl Enemies {
    /// One frame of the whole collection: each owl in order takes its
    /// frame against the layers, then the hurt test against the player;
    /// the result reports whether any owl touched the chest.
    pub fn update(
        &mut self,
        walls: &mut TileMap,
        floors: &TileMap,
        player: &Player,
        dt: i64,
        ball_vels: &Vec<Vec2>,
    ) -> (touched: bool)
        requires
            enemies_wf(*old(self)),
            map_wf(*old(walls)),
            map_wf(*floors),
            old(walls).size == floors.size,
            player_wf(*player),
            0 <= dt <= DT_CAP,
            ball_vels@.len() == old(self).corujas@.len(),
            forall|i: int|
                0 <= i < ball_vels@.len() ==> -VEL_CAP <= (#[trigger] ball_vels@[i]).x <= VEL_CAP
                    && -VEL_CAP <= ball_vels@[i].y <= VEL_CAP,
        ensures
            enemies_wf(*final(self)),
            map_wf(*final(walls)),
            final(walls).size == floors.size,
            final(self).corujas@.len() == old(self).corujas@.len(),
            exists|ts: Seq<bool>|
                {
                    &&& #[trigger] enemies_stepped(
                        old(self).corujas@,
                        final(self).corujas@,
                        *old(walls),
                        *final(walls),
                        *floors,
                        *player,
                        dt as int,
                        ball_vels@,
                        ts,
                    )
                    &&& touched == any_true(ts)
                },
    {
        let mut any_touched = false;
        let ghost mut touches: Seq<bool> = Seq::<bool>::empty();
        let n = self.corujas.len();
        proof {
            assert(old(self).corujas@.take(0) =~= Seq::<Coruja>::empty());
            assert(self.corujas@.take(0) =~= Seq::<Coruja>::empty());
            assert(ball_vels@.take(0) =~= Seq::<Vec2>::empty());
        }
        let mut i: usize = 0;
        while i < n
            invariant
                i <= n,
                n == self.corujas@.len(),
                n == old(self).corujas@.len(),
                ball_vels@.len() == n,
                forall|j: int|
                    0 <= j < n ==> -VEL_CAP <= (#[trigger] ball_vels@[j]).x <= VEL_CAP && -VEL_CAP
                        <= ball_vels@[j].y <= VEL_CAP,
                map_wf(*walls),
                map_wf(*floors),
                walls.size == floors.size,
                player_wf(*player),
                0 <= dt <= DT_CAP,
                forall|j: int| i <= j < n ==> #[trigger] self.corujas@[j] == old(self).corujas@[j],
                forall|j: int| 0 <= j < n ==> coruja_wf(#[trigger] self.corujas@[j]),
                touches.len() == i,
                any_touched == any_true(touches),
                enemies_stepped(
                    old(self).corujas@.take(i as int),
                    self.corujas@.take(i as int),
                    *old(walls),
                    *walls,
                    *floors,
                    *player,
                    dt as int,
                    ball_vels@.take(i as int),
                    touches,
                ),
            decreases n - i,
        {
            let ghost w_pre = *walls;
            let ghost c_pre = self.corujas@[i as int];
            let ghost done0 = old(self).corujas@.take(i as int);
            let ghost done2 = self.corujas@.take(i as int);
            let ghost ts_acc = touches;
            let vel = ball_vels[i];
            let c = &mut self.corujas[i];
            let t_new = c.update(walls, floors, dt, vel);
            let ghost ch = *c;
            let hurt = (c.pos.x - player.sword_hit.pos.x > player.sword_hit.size.x) || (c.pos.y
                - player.sword_hit.pos.y > player.sword_hit.size.y) || !player.attacking
                || c.pos.x < 0 || c.pos.y < 0;
            if hurt {
                c.sprite.cur_animation = 2;
            }
            any_touched = any_touched || t_new;
            proof {
                touches = touches.push(t_new);
                let c2 = self.corujas@[i as int];
                assert(hurt_applied(ch, c2, *player));
                assert(coruja_frame(c_pre, c2, w_pre, *walls, *floors, *player, dt as int, vel, t_new));
                lemma_enemies_stepped_snoc(
                    done0,
                    done2,
                    *old(walls),
                    w_pre,
                    *walls,
                    *floors,
                    *player,
                    dt as int,
                    ball_vels@.take(i as int),
                    c_pre,
                    c2,
                    vel,
                    ts_acc,
                    t_new,
                );
                lemma_any_true_push(ts_acc, t_new);
                assert(old(self).corujas@.take(i as int + 1) =~= done0.push(c_pre));
                assert(self.corujas@.take(i as int + 1) =~= done2.push(c2));
                assert(ball_vels@.take(i as int + 1) =~= ball_vels@.take(i as int).push(vel));
            }
            i = i + 1;
        }
        proof {
            assert(old(self).corujas@.take(n as int) =~= old(self).corujas@);
            assert(self.corujas@.take(n as int) =~= self.corujas@);
            assert(ball_vels@.take(n as int) =~= ball_vels@);
        }
        any_touched
    }

    /// The collection's attack hook; for now it has nothing to do.
    pub fn attack(&mut self)
        ensures
            *final(self) == *old(self),
    {
    }

    /// How many owls are alive.
    pub fn len(&self) -> (n: usize)
        ensures
            n == self.corujas@.len(),
    {
        self.corujas.len()
    }
}

} // verus!
