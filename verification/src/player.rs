//! The player: input-driven movement with collision, facing, animation
//! selection, and the sword's frame-zero attack trigger.
//!
//! Per frame the input's four axis keys become an intent vector; the
//! frame-scaled, diagonally corrected speed and the current animation's
//! bounding box pose one axis-separated movement question.  Facing flips
//! only on a nonzero horizontal intent, and the walking animation is
//! selected exactly while some axis is active.  Holding the free-roam
//! modifier redirects the same intent into panning the camera instead of
//! moving the player.

use vstd::prelude::*;

use crate::anim::{cur_anim, sprite_stepped, sprite_wf, AnimatedSprite, Animation};
use crate::camera::Camera;
use crate::collision::{
    blocked_x, blocked_y, chest_probed, doors_opened, moved_axis, resolve_move, signed_step, Probe,
};
use crate::geom::{dir_wf, Dir, HitBox, Vec2};
use crate::map::{grid_of, map_wf, TileMap};
use crate::motion::{dir_step, scaled_dir_step};
use crate::units::{
    clamp_cam, clamped_cam, BOX_CAP, CAM_POS_LIMIT, COORD_LIMIT, DT_CAP, SCALE_CAP, SPEED_CAP,
};

verus! {

/// One frame of input, as plain booleans: the four movement keys, the
/// free-roam modifier, and the attack key both held and edge-detected.
#[derive(Clone, Copy, PartialEq, Eq, Structural)]
pub struct Input {
    pub up: bool,
    pub down: bool,
    pub left: bool,
    pub right: bool,
    pub modifier: bool,
    pub attack_held: bool,
    pub attack_pressed: bool,
}

/// The intent of one axis: its positive key minus its negative key.
pub open spec fn axis_value(pos: bool, neg: bool) -> i8 {
    if pos && !neg {
        1
    } else if neg && !pos {
        -1i8
    } else {
        0
    }
}

/// The intent vector a frame of input encodes.
pub open spec fn input_dir(inp: Input) -> Dir {
    Dir { x: axis_value(inp.right, inp.left), y: axis_value(inp.down, inp.up) }
}

/// The intent of one axis: its positive key minus its negative key.
pub fn axis(pos: bool, neg: bool) -> (r: i8)
    ensures
        r == axis_value(pos, neg),
{
    if pos && !neg {
        1
    } else if neg && !pos {
        -1
    } else {
        0
    }
}

/// Facing after a frame: a nonzero horizontal intent sets it, no
/// horizontal intent keeps it.
pub open spec fn flip_after(flipped: bool, dx: int) -> bool {
    if dx < 0 {
        true
    } else if dx > 0 {
        false
    } else {
        flipped
    }
}

/// The animation an intent selects: walking while any axis is active,
/// else idle.
pub open spec fn anim_index(dx: int, dy: int) -> int {
    if dx != 0 || dy != 0 {
        1
    } else {
        0
    }
}

/// The bounding-box width of a sprite's active animation at a scale.
pub open spec fn box_w(s: AnimatedSprite, scale: int) -> int {
    cur_anim(s).width * scale
}

/// The bounding-box height of a sprite's active animation at a scale.
pub open spec fn box_h(s: AnimatedSprite, scale: int) -> int {
    cur_anim(s).height * scale
}

/// The bounding box of a sprite's active animation at a scale.
pub fn sprite_box(s: &AnimatedSprite, scale: i64) -> (b: (i64, i64))
    requires
        sprite_wf(*s),
        1 <= scale <= SCALE_CAP,
    ensures
        b.0 == box_w(*s, scale as int),
        b.1 == box_h(*s, scale as int),
        1 <= b.0 <= BOX_CAP,
        1 <= b.1 <= BOX_CAP,
{
    let a = &s.animations[s.cur_animation];
    proof {
        assert(1 <= a.width * scale <= BOX_CAP && 1 <= a.height * scale <= BOX_CAP)
            by (nonlinear_arith)
            requires
                1 <= a.width <= 10_000,
                1 <= a.height <= 10_000,
                1 <= scale <= SCALE_CAP,
                BOX_CAP == 10_000_000_000i64,
                SCALE_CAP == 1_000_000i64,
        ;
    }
    ((a.width as i64) * scale, (a.height as i64) * scale)
}

/// The player.
pub struct Player {
    pub pos: Vec2,
    pub size: i64,
    pub sprite: AnimatedSprite,
    pub speed: i64,
    pub flipped: bool,
    pub real_size: Vec2,
    pub dir: Dir,
    pub sword_sprite: AnimatedSprite,
    pub attacking: bool,
    pub sword_hit: HitBox,
}

/// Validity of the player.
pub open spec fn player_wf(p: Player) -> bool {
    &&& -COORD_LIMIT <= p.pos.x <= COORD_LIMIT
    &&& -COORD_LIMIT <= p.pos.y <= COORD_LIMIT
    &&& 1 <= p.size <= SCALE_CAP
    &&& 0 <= p.speed <= SPEED_CAP
    &&& sprite_wf(p.sprite)
    &&& p.sprite.animations@.len() == 2
    &&& sprite_wf(p.sword_sprite)
    &&& p.sword_sprite.animations@.len() == 1
    &&& dir_wf(p.dir)
    &&& 0 <= p.real_size.x <= BOX_CAP
    &&& 0 <= p.real_size.y <= BOX_CAP
    &&& -2 * COORD_LIMIT <= p.sword_hit.pos.x <= 2 * COORD_LIMIT
    &&& -2 * COORD_LIMIT <= p.sword_hit.pos.y <= 2 * COORD_LIMIT
    &&& 0 <= p.sword_hit.size.x <= BOX_CAP
    &&& 0 <= p.sword_hit.size.y <= BOX_CAP
}

/// The player's idle animation.
pub open spec fn player_idle_anim() -> Animation {
    Animation { width: 26, height: 32, frames: 6, cur_frame: 0 }
}

/// The player's walking animation.
pub open spec fn player_walk_anim() -> Animation {
    Animation { width: 26, height: 32, frames: 2, cur_frame: 0 }
}

/// The sword's swing animation.
pub open spec fn sword_anim() -> Animation {
    Animation { width: 16, height: 32, frames: 4, cur_frame: 0 }
}

/// How one movement frame rewrites the player, the camera and the wall
/// layer, and what chest contact it reports.  Without the modifier, the
/// intent resolves against the tile layers (opening doors, reporting the
/// chest) and the camera is untouched; with it, the same intent pans the
/// camera, the player stands still and nothing is probed.
pub open spec fn player_moved(
    p0: Player,
    p1: Player,
    c0: Camera,
    c1: Camera,
    w0: TileMap,
    w1: TileMap,
    f: TileMap,
    inp: Input,
    dt: int,
    touched: bool,
) -> bool {
    let d = input_dir(inp);
    let step = dir_step(p0.speed as int, dt, d.x as int, d.y as int);
    let ai = anim_index(d.x as int, d.y as int);
    &&& p1.dir == d
    &&& p1.size == p0.size
    &&& p1.speed == p0.speed
    &&& p1.real_size == p0.real_size
    &&& p1.sword_sprite == p0.sword_sprite
    &&& p1.sword_hit == p0.sword_hit
    &&& p1.attacking == p0.attacking
    &&& p1.sprite.animations == p0.sprite.animations
    &&& p1.sprite.dur == p0.sprite.dur
    &&& p1.sprite.time == p0.sprite.time
    &&& p1.sprite.playing == p0.sprite.playing
    &&& if !inp.modifier {
        let q = Probe {
            px: p0.pos.x as int,
            py: p0.pos.y as int,
            dx: d.x as int,
            dy: d.y as int,
            step,
            bw: p0.sprite.animations@[ai].width * p0.size,
            bh: p0.sprite.animations@[ai].height * p0.size,
            cell: w0.size as int,
        };
        &&& p1.sprite.cur_animation == ai
        &&& p1.flipped == flip_after(p0.flipped, d.x as int)
        &&& p1.pos.x == moved_axis(q.px, q.dx, q.step, blocked_x(grid_of(w0), grid_of(f), q))
        &&& p1.pos.y == moved_axis(q.py, q.dy, q.step, blocked_y(grid_of(w0), grid_of(f), q))
        &&& grid_of(w1) == doors_opened(grid_of(w0), q)
        &&& touched == chest_probed(grid_of(w0), q)
        &&& w1.chest == w0.chest
        &&& w1.width == w0.width
        &&& w1.height == w0.height
        &&& w1.size == w0.size
        &&& w1.wall == w0.wall
        &&& w1.animated == w0.animated
        &&& c1 == c0
    } else {
        &&& p1.sprite.cur_animation == 0
        &&& p1.flipped == p0.flipped
        &&& p1.pos == p0.pos
        &&& w1 == w0
        &&& !touched
        &&& c1.pos.x == clamped_cam(c0.pos.x - d.x as int * 4000)
        &&& c1.pos.y == clamped_cam(c0.pos.y - d.y as int * 4000)
        &&& c1.zoom == c0.zoom
        &&& c1.speed == c0.speed
        &&& c1.speed_limit == c0.speed_limit
    }
}

/// The sword's playing flag after the attack keys are read: holding the
/// key while the swing rests at frame zero stops it (the one-shot "swing
/// finished" signal), a fresh press restarts it.
pub open spec fn sword_playing_after(s: AnimatedSprite, inp: Input) -> bool {
    if inp.attack_held && s.playing && s.animations@[0].cur_frame == 0 {
        false
    } else if inp.attack_pressed {
        true
    } else {
        s.playing
    }
}

/// How the animation half of a player frame rewrites the player: the
/// body sprite steps, the sword sprite steps under its new playing flag,
/// and the sword's hit box is re-anchored beside the player.
pub open spec fn player_animated(p1: Player, p2: Player, inp: Input, dt: int) -> bool {
    &&& sprite_stepped(p1.sprite, p2.sprite, dt)
    &&& sprite_stepped(
        AnimatedSprite { playing: sword_playing_after(p1.sword_sprite, inp), ..p1.sword_sprite },
        p2.sword_sprite,
        dt,
    )
    &&& p2.pos == p1.pos
    &&& p2.size == p1.size
    &&& p2.speed == p1.speed
    &&& p2.flipped == p1.flipped
    &&& p2.real_size == p1.real_size
    &&& p2.dir == p1.dir
    &&& p2.attacking == p1.attacking
    &&& p2.sword_hit.pos.x == (if p1.flipped {
        p1.pos.x - p1.real_size.x
    } else {
        p1.pos.x + p1.real_size.x * 2 - 6000
    })
    &&& p2.sword_hit.pos.y == p1.pos.y + 18000
    &&& p2.sword_hit.size.x == p1.sword_sprite.animations@[0].width * 2000
    &&& p2.sword_hit.size.y == p1.sword_sprite.animations@[0].height * 2000
}

/// A player with its bounding box refreshed from the active animation.
pub open spec fn with_box(p: Player) -> Player {
    Player {
        real_size: Vec2 {
            x: box_w(p.sprite, p.size as int) as i64,
            y: box_h(p.sprite, p.size as int) as i64,
        },
        ..p
    }
}

impl Player {
    /// A fresh player at a position, with a size multiplier and a base
    /// speed.
    pub fn new(pos: Vec2, size: i64, speed: i64) -> (p: Player)
        requires
            -COORD_LIMIT <= pos.x <= COORD_LIMIT,
            -COORD_LIMIT <= pos.y <= COORD_LIMIT,
            1 <= size <= SCALE_CAP,
            0 <= speed <= SPEED_CAP,
        ensures
            player_wf(p),
            p.pos == pos,
            p.size == size,
            p.speed == speed,
            !p.flipped,
            p.dir == (Dir { x: 0, y: 0 }),
            p.attacking,
            p.sprite.animations@ == seq![player_idle_anim(), player_walk_anim()],
            p.sprite.cur_animation == 0,
            p.sprite.dur == 1200,
            p.sprite.time == 0,
            p.sprite.playing,
            p.sword_sprite.animations@ == seq![sword_anim()],
            p.sword_sprite.cur_animation == 0,
            p.sword_sprite.dur == 480,
            p.sword_sprite.time == 0,
            p.sword_sprite.playing,
            p.real_size.x == 26 * size,
            p.real_size.y == 32 * size,
    {
        let mut anims: Vec<Animation> = Vec::new();
        anims.push(Animation { width: 26, height: 32, frames: 6, cur_frame: 0 });
        anims.push(Animation { width: 26, height: 32, frames: 2, cur_frame: 0 });
        let sprite = AnimatedSprite {
            animations: anims,
            cur_animation: 0,
            dur: 1200,
            time: 0,
            playing: true,
        };
        let mut sword_anims: Vec<Animation> = Vec::new();
        sword_anims.push(Animation { width: 16, height: 32, frames: 4, cur_frame: 0 });
        let sword_sprite = AnimatedSprite {
            animations: sword_anims,
            cur_animation: 0,
            dur: 480,
            time: 0,
            playing: true,
        };
        proof {
            assert(sprite.animations@ =~= seq![player_idle_anim(), player_walk_anim()]);
            assert(sword_sprite.animations@ =~= seq![sword_anim()]);
        }
        Player {
            pos,
            size,
            sprite,
            speed,
            flipped: false,
            real_size: Vec2 { x: 26 * size, y: 32 * size },
            dir: Dir { x: 0, y: 0 },
            sword_sprite,
            attacking: true,
            sword_hit: HitBox { pos: Vec2 { x: 0, y: 0 }, size: Vec2 { x: 0, y: 0 } },
        }
    }

    /// Resolve one frame of movement intent — collision-checked motion,
    /// or camera panning under the free-roam modifier — and report
    /// whether the chest was touched.
    pub fn movement(
        &mut self,
        camera: &mut Camera,
        walls: &mut TileMap,
        floors: &TileMap,
        inp: &Input,
        dt: i64,
    ) -> (touched: bool)
        requires
            player_wf(*old(self)),
            crate::camera::camera_wf(*old(camera)),
            map_wf(*old(walls)),
            map_wf(*floors),
            old(walls).size == floors.size,
            0 <= dt <= DT_CAP,
        ensures
            player_moved(
                *old(self),
                *final(self),
                *old(camera),
                *final(camera),
                *old(walls),
                *final(walls),
                *floors,
                *inp,
                dt as int,
                touched,
            ),
            player_wf(*final(self)),
            crate::camera::camera_wf(*final(camera)),
            map_wf(*final(walls)),
            final(walls).size == floors.size,
    {
        let x = axis(inp.right, inp.left);
        let y = axis(inp.down, inp.up);
        self.dir = Dir { x, y };
        let step = scaled_dir_step(self.speed, dt, x, y);
        if !inp.modifier {
            if x < 0 {
                self.flipped = true;
            } else if x > 0 {
                self.flipped = false;
            }
            if x != 0 || y != 0 {
                self.sprite.cur_animation = 1;
            } else {
                self.sprite.cur_animation = 0;
            }
            let b = sprite_box(&self.sprite, self.size);
            resolve_move(&mut self.pos, Dir { x, y }, step, b.0, b.1, walls, floors)
        } else {
            camera.pos.x = clamp_cam(camera.pos.x - signed_step(x, 4000));
            camera.pos.y = clamp_cam(camera.pos.y - signed_step(y, 4000));
            self.sprite.cur_animation = 0;
            false
        }
    }

    /// One full player frame: refresh the bounding box, move, advance the
    /// body and sword animations under the attack keys, re-anchor the
    /// sword's hit box, and report whether the chest was touched.
    pub fn update(
        &mut self,
        camera: &mut Camera,
        walls: &mut TileMap,
        floors: &TileMap,
        inp: &Input,
        dt: i64,
    ) -> (touched: bool)
        requires
            player_wf(*old(self)),
            crate::camera::camera_wf(*old(camera)),
            map_wf(*old(walls)),
            map_wf(*floors),
            old(walls).size == floors.size,
            0 <= dt <= DT_CAP,
        ensures
            player_wf(*final(self)),
            crate::camera::camera_wf(*final(camera)),
            map_wf(*final(walls)),
            final(walls).size == floors.size,
            exists|pm: Player|
                {
                    &&& #[trigger] player_moved(
                        with_box(*old(self)),
                        pm,
                        *old(camera),
                        *final(camera),
                        *old(walls),
                        *final(walls),
                        *floors,
                        *inp,
                        dt as int,
                        touched,
                    )
                    &&& player_animated(pm, *final(self), *inp, dt as int)
                },
    {
        let b = sprite_box(&self.sprite, self.size);
        self.real_size = Vec2 { x: b.0, y: b.1 };
        let ghost p0 = *self;
        let touched = self.movement(camera, walls, floors, inp, dt);
        let ghost pm = *self;
        self.sprite.update(dt);
        let sa = self.sword_sprite.animations[0];
        if inp.attack_held && self.sword_sprite.playing && sa.cur_frame == 0 {
            self.sword_sprite.playing = false;
        } else if inp.attack_pressed {
            self.sword_sprite.playing = true;
        }
        self.sword_sprite.update(dt);
        let sx = if self.flipped {
            self.pos.x - self.real_size.x
        } else {
            self.pos.x + self.real_size.x * 2 - 6000
        };
        let sy = self.pos.y + 18000;
        let sw = self.sword_sprite.animations[0];
        let shw = (sw.width as i64) * 2000;
        let shh = (sw.height as i64) * 2000;
        self.sword_hit = HitBox { pos: Vec2 { x: sx, y: sy }, size: Vec2 { x: shw, y: shh } };
        proof {
            assert(p0 == with_box(*old(self)));
            assert(player_moved(
                p0,
                pm,
                *old(camera),
                *camera,
                *old(walls),
                *walls,
                *floors,
                *inp,
                dt as int,
                touched,
            ));
            assert(player_animated(pm, *self, *inp, dt as int));
        }
        touched
    }
}

} // verus!
