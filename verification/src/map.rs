//! Tile layers: the static grids of tile kinds and their interactive state.
//!
//! A world holds two [`TileMap`]s of the same cell size: a wall layer and a
//! floor layer.  Kind 0 is empty.  On the wall layer any other kind blocks;
//! kinds 5 and 6 are the two halves of a door (blocking until opened, then
//! set to 0 for good) and kind 7 is a chest (blocking, and on contact it
//! drives a one-shot reward).  On the floor layer kinds 6 and 7 are
//! hazardous (blocking) while everything else is walk-through.  Cells read
//! outside the grid are empty, never a fault.

use vstd::prelude::*;

use crate::anim::{
    anim_after, anim_time_after, anim_wf, cur_anim, frame_after, sprite_stepped, sprite_wf,
    AnimatedSprite, Animation,
};
use crate::units::{CELL_CAP, DIM_CAP};

verus! {

/// The kind a door's upper half carries before it is opened.
pub const DOOR_UPPER: u8 = 5;

/// The kind a door's lower half carries before it is opened.
pub const DOOR_LOWER: u8 = 6;

/// The kind of a chest on the wall layer.
pub const CHEST_KIND: u8 = 7;

/// One cell of a tile layer.
#[derive(Clone, Copy, PartialEq, Eq, Structural)]
pub struct Tile {
    pub kind: u8,
}

impl Tile {
    /// A tile of the given kind.
    pub fn new(kind: u8) -> (t: Tile)
        ensures
            t == (Tile { kind }),
    {
        Tile { kind }
    }
}

/// The chest's interactive state: its opening animation, the one-shot
/// reward it grants on a first full cycle, and the second flag a repeat
/// contact sets once the reward is taken.
pub struct Chest {
    pub sprite: AnimatedSprite,
    pub reward: bool,
    pub skill: bool,
}

/// One tile layer: a `height` by `width` grid of kinds, the world size of
/// a cell, whether this is the wall layer, the layer's looping decorative
/// sprites and, on the wall layer, the chest state.
pub struct TileMap {
    pub vec: Vec<Vec<Tile>>,
    pub width: usize,
    pub height: usize,
    pub size: i64,
    pub wall: bool,
    pub animated: Vec<AnimatedSprite>,
    pub chest: Chest,
}

/// The grid of kinds a layer holds.
pub open spec fn grid_of(m: TileMap) -> Seq<Seq<u8>> {
    m.vec@.map_values(|row: Vec<Tile>| row@.map_values(|t: Tile| t.kind))
}

/// The kind at a cell of a grid; cells outside the grid are empty.
pub open spec fn gkind(g: Seq<Seq<u8>>, r: int, c: int) -> u8 {
    if 0 <= r < g.len() && 0 <= c < g[r].len() {
        g[r][c]
    } else {
        0
    }
}

/// A grid with one in-range cell replaced; out-of-range writes change
/// nothing.
pub open spec fn grid_set(g: Seq<Seq<u8>>, r: int, c: int, k: u8) -> Seq<Seq<u8>> {
    if 0 <= r < g.len() && 0 <= c < g[r].len() {
        g.update(r, g[r].update(c, k))
    } else {
        g
    }
}

/// A grid after a door trigger at one cell: a door kind empties its own
/// cell and its vertically adjacent companion cell; any other kind leaves
/// the grid unchanged.
pub open spec fn door_open(g: Seq<Seq<u8>>, r: int, c: int) -> Seq<Seq<u8>> {
    let k = gkind(g, r, c);
    if k == DOOR_UPPER {
        grid_set(grid_set(g, r, c, 0), r + 1, c, 0)
    } else if k == DOOR_LOWER {
        grid_set(grid_set(g, r, c, 0), r - 1, c, 0)
    } else {
        g
    }
}

/// The row of the companion cell a door trigger empties along with its
/// own.
pub open spec fn companion_row(g: Seq<Seq<u8>>, r: int, c: int) -> int {
    if gkind(g, r, c) == DOOR_UPPER {
        r + 1
    } else {
        r - 1
    }
}

/// Door triggers are one-shot.  A trigger at a door cell empties that
/// cell and its companion for good; at any other cell it changes
/// nothing; repeating it never re-triggers; and no cell off the door's
/// column, or beyond its immediate vertical neighbours, is touched.
pub proof fn lemma_door_opens_once(g: Seq<Seq<u8>>, r: int, c: int)
    ensures
        gkind(g, r, c) == DOOR_UPPER || gkind(g, r, c) == DOOR_LOWER ==> {
            &&& gkind(door_open(g, r, c), r, c) == 0
            &&& gkind(door_open(g, r, c), companion_row(g, r, c), c) == 0
        },
        gkind(g, r, c) != DOOR_UPPER && gkind(g, r, c) != DOOR_LOWER ==> door_open(g, r, c) == g,
        door_open(door_open(g, r, c), r, c) == door_open(g, r, c),
        forall|i: int, j: int|
            j != c || (i != r && i != r - 1 && i != r + 1) ==> #[trigger] gkind(
                door_open(g, r, c),
                i,
                j,
            ) == gkind(g, i, j),
{
}

/// A sprite freshly built over one animation.
pub open spec fn fresh_sprite(s: AnimatedSprite, a: Animation, dur: int) -> bool {
    &&& s.animations@ == seq![a]
    &&& s.cur_animation == 0
    &&& s.dur == dur
    &&& s.time == 0
    &&& s.playing
}

/// The decorative water animation of a layer.
pub open spec fn water_anim() -> Animation {
    Animation { width: 15, height: 15, frames: 5, cur_frame: 0 }
}

/// The chest's opening animation at rest.
pub open spec fn chest_anim() -> Animation {
    Animation { width: 25, height: 25, frames: 5, cur_frame: 0 }
}

/// Validity of a tile layer.
pub open spec fn map_wf(m: TileMap) -> bool {
    &&& m.vec@.len() == m.height
    &&& forall|r: int| 0 <= r < m.vec@.len() ==> (#[trigger] m.vec@[r])@.len() == m.width
    &&& forall|r: int, c: int|
        0 <= r < m.vec@.len() && 0 <= c < m.vec@[r]@.len()
            ==> (#[trigger] m.vec@[r]@[c]).kind <= 9
    &&& 1 <= m.width <= DIM_CAP
    &&& 1 <= m.height <= DIM_CAP
    &&& 1 <= m.size <= CELL_CAP
    &&& m.animated@.len() == 2
    &&& forall|i: int| 0 <= i < m.animated@.len() ==> sprite_wf(#[trigger] m.animated@[i])
    &&& sprite_wf(m.chest.sprite)
}

impl TileMap {
    /// A fresh layer with every cell of kind 1.
    pub fn new(width: usize, height: usize, size: i64, wall: bool) -> (m: TileMap)
        requires
            1 <= width <= DIM_CAP,
            1 <= height <= DIM_CAP,
            1 <= size <= CELL_CAP,
        ensures
            map_wf(m),
            m.width == width,
            m.height == height,
            m.size == size,
            m.wall == wall,
            forall|r: int, c: int|
                0 <= r < height && 0 <= c < width ==> #[trigger] gkind(grid_of(m), r, c) == 1,
            chest_fresh(m.chest),
            m.animated@.len() == 2,
            fresh_sprite(m.animated@[0], water_anim(), 1800),
            fresh_sprite(m.animated@[1], water_anim(), 1800),
    {
        let mut vec: Vec<Vec<Tile>> = Vec::new();
        let mut r: usize = 0;
        while r < height
            invariant
                r <= height,
                vec@.len() == r,
                forall|i: int| 0 <= i < r ==> (#[trigger] vec@[i])@.len() == width,
                forall|i: int, j: int|
                    0 <= i < r && 0 <= j < width ==> (#[trigger] vec@[i]@[j]).kind == 1,
            decreases height - r,
        {
            let mut row: Vec<Tile> = Vec::new();
            let mut c: usize = 0;
            while c < width
                invariant
                    c <= width,
                    row@.len() == c,
                    forall|j: int| 0 <= j < c ==> (#[trigger] row@[j]).kind == 1,
                decreases width - c,
            {
                row.push(Tile::new(1));
                c = c + 1;
            }
            vec.push(row);
            r = r + 1;
        }
        let m = TileMap {
            vec,
            width,
            height,
            size,
            wall,
            animated: fresh_water_sprites(),
            chest: fresh_chest(),
        };
        assert forall|r2: int, c2: int| 0 <= r2 < height && 0 <= c2 < width implies #[trigger] gkind(
            grid_of(m),
            r2,
            c2,
        ) == 1 by {
            assert(m.vec@[r2]@[c2].kind == 1);
        }
        m
    }

    /// The kind at a cell; out-of-range cells read as empty.
    pub fn cell_kind(&self, r: i64, c: i64) -> (k: u8)
        requires
            map_wf(*self),
        ensures
            k == gkind(grid_of(*self), r as int, c as int),
    {
        if 0 <= r && r < self.height as i64 && 0 <= c && c < self.width as i64 {
            let tile = &self.vec[r as usize];
            tile[c as usize].kind
        } else {
            0
        }
    }

    /// Replace the kind at a cell; out-of-range writes change nothing.
    pub fn set_kind(&mut self, r: i64, c: i64, k: u8)
        requires
            map_wf(*old(self)),
            k <= 9,
        ensures
            map_wf(*final(self)),
            grid_of(*final(self)) == grid_set(grid_of(*old(self)), r as int, c as int, k),
            final(self).width == old(self).width,
            final(self).height == old(self).height,
            final(self).size == old(self).size,
            final(self).wall == old(self).wall,
            final(self).animated == old(self).animated,
            final(self).chest == old(self).chest,
    {
        if 0 <= r && r < self.height as i64 && 0 <= c && c < self.width as i64 {
            let ru = r as usize;
            let cu = c as usize;
            let row = &mut self.vec[ru];
            let cell = &mut row[cu];
            cell.kind = k;
            assert(grid_of(*self) =~~= grid_set(grid_of(*old(self)), r as int, c as int, k));
        } else {
            assert(grid_of(*self) =~~= grid_set(grid_of(*old(self)), r as int, c as int, k));
        }
    }

    /// Apply the door trigger at a cell: a door kind empties its own cell
    /// and its vertically adjacent companion; any other kind is untouched.
    pub fn open_door_at(&mut self, r: i64, c: i64)
        requires
            map_wf(*old(self)),
            0 <= r < i64::MAX,
            0 <= c,
        ensures
            map_wf(*final(self)),
            grid_of(*final(self)) == door_open(grid_of(*old(self)), r as int, c as int),
            final(self).width == old(self).width,
            final(self).height == old(self).height,
            final(self).size == old(self).size,
            final(self).wall == old(self).wall,
            final(self).animated == old(self).animated,
            final(self).chest == old(self).chest,
    {
        let k = self.cell_kind(r, c);
        if k == DOOR_UPPER {
            self.set_kind(r, c, 0);
            self.set_kind(r + 1, c, 0);
        } else if k == DOOR_LOWER {
            self.set_kind(r, c, 0);
            self.set_kind(r - 1, c, 0);
        }
    }
}

/// How one advance step rewrites the chest: its sprite steps like any
/// other; if, while playing, the stepped frame is the last of the cycle,
/// the cycle is complete, so the frame resets to zero and the reward is
/// granted.  The skill flag is not the update's business.
pub open spec fn chest_stepped(c0: Chest, c1: Chest, dt: int) -> bool {
    let a0 = cur_anim(c0.sprite);
    let f1 = frame_after(a0, c0.sprite.time as int, dt, c0.sprite.dur as int, c0.sprite.playing);
    let completes = c0.sprite.playing && f1 + 1 == a0.frames;
    let shown = if completes {
        0
    } else {
        f1
    };
    &&& c1.sprite.animations@ == c0.sprite.animations@.update(
        c0.sprite.cur_animation as int,
        Animation { cur_frame: shown as usize, ..a0 },
    )
    &&& c1.sprite.time == anim_time_after(c0.sprite.time as int, dt, c0.sprite.dur as int)
    &&& c1.sprite.cur_animation == c0.sprite.cur_animation
    &&& c1.sprite.dur == c0.sprite.dur
    &&& c1.sprite.playing == c0.sprite.playing
    &&& c1.reward == (c0.reward || completes)
    &&& c1.skill == c0.skill
}

/// How a contact report rewrites the chest: a touch starts the opening
/// animation while the reward is untaken, and sets the second flag once
/// the reward is already taken; no touch freezes the animation where it
/// stands.
pub open spec fn chest_touched(c0: Chest, c1: Chest, touched: bool) -> bool {
    &&& c1.sprite.animations@ == c0.sprite.animations@
    &&& c1.sprite.time == c0.sprite.time
    &&& c1.sprite.cur_animation == c0.sprite.cur_animation
    &&& c1.sprite.dur == c0.sprite.dur
    &&& c1.sprite.playing == (if touched {
        if !c0.reward {
            true
        } else {
            c0.sprite.playing
        }
    } else {
        false
    })
    &&& c1.reward == c0.reward
    &&& c1.skill == (c0.skill || (touched && c0.reward))
}

/// How the frame's aggregate contact report rewrites a layer: only the
/// chest flags move, everything else is untouched.
pub open spec fn map_contacted(m0: TileMap, m1: TileMap, touched: bool) -> bool {
    &&& chest_touched(m0.chest, m1.chest, touched)
    &&& m1.vec == m0.vec
    &&& m1.width == m0.width
    &&& m1.height == m0.height
    &&& m1.size == m0.size
    &&& m1.wall == m0.wall
    &&& m1.animated == m0.animated
}

/// How one frame's animation advance rewrites a layer: every decorative
/// sprite and the chest step by `dt`, the grid itself is untouched.
pub open spec fn map_ticked(m0: TileMap, m1: TileMap, dt: int) -> bool {
    &&& m1.animated@.len() == m0.animated@.len()
    &&& forall|i: int|
        0 <= i < m0.animated@.len() ==> sprite_stepped(
            m0.animated@[i],
            #[trigger] m1.animated@[i],
            dt,
        )
    &&& chest_stepped(m0.chest, m1.chest, dt)
    &&& m1.vec == m0.vec
    &&& m1.width == m0.width
    &&& m1.height == m0.height
    &&& m1.size == m0.size
    &&& m1.wall == m0.wall
}

/// The chest's one-shot reward law, over one frame's contact report
/// followed by its animation advance: contact before collection starts
/// the opening animation and no contact freezes it; the reward can flip
/// only while the animation plays, it flips exactly when the cycle
/// completes, and the flip resets the shown frame to zero; a contact
/// once the reward is taken sets the second flag instead.
pub proof fn lemma_chest_reward(c0: Chest, c1: Chest, c2: Chest, touched: bool, dt: int)
    requires
        sprite_wf(c1.sprite),
        chest_touched(c0, c1, touched),
        chest_stepped(c1, c2, dt),
    ensures
        touched && !c0.reward ==> c1.sprite.playing,
        !touched ==> !c1.sprite.playing,
        touched && c0.reward ==> c1.skill,
        !c1.sprite.playing ==> c2.reward == c1.reward,
        c2.reward && !c1.reward ==> cur_anim(c2.sprite).cur_frame == 0,
        c2.reward && !c1.reward ==> c1.sprite.playing && frame_after(
            cur_anim(c1.sprite),
            c1.sprite.time as int,
            dt,
            c1.sprite.dur as int,
            c1.sprite.playing,
        ) + 1 == cur_anim(c1.sprite).frames,
{
}

impl TileMap {
    /// Advance the layer's decorative sprites and the chest by `dt` ticks,
    /// granting the chest reward when its cycle completes.
    pub fn update(&mut self, dt: i64)
        requires
            map_wf(*old(self)),
            0 <= dt,
        ensures
            map_wf(*final(self)),
            map_ticked(*old(self), *final(self), dt as int),
    {
        let n = self.animated.len();
        let mut i: usize = 0;
        while i < n
            invariant
                map_wf(*old(self)),
                0 <= dt,
                i <= n,
                n == self.animated@.len(),
                n == old(self).animated@.len(),
                forall|j: int|
                    0 <= j < i ==> sprite_stepped(
                        old(self).animated@[j],
                        #[trigger] self.animated@[j],
                        dt as int,
                    ),
                forall|j: int|
                    i <= j < n ==> #[trigger] self.animated@[j] == old(self).animated@[j],
                self.vec == old(self).vec,
                self.width == old(self).width,
                self.height == old(self).height,
                self.size == old(self).size,
                self.wall == old(self).wall,
                self.chest == old(self).chest,
            decreases n - i,
        {
            let s = &mut self.animated[i];
            s.update(dt);
            i = i + 1;
        }
        self.chest.sprite.update(dt);
        let idx = self.chest.sprite.cur_animation;
        let a = self.chest.sprite.animations[idx];
        if self.chest.sprite.playing && a.cur_frame + 1 == a.frames {
            let am = &mut self.chest.sprite.animations[idx];
            am.cur_frame = 0;
            self.chest.reward = true;
            assert(self.chest.sprite.animations@ =~= old(self).chest.sprite.animations@.update(
                old(self).chest.sprite.cur_animation as int,
                Animation {
                    cur_frame: 0,
                    ..cur_anim(old(self).chest.sprite)
                },
            ));
        }
    }

    /// Drive the chest flags from the frame's aggregate contact report:
    /// whether any moving entity touched the chest this frame.
    pub fn chest_contact(&mut self, touched: bool)
        requires
            map_wf(*old(self)),
        ensures
            map_wf(*final(self)),
            map_contacted(*old(self), *final(self), touched),
    {
        if touched {
            if !self.chest.reward {
                self.chest.sprite.playing = true;
            } else {
                self.chest.skill = true;
            }
        } else {
            self.chest.sprite.playing = false;
        }
    }
}

/// A chest whose reward has not been touched and whose animation rests.
pub open spec fn chest_fresh(c: Chest) -> bool {
    &&& fresh_sprite(c.sprite, chest_anim(), 1800)
    &&& !c.reward
    &&& !c.skill
}

/// Build the two decorative water sprites of a fresh layer.
pub(crate) fn fresh_water_sprites() -> (v: Vec<AnimatedSprite>)
    ensures
        v@.len() == 2,
        fresh_sprite(v@[0], water_anim(), 1800),
        fresh_sprite(v@[1], water_anim(), 1800),
        sprite_wf(v@[0]),
        sprite_wf(v@[1]),
{
    let mut v: Vec<AnimatedSprite> = Vec::new();
    let mut a1: Vec<Animation> = Vec::new();
    a1.push(Animation { width: 15, height: 15, frames: 5, cur_frame: 0 });
    v.push(AnimatedSprite { animations: a1, cur_animation: 0, dur: 1800, time: 0, playing: true });
    let mut a2: Vec<Animation> = Vec::new();
    a2.push(Animation { width: 15, height: 15, frames: 5, cur_frame: 0 });
    v.push(AnimatedSprite { animations: a2, cur_animation: 0, dur: 1800, time: 0, playing: true });
    assert(v@[0].animations@ =~= seq![water_anim()]);
    assert(v@[1].animations@ =~= seq![water_anim()]);
    v
}

/// Build the chest state of a fresh layer.
pub(crate) fn fresh_chest() -> (c: Chest)
    ensures
        chest_fresh(c),
        sprite_wf(c.sprite),
{
    let mut a: Vec<Animation> = Vec::new();
    a.push(Animation { width: 25, height: 25, frames: 5, cur_frame: 0 });
    let c = Chest {
        sprite: AnimatedSprite { animations: a, cur_animation: 0, dur: 1800, time: 0, playing: true },
        reward: false,
        skill: false,
    };
    assert(c.sprite.animations@ =~= seq![chest_anim()]);
    c
}

} // verus!
