//! The whole simulation state and its per-frame tick.
//!
//! One tick runs a fixed per-frame order: player movement and animation
//! (which may open doors in the wall layer), then every enemy's frame,
//! then the chest flags are driven once from the aggregate of all the
//! movers' contact reports, then both layers' animation advance (which
//! settles the chest reward), then the camera.  Aggregating first means
//! one mover standing on the chest keeps it playing no matter how many
//! others report no contact the same frame.  A tick of zero elapsed
//! ticks is a no-op, equivalent to not ticking at all.

use vstd::prelude::*;

use crate::camera::{camera_stepped, camera_wf, Camera};
use crate::enemies::{any_true, enemies_stepped, enemies_wf, Enemies};
use crate::geom::Vec2;
use crate::map::{map_contacted, map_ticked, map_wf, TileMap};
use crate::player::{
    player_animated, player_moved, player_wf, with_box, Input, Player,
};
use crate::units::{DT_CAP, SCREEN_CAP, VEL_CAP};

verus! {

/// The whole simulation state.
pub struct World {
    pub player: Player,
    pub enemies: Enemies,
    pub walls: TileMap,
    pub floors: TileMap,
    pub camera: Camera,
}

/// Validity of the world: every component valid and the two layers
/// agreeing on the cell size.
pub open spec fn world_wf(w: World) -> bool {
    &&& player_wf(w.player)
    &&& enemies_wf(w.enemies)
    &&& map_wf(w.walls)
    &&& map_wf(w.floors)
    &&& w.walls.size == w.floors.size
    &&& camera_wf(w.camera)
}

/// How one tick of `dt > 0` ticks rewrites the world, stage by stage:
/// the player's frame hands the wall layer to the enemies' frames, the
/// chest flags take the OR of every mover's contact report, the layers
/// advance their animations, and the camera follows the updated player.
pub open spec fn world_ticked(
    w0: World,
    w1: World,
    inp: Input,
    dt: int,
    sw: int,
    sh: int,
    vels: Seq<Vec2>,
) -> bool {
    exists|pm: Player, c1: Camera, wm1: TileMap, wm2: TileMap, wm3: TileMap, pt: bool, ts: Seq<bool>|
        #![trigger player_moved(with_box(w0.player), pm, w0.camera, c1, w0.walls, wm1, w0.floors, inp, dt, pt),
            enemies_stepped(w0.enemies.corujas@, w1.enemies.corujas@, wm1, wm2, w0.floors, w1.player, dt, vels, ts),
            map_ticked(wm3, w1.walls, dt)]
        {
            &&& player_moved(
                with_box(w0.player),
                pm,
                w0.camera,
                c1,
                w0.walls,
                wm1,
                w0.floors,
                inp,
                dt,
                pt,
            )
            &&& player_animated(pm, w1.player, inp, dt)
            &&& enemies_stepped(
                w0.enemies.corujas@,
                w1.enemies.corujas@,
                wm1,
                wm2,
                w0.floors,
                w1.player,
                dt,
                vels,
                ts,
            )
            &&& map_contacted(wm2, wm3, pt || any_true(ts))
            &&& map_ticked(w0.floors, w1.floors, dt)
            &&& map_ticked(wm3, w1.walls, dt)
            &&& camera_stepped(c1, w1.camera, w1.player, dt, sw, sh)
        }
}

impl World {
    /// Assemble a world.
    pub fn new(
        player: Player,
        enemies: Enemies,
        walls: TileMap,
        floors: TileMap,
        camera: Camera,
    ) -> (w: World)
        ensures
            w.player == player,
            w.enemies == enemies,
            w.walls == walls,
            w.floors == floors,
            w.camera == camera,
    {
        World { player, enemies, walls, floors, camera }
    }

    /// One simulation tick of `dt` elapsed ticks.  With `dt` zero the
    /// world is untouched: no position, no animation frame, no camera
    /// offset changes.
    pub fn tick(&mut self, inp: &Input, dt: i64, screen_w: i64, screen_h: i64, ball_vels: &Vec<Vec2>)
        requires
            world_wf(*old(self)),
            0 <= dt <= DT_CAP,
            0 <= screen_w <= SCREEN_CAP,
            0 <= screen_h <= SCREEN_CAP,
            ball_vels@.len() == old(self).enemies.corujas@.len(),
            forall|i: int|
                0 <= i < ball_vels@.len() ==> -VEL_CAP <= (#[trigger] ball_vels@[i]).x <= VEL_CAP
                    && -VEL_CAP <= ball_vels@[i].y <= VEL_CAP,
        ensures
            world_wf(*final(self)),
            dt == 0 ==> *final(self) == *old(self),
            dt > 0 ==> world_ticked(
                *old(self),
                *final(self),
                *inp,
                dt as int,
                screen_w as int,
                screen_h as int,
                ball_vels@,
            ),
    {
        if dt == 0 {
            return ;
        }
        let pt = self.player.update(&mut self.camera, &mut self.walls, &self.floors, inp, dt);
        let ghost c1 = self.camera;
        let ghost wm1 = self.walls;
        let et = self.enemies.update(&mut self.walls, &self.floors, &self.player, dt, ball_vels);
        let ghost wm2 = self.walls;
        self.walls.chest_contact(pt || et);
        let ghost wm3 = self.walls;
        self.floors.update(dt);
        self.walls.update(dt);
        self.camera.update(&self.player, dt, screen_w, screen_h);
        proof {
            let pm = choose|pm: Player|
                {
                    &&& #[trigger] player_moved(
                        with_box(old(self).player),
                        pm,
                        old(self).camera,
                        c1,
                        old(self).walls,
                        wm1,
                        old(self).floors,
                        *inp,
                        dt as int,
                        pt,
                    )
                    &&& player_animated(pm, self.player, *inp, dt as int)
                };
            assert(player_moved(
                with_box(old(self).player),
                pm,
                old(self).camera,
                c1,
                old(self).walls,
                wm1,
                old(self).floors,
                *inp,
                dt as int,
                pt,
            ));
            let ts = choose|ts: Seq<bool>|
                {
                    &&& #[trigger] enemies_stepped(
                        old(self).enemies.corujas@,
                        self.enemies.corujas@,
                        wm1,
                        wm2,
                        old(self).floors,
                        self.player,
                        dt as int,
                        ball_vels@,
                        ts,
                    )
                    &&& et == any_true(ts)
                };
            assert(enemies_stepped(
                old(self).enemies.corujas@,
                self.enemies.corujas@,
                wm1,
                wm2,
                old(self).floors,
                self.player,
                dt as int,
                ball_vels@,
                ts,
            ));
            assert(map_contacted(wm2, wm3, pt || any_true(ts)));
            assert(map_ticked(old(self).floors, self.floors, dt as int));
            assert(map_ticked(wm3, self.walls, dt as int));
            assert(camera_stepped(c1, self.camera, self.player, dt as int, screen_w as int, screen_h as int));
            assert(world_ticked(
                *old(self),
                *self,
                *inp,
                dt as int,
                screen_w as int,
                screen_h as int,
                ball_vels@,
            ));
        }
    }
}

} // verus!
