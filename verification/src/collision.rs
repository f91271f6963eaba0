//! Axis-separated collision against both tile layers, with the door and
//! chest triggers that ride on it.
//!
//! A moving entity's candidate position is tested one axis at a time:
//! the X candidate keeps the current Y, and two corner cells of the
//! bounding box are probed on its leading column (top and bottom); the Y
//! candidate keeps the current X and probes the leading row's left and
//! right corners.  A probed cell blocks if its wall-layer kind is not
//! empty or its floor-layer kind is hazardous; cells outside either grid
//! never block.  Only the blocked axis loses its displacement, so an
//! entity slides along walls.  Every probed cell also fires the door
//! trigger (a door empties itself and its companion, though it still
//! blocks the frame it opens), and the resolver reports whether any
//! probed cell holds the chest; the frame's tick aggregates the reports
//! of every mover and drives the chest's flags once.

use vstd::prelude::*;

use crate::geom::{Dir, Vec2};
use crate::map::{
    door_open, gkind, grid_of, map_wf, TileMap, CHEST_KIND,
};
use crate::units::{
    clamp_coord, clamped, div_pos, BOX_CAP, CELL_CAP, COORD_LIMIT, STEP_CAP,
};

verus! {

/// Whether a floor-layer kind is hazardous (deep water and the like):
/// it blocks even though the layer is otherwise walk-through.
pub open spec fn floor_hazard(k: u8) -> bool {
    k == 6 || k == 7
}

/// The cell index a world coordinate falls in: truncating division by the
/// cell size, with everything left of or above the grid reading as the
/// first cell, as a float cast would.
pub open spec fn cell_of(p: int, cell: int) -> int
    recommends
        1 <= cell,
{
    if p < 0 {
        0
    } else {
        p / cell
    }
}

/// One axis-separated movement question: an entity at `(px, py)` with a
/// bounding box `bw` by `bh` intends one step of `step` milli-units along
/// each axis of `(dx, dy)`, over layers of cell size `cell`.
pub struct Probe {
    pub px: int,
    pub py: int,
    pub dx: int,
    pub dy: int,
    pub step: int,
    pub bw: int,
    pub bh: int,
    pub cell: int,
}

/// Bounds under which a movement question is meaningful and safe.
pub open spec fn probe_wf(q: Probe) -> bool {
    &&& -COORD_LIMIT <= q.px <= COORD_LIMIT
    &&& -COORD_LIMIT <= q.py <= COORD_LIMIT
    &&& -1 <= q.dx <= 1
    &&& -1 <= q.dy <= 1
    &&& 0 <= q.step <= STEP_CAP
    &&& 0 <= q.bw <= BOX_CAP
    &&& 0 <= q.bh <= BOX_CAP
    &&& 1 <= q.cell <= CELL_CAP
}

/// The movement question an entity's state poses.
pub open spec fn probe_of(pos: Vec2, dir: Dir, step: int, bw: int, bh: int, cell: int) -> Probe {
    Probe {
        px: pos.x as int,
        py: pos.y as int,
        dx: dir.x as int,
        dy: dir.y as int,
        step,
        bw,
        bh,
        cell,
    }
}

/// The leading-edge offset of an axis: the box extent when moving in the
/// positive direction (the origin is the top-left corner), else nothing.
pub open spec fn lead(dir: int, extent: int) -> int {
    if dir > 0 {
        extent
    } else {
        0
    }
}

/// The column the X candidate's leading edge falls in.
pub open spec fn x_col(q: Probe) -> int {
    cell_of(q.px + q.dx * q.step + lead(q.dx, q.bw), q.cell)
}

/// The row of the box's top edge.
pub open spec fn top_row(q: Probe) -> int {
    cell_of(q.py, q.cell)
}

/// The row of the box's bottom edge.
pub open spec fn bot_row(q: Probe) -> int {
    cell_of(q.py + q.bh, q.cell)
}

/// The row the Y candidate's leading edge falls in.
pub open spec fn y_row(q: Probe) -> int {
    cell_of(q.py + q.dy * q.step + lead(q.dy, q.bh), q.cell)
}

/// The column of the box's left edge.
pub open spec fn left_col(q: Probe) -> int {
    cell_of(q.px, q.cell)
}

/// The column of the box's right edge.
pub open spec fn right_col(q: Probe) -> int {
    cell_of(q.px + q.bw, q.cell)
}

/// Whether a cell blocks: a non-empty wall kind or a hazardous floor
/// kind; cells outside either grid never block.
pub open spec fn blocks(w: Seq<Seq<u8>>, f: Seq<Seq<u8>>, r: int, c: int) -> bool {
    gkind(w, r, c) != 0 || floor_hazard(gkind(f, r, c))
}

/// Whether the X candidate is blocked: either probed corner of its
/// leading column blocks.
pub open spec fn blocked_x(w: Seq<Seq<u8>>, f: Seq<Seq<u8>>, q: Probe) -> bool {
    blocks(w, f, top_row(q), x_col(q)) || blocks(w, f, bot_row(q), x_col(q))
}

/// Whether the Y candidate is blocked: either probed corner of its
/// leading row blocks.
pub open spec fn blocked_y(w: Seq<Seq<u8>>, f: Seq<Seq<u8>>, q: Probe) -> bool {
    blocks(w, f, y_row(q), left_col(q)) || blocks(w, f, y_row(q), right_col(q))
}

/// Whether any probed cell of either axis holds the chest.
pub open spec fn chest_probed(w: Seq<Seq<u8>>, q: Probe) -> bool {
    ||| gkind(w, top_row(q), x_col(q)) == CHEST_KIND
    ||| gkind(w, bot_row(q), x_col(q)) == CHEST_KIND
    ||| gkind(w, y_row(q), left_col(q)) == CHEST_KIND
    ||| gkind(w, y_row(q), right_col(q)) == CHEST_KIND
}

/// The wall grid after every probed cell has fired the door trigger, in
/// probe order.
pub open spec fn doors_opened(w: Seq<Seq<u8>>, q: Probe) -> Seq<Seq<u8>> {
    let w1 = door_open(w, top_row(q), x_col(q));
    let w2 = door_open(w1, bot_row(q), x_col(q));
    let w3 = door_open(w2, y_row(q), left_col(q));
    door_open(w3, y_row(q), right_col(q))
}

/// A coordinate after its axis resolves: unchanged when blocked, else
/// displaced by the full step and saturated into the world.
pub open spec fn moved_axis(p: int, dir: int, step: int, blocked: bool) -> int {
    if blocked {
        p
    } else {
        clamped(p + dir * step)
    }
}

/// Axis-separated sliding: when the X candidate is blocked but the Y
/// candidate is free, the X coordinate is kept exactly while the Y
/// coordinate takes its full displacement — in particular, moving
/// diagonally into a wall still moves along it.
pub proof fn lemma_sliding(w: Seq<Seq<u8>>, f: Seq<Seq<u8>>, q: Probe)
    requires
        probe_wf(q),
        blocked_x(w, f, q),
        !blocked_y(w, f, q),
    ensures
        moved_axis(q.px, q.dx, q.step, blocked_x(w, f, q)) == q.px,
        moved_axis(q.py, q.dy, q.step, blocked_y(w, f, q)) == clamped(q.py + q.dy * q.step),
        (q.dy != 0 && q.step >= 1 && -COORD_LIMIT <= q.py + q.dy * q.step <= COORD_LIMIT)
            ==> moved_axis(q.py, q.dy, q.step, blocked_y(w, f, q)) != q.py,
{
    if q.dy != 0 && q.step >= 1 {
        assert(q.dy * q.step != 0) by (nonlinear_arith)
            requires
                q.dy == -1 || q.dy == 1,
                q.step >= 1,
        ;
    }
}

/// Diagonal correction at the movement level: on an unblocked axis, a
/// diagonal intent covers strictly less ground than an axial intent at
/// the same base speed, whenever the axial frame covers any ground and
/// its candidate stays inside the world (so no saturation interferes).
pub proof fn lemma_diagonal_move_slower(p: int, dir: int, speed: int, dt: int)
    requires
        dir == -1 || dir == 1,
        0 <= speed,
        0 <= dt,
        crate::motion::frame_step(speed, dt) >= 1,
        -COORD_LIMIT <= p <= COORD_LIMIT,
        -COORD_LIMIT <= p + dir * crate::motion::frame_step(speed, dt) <= COORD_LIMIT,
    ensures
        ({
            let axial = crate::motion::frame_step(speed, dt);
            let diag = crate::motion::dir_step(speed, dt, dir, dir);
            &&& moved_axis(p, dir, axial, false) == p + dir * axial
            &&& moved_axis(p, dir, diag, false) == p + dir * diag
            &&& 0 <= dir * (moved_axis(p, dir, diag, false) - p) < dir * (moved_axis(
                p,
                dir,
                axial,
                false,
            ) - p)
        }),
{
    let axial = crate::motion::frame_step(speed, dt);
    let diag = crate::motion::dir_step(speed, dt, dir, dir);
    crate::motion::lemma_diagonal_slower(speed, dt);
    assert(0 <= diag < axial);
    assert(dir * diag == if dir == 1 {
        diag
    } else {
        -diag
    }) by (nonlinear_arith)
        requires
            dir == -1 || dir == 1,
    ;
    assert(dir * axial == if dir == 1 {
        axial
    } else {
        -axial
    }) by (nonlinear_arith)
        requires
            dir == -1 || dir == 1,
    ;
    assert(-COORD_LIMIT <= p + dir * diag <= COORD_LIMIT);
    assert(dir * ((p + dir * diag) - p) == diag) by (nonlinear_arith)
        requires
            dir == -1 || dir == 1,
    ;
    assert(dir * ((p + dir * axial) - p) == axial) by (nonlinear_arith)
        requires
            dir == -1 || dir == 1,
    ;
}

/// The cell index a world coordinate falls in.
pub fn cell_index(p: i64, cell: i64) -> (r: i64)
    requires
        1 <= cell,
    ensures
        r == cell_of(p as int, cell as int),
        0 <= r,
{
    if p < 0 {
        0
    } else {
        div_pos(p, cell)
    }
}

/// A displacement of `step` along `dir`.
pub fn signed_step(dir: i8, step: i64) -> (r: i64)
    requires
        -1 <= dir <= 1,
        0 <= step,
    ensures
        r == dir as int * step,
        -step <= r <= step,
{
    if dir > 0 {
        proof {
            assert(dir as int * step == step) by (nonlinear_arith)
                requires
                    dir == 1,
            ;
        }
        step
    } else if dir < 0 {
        proof {
            assert(dir as int * step == -step) by (nonlinear_arith)
                requires
                    dir == -1,
            ;
        }
        -step
    } else {
        proof {
            assert(dir as int * step == 0) by (nonlinear_arith)
                requires
                    dir == 0,
            ;
        }
        0
    }
}

/// Whether the cell at `(r, c)` blocks, over both layers.
fn blocks_at(walls: &TileMap, floors: &TileMap, r: i64, c: i64) -> (b: bool)
    requires
        map_wf(*walls),
        map_wf(*floors),
    ensures
        b == blocks(grid_of(*walls), grid_of(*floors), r as int, c as int),
{
    let wk = walls.cell_kind(r, c);
    let fk = floors.cell_kind(r, c);
    wk != 0 || fk == 6 || fk == 7
}

/// Resolve one axis-separated movement step, firing the door trigger of
/// every probed cell, and report whether any probed cell holds the
/// chest; the chest's own flags are the frame aggregate's business, not
/// this one mover's.
pub fn resolve_move(
    pos: &mut Vec2,
    dir: Dir,
    step: i64,
    bw: i64,
    bh: i64,
    walls: &mut TileMap,
    floors: &TileMap,
) -> (touched: bool)
    requires
        map_wf(*old(walls)),
        map_wf(*floors),
        old(walls).size == floors.size,
        probe_wf(probe_of(*old(pos), dir, step as int, bw as int, bh as int, old(walls).size as int)),
    ensures
        ({
            let q = probe_of(*old(pos), dir, step as int, bw as int, bh as int, old(walls).size as int);
            let w0 = grid_of(*old(walls));
            let f = grid_of(*floors);
            &&& touched == chest_probed(w0, q)
            &&& grid_of(*final(walls)) == doors_opened(w0, q)
            &&& final(walls).chest == old(walls).chest
            &&& final(pos).x == moved_axis(q.px, q.dx, q.step, blocked_x(w0, f, q))
            &&& final(pos).y == moved_axis(q.py, q.dy, q.step, blocked_y(w0, f, q))
            &&& map_wf(*final(walls))
            &&& final(walls).width == old(walls).width
            &&& final(walls).height == old(walls).height
            &&& final(walls).size == old(walls).size
            &&& final(walls).wall == old(walls).wall
            &&& final(walls).animated == old(walls).animated
            &&& -COORD_LIMIT <= final(pos).x <= COORD_LIMIT
            &&& -COORD_LIMIT <= final(pos).y <= COORD_LIMIT
        }),
{
    let cell = walls.size;
    let dx_step = signed_step(dir.x, step);
    let dy_step = signed_step(dir.y, step);

    let lead_x = if dir.x > 0 { bw } else { 0 };
    let cx = cell_index(pos.x + dx_step + lead_x, cell);
    let r1 = cell_index(pos.y, cell);
    let r2 = cell_index(pos.y + bh, cell);
    let in_x = blocks_at(walls, floors, r1, cx) || blocks_at(walls, floors, r2, cx);

    let lead_y = if dir.y > 0 { bh } else { 0 };
    let ry = cell_index(pos.y + dy_step + lead_y, cell);
    let c1 = cell_index(pos.x, cell);
    let c2 = cell_index(pos.x + bw, cell);
    let in_y = blocks_at(walls, floors, ry, c1) || blocks_at(walls, floors, ry, c2);

    let touched = walls.cell_kind(r1, cx) == CHEST_KIND || walls.cell_kind(r2, cx) == CHEST_KIND
        || walls.cell_kind(ry, c1) == CHEST_KIND || walls.cell_kind(ry, c2) == CHEST_KIND;

    walls.open_door_at(r1, cx);
    walls.open_door_at(r2, cx);
    walls.open_door_at(ry, c1);
    walls.open_door_at(ry, c2);

    if !in_x {
        pos.x = clamp_coord(pos.x + dx_step);
    }
    if !in_y {
        pos.y = clamp_coord(pos.y + dy_step);
    }
    touched
}

} // verus!
