//! Line of sight: the cells a straight line from one cell to another passes
//! over, found by walking the grid with an error term (Bresenham's walk),
//! and which tiles stop the eye.
use vstd::prelude::*;

use crate::items::{tile_blocks_sight, Tile};
use crate::worldgen::coord_ok;

verus! {

/// Step toward `b` along one axis: `1` when `a < b`, else `-1`.
pub open spec fn step_toward(a: int, b: int) -> int {
    if a < b { 1 } else { -1 }
}

/// `|v|`.
pub open spec fn abs_int(v: int) -> int {
    if v < 0 { -v } else { v }
}

/// The cells the walk visits after cell `(x, y)` with error term `err` on
/// its way to `(tx, ty)`, the target itself excluded, taking at most `fuel`
/// steps. Each step doubles the error: at least `dy` moves along x (and
/// adds `dy`), at most `dx` moves along y (and adds `dx`).
pub open spec fn walk_cells(
    x: int,
    y: int,
    err: int,
    tx: int,
    ty: int,
    dx: int,
    dy: int,
    sx: int,
    sy: int,
    fuel: nat,
) -> Seq<(int, int)>
    decreases fuel,
{
    if fuel == 0 || (x == tx && y == ty) {
        Seq::empty()
    } else {
        let e2 = 2 * err;
        let x1 = if e2 >= dy { x + sx } else { x };
        let err1 = if e2 >= dy { err + dy } else { err };
        let y1 = if e2 <= dx { y + sy } else { y };
        let err2 = if e2 <= dx { err1 + dx } else { err1 };
        if x1 == tx && y1 == ty {
            Seq::empty()
        } else {
            seq![(x1, y1)] + walk_cells(x1, y1, err2, tx, ty, dx, dy, sx, sy, (fuel - 1) as nat)
        }
    }
}

/// The cells strictly between `(fx, fy)` and `(tx, ty)` on the line of
/// sight, in order from the viewer. The walk is given `|tx - fx| + |ty - fy|`
/// steps, more than a straight line across the grid ever takes.
pub open spec fn sight_cells_spec(fx: int, fy: int, tx: int, ty: int) -> Seq<(int, int)> {
    let dx = abs_int(tx - fx);
    let dy = -abs_int(ty - fy);
    walk_cells(fx, fy, dx + dy, tx, ty, dx, dy, step_toward(fx, tx), step_toward(fy, ty), (dx - dy) as nat)
}

/// The cells between a viewer at `(fx, fy)` and a target at `(tx, ty)`
/// that must not block sight for the viewer to see the target.
pub fn sight_line(fx: i32, fy: i32, tx: i32, ty: i32) -> (cells: Vec<(i32, i32)>)
    requires
        coord_ok(fx),
        coord_ok(fy),
        coord_ok(tx),
        coord_ok(ty),
    ensures
        cells@.len() == sight_cells_spec(fx as int, fy as int, tx as int, ty as int).len(),
        forall|i: int| 0 <= i < cells@.len() ==> (#[trigger] cells@[i].0 as int, cells@[i].1 as int)
            == sight_cells_spec(fx as int, fy as int, tx as int, ty as int)[i],
{
    let fx64 = fx as i64;
    let fy64 = fy as i64;
    let tx64 = tx as i64;
    let ty64 = ty as i64;
    let dx: i64 = if tx64 >= fx64 { tx64 - fx64 } else { fx64 - tx64 };
    let dy: i64 = if ty64 >= fy64 { fy64 - ty64 } else { ty64 - fy64 };
    let sx: i64 = if fx64 < tx64 { 1 } else { -1 };
    let sy: i64 = if fy64 < ty64 { 1 } else { -1 };
    let mut x = fx64;
    let mut y = fy64;
    let mut err = dx + dy;
    let total_fuel: u64 = (dx - dy) as u64;
    let mut fuel: u64 = total_fuel;
    let ghost total = sight_cells_spec(fx as int, fy as int, tx as int, ty as int);
    let mut out: Vec<(i32, i32)> = Vec::new();
    while fuel > 0 && !(x == tx64 && y == ty64)
        invariant
            coord_ok(fx),
            coord_ok(fy),
            coord_ok(tx),
            coord_ok(ty),
            0 <= dx <= 65530,
            -65530 <= dy <= 0,
            dx == abs_int(tx - fx),
            dy == -abs_int(ty - fy),
            sx == step_toward(fx as int, tx as int),
            sy == step_toward(fy as int, ty as int),
            total_fuel == dx - dy,
            fuel <= total_fuel,
            tx64 == tx,
            ty64 == ty,
            -(total_fuel - fuel) <= x - fx <= total_fuel - fuel,
            -(total_fuel - fuel) <= y - fy <= total_fuel - fuel,
            -131072 - (total_fuel - fuel) * 131072 <= err <= 131072 + (total_fuel - fuel) * 131072,
            total == sight_cells_spec(fx as int, fy as int, tx as int, ty as int),
            out@.len() + walk_cells(x as int, y as int, err as int, tx as int, ty as int, dx as int, dy as int, sx as int, sy as int, fuel as nat).len() == total.len(),
            forall|i: int| 0 <= i < out@.len() ==> (#[trigger] out@[i].0 as int, out@[i].1 as int) == total[i],
            forall|i: int| 0 <= i < walk_cells(x as int, y as int, err as int, tx as int, ty as int, dx as int, dy as int, sx as int, sy as int, fuel as nat).len()
                ==> walk_cells(x as int, y as int, err as int, tx as int, ty as int, dx as int, dy as int, sx as int, sy as int, fuel as nat)[i] == total[out@.len() + i],
        decreases fuel,
    {
        let ghost rest = walk_cells(x as int, y as int, err as int, tx as int, ty as int, dx as int, dy as int, sx as int, sy as int, fuel as nat);
        let e2 = err * 2;
        let mut nerr = err;
        let mut nx = x;
        let mut ny = y;
        if e2 >= dy {
            nerr = nerr + dy;
            nx = nx + sx;
        }
        if e2 <= dx {
            nerr = nerr + dx;
            ny = ny + sy;
        }
        let ghost next = walk_cells(nx as int, ny as int, nerr as int, tx as int, ty as int, dx as int, dy as int, sx as int, sy as int, (fuel - 1) as nat);
        if nx == tx64 && ny == ty64 {
            assert(rest.len() == 0);
            x = nx;
            y = ny;
            err = nerr;
            fuel = fuel - 1;
            assert(walk_cells(x as int, y as int, err as int, tx as int, ty as int, dx as int, dy as int, sx as int, sy as int, fuel as nat).len() == 0);
        } else {
            assert(rest == seq![(nx as int, ny as int)] + next);
            assert(rest[0] == (nx as int, ny as int));
            out.push((nx as i32, ny as i32));
            x = nx;
            y = ny;
            err = nerr;
            fuel = fuel - 1;
            assert forall|i: int| 0 <= i < next.len() implies next[i] == total[out@.len() + i] by {
                assert(next[i] == rest[i + 1]);
            }
        }
    }
    proof {
        let rest = walk_cells(x as int, y as int, err as int, tx as int, ty as int, dx as int, dy as int, sx as int, sy as int, fuel as nat);
        assert(rest.len() == 0);
    }
    out
}

/// How far the player sees, in cells.
pub const VISION_RADIUS: i32 = 7;

/// How far a torch lights, in cells.
pub const TORCH_LIGHT_RADIUS: i32 = 5;

/// Whether offset `(dx, dy)` lies within distance `r`: `dx² + dy² <= r²`.
pub fn within_radius(dx: i32, dy: i32, r: i32) -> (b: bool)
    requires
        -65536 <= dx <= 65536,
        -65536 <= dy <= 65536,
        0 <= r <= 65536,
    ensures
        b == (dx * dx + dy * dy <= r * r),
{
    let x = dx as i64;
    let y = dy as i64;
    let rr = r as i64;
    assert(0 <= x * x <= 65536 * 65536) by (nonlinear_arith)
        requires
            -65536 <= x <= 65536,
    ;
    assert(0 <= y * y <= 65536 * 65536) by (nonlinear_arith)
        requires
            -65536 <= y <= 65536,
    ;
    assert(0 <= rr * rr <= 65536 * 65536) by (nonlinear_arith)
        requires
            0 <= rr <= 65536,
    ;
    x * x + y * y <= rr * rr
}

/// Tiles that stop the eye: walls, rock, mountains and forest.
pub open spec fn blocks_sight(t: Tile) -> bool {
    t == Tile::Wall || t == Tile::Rock || t == Tile::Mountain || t == Tile::Forest
}

/// Whether a viewer sees past cells showing `tiles`: none of them blocks
/// sight.
pub fn sight_clear(tiles: &Vec<Tile>) -> (b: bool)
    ensures
        b == forall|i: int| 0 <= i < tiles@.len() ==> !#[trigger] blocks_sight(tiles@[i]),
{
    let mut i: usize = 0;
    while i < tiles.len()
        invariant
            i <= tiles@.len(),
            forall|j: int| 0 <= j < i ==> !#[trigger] blocks_sight(tiles@[j]),
        decreases tiles.len() - i,
    {
        if tile_blocks_sight(tiles[i]) {
            assert(blocks_sight(tiles@[i as int]));
            return false;
        }
        i = i + 1;
    }
    true
}

// ---------------------------------------------------------------------------
// The walk always arrives
// ---------------------------------------------------------------------------

/// Midway, with `a` steps left along x and `b` along y, the walk's result
/// does not depend on its budget as long as the budget covers `a + b`
/// steps: every step moves along at least one axis and never past the
/// target on either.
proof fn lemma_walk_budget(tx: int, ty: int, dx: int, dy: int, sx: int, sy: int, a: int, b: int, fuel: nat)
    requires
        0 <= a <= dx,
        0 <= b <= -dy,
        sx == 1 || sx == -1,
        sy == 1 || sy == -1,
        fuel >= a + b,
    ensures
        walk_cells(tx - sx * a, ty - sy * b, dx + dy - a * dy - b * dx, tx, ty, dx, dy, sx, sy, fuel)
            == walk_cells(tx - sx * a, ty - sy * b, dx + dy - a * dy - b * dx, tx, ty, dx, dy, sx, sy, (a + b) as nat),
    decreases a + b,
{
    let x = tx - sx * a;
    let y = ty - sy * b;
    let err = dx + dy - a * dy - b * dx;
    if a == 0 && b == 0 {
        assert(x == tx && y == ty);
        return;
    }
    assert(x == tx <==> a == 0) by (nonlinear_arith)
        requires
            x == tx - sx * a,
            sx == 1 || sx == -1,
    ;
    assert(y == ty <==> b == 0) by (nonlinear_arith)
        requires
            y == ty - sy * b,
            sy == 1 || sy == -1,
    ;
    let e2 = 2 * err;
    let xs = e2 >= dy;
    let ys = e2 <= dx;
    if a == 0 {
        assert(!xs) by (nonlinear_arith)
            requires
                a == 0,
                1 <= b <= -dy,
                dx >= 0,
                err == dx + dy - a * dy - b * dx,
                e2 == 2 * err,
                xs == (e2 >= dy),
        ;
    }
    if b == 0 {
        assert(!ys) by (nonlinear_arith)
            requires
                b == 0,
                1 <= a <= dx,
                dy <= 0,
                err == dx + dy - a * dy - b * dx,
                e2 == 2 * err,
                ys == (e2 <= dx),
        ;
    }
    assert(xs || ys);
    let a1 = if xs { a - 1 } else { a };
    let b1 = if ys { b - 1 } else { b };
    let x1 = if xs { x + sx } else { x };
    let y1 = if ys { y + sy } else { y };
    let err1 = if xs { err + dy } else { err };
    let err2 = if ys { err1 + dx } else { err1 };
    assert(x1 == tx - sx * a1) by (nonlinear_arith)
        requires
            x == tx - sx * a,
            x1 == (if xs { x + sx } else { x }),
            a1 == (if xs { a - 1 } else { a }),
    ;
    assert(y1 == ty - sy * b1) by (nonlinear_arith)
        requires
            y == ty - sy * b,
            y1 == (if ys { y + sy } else { y }),
            b1 == (if ys { b - 1 } else { b }),
    ;
    assert(err2 == dx + dy - a1 * dy - b1 * dx) by (nonlinear_arith)
        requires
            err == dx + dy - a * dy - b * dx,
            err1 == (if xs { err + dy } else { err }),
            err2 == (if ys { err1 + dx } else { err1 }),
            a1 == (if xs { a - 1 } else { a }),
            b1 == (if ys { b - 1 } else { b }),
    ;
    assert(x1 == tx <==> a1 == 0) by (nonlinear_arith)
        requires
            x1 == tx - sx * a1,
            sx == 1 || sx == -1,
    ;
    assert(y1 == ty <==> b1 == 0) by (nonlinear_arith)
        requires
            y1 == ty - sy * b1,
            sy == 1 || sy == -1,
    ;
    if !(a1 == 0 && b1 == 0) {
        lemma_walk_budget(tx, ty, dx, dy, sx, sy, a1, b1, (fuel - 1) as nat);
        lemma_walk_budget(tx, ty, dx, dy, sx, sy, a1, b1, (a + b - 1) as nat);
    }
}

/// The line of sight does not depend on the walk's step budget: with any
/// budget of at least `|tx - fx| + |ty - fy|` steps the walk reaches the
/// target and lists the same cells, so the budget never cuts a line short.
pub proof fn lemma_sight_budget_never_binds(fx: int, fy: int, tx: int, ty: int, fuel: nat)
    requires
        fuel >= abs_int(tx - fx) + abs_int(ty - fy),
    ensures
        walk_cells(
            fx,
            fy,
            abs_int(tx - fx) - abs_int(ty - fy),
            tx,
            ty,
            abs_int(tx - fx),
            -abs_int(ty - fy),
            step_toward(fx, tx),
            step_toward(fy, ty),
            fuel,
        ) == sight_cells_spec(fx, fy, tx, ty),
{
    let dx = abs_int(tx - fx);
    let dy = -abs_int(ty - fy);
    let sx = step_toward(fx, tx);
    let sy = step_toward(fy, ty);
    assert(fx == tx - sx * dx);
    assert(fy == ty - sy * (-dy));
    assert(dx + dy == dx + dy - dx * dy - (-dy) * dx) by (nonlinear_arith);
    lemma_walk_budget(tx, ty, dx, dy, sx, sy, dx, -dy, fuel);
    lemma_walk_budget(tx, ty, dx, dy, sx, sy, dx, -dy, (dx - dy) as nat);
}

// ---------------------------------------------------------------------------
// Searching outward
// ---------------------------------------------------------------------------

/// The Chebyshev distance of offset `(dx, dy)`.
pub open spec fn cheb(dx: int, dy: int) -> int {
    if abs_int(dx) > abs_int(dy) { abs_int(dx) } else { abs_int(dy) }
}

/// Offset `a` comes before `b` row by row: a smaller `dy`, or the same `dy`
/// and a smaller `dx`.
pub open spec fn row_major_before(a: (i32, i32), b: (i32, i32)) -> bool {
    a.1 < b.1 || (a.1 == b.1 && a.0 < b.0)
}

/// Offset `p` lies on the ring of radius `r` and before cell `(dx, dy)` in
/// row order.
pub open spec fn ring_cell_before(p: (i32, i32), r: int, dx: int, dy: int) -> bool {
    cheb(p.0 as int, p.1 as int) == r && (p.1 < dy || (p.1 == dy && p.0 < dx))
}

/// The offsets at Chebyshev distance `r`, row by row from the top left: the
/// order in which a search around a cell looks at the ring of radius `r`.
pub fn ring_offsets(r: i32) -> (v: Vec<(i32, i32)>)
    requires
        0 <= r <= 1024,
    ensures
        forall|i: int| 0 <= i < v@.len() ==> cheb(#[trigger] v@[i].0 as int, v@[i].1 as int) == r,
        forall|i: int, j: int| 0 <= i < j < v@.len() ==> row_major_before(#[trigger] v@[i], #[trigger] v@[j]),
        forall|dx: i32, dy: i32| cheb(dx as int, dy as int) == r ==> exists|i: int| 0 <= i < v@.len() && #[trigger] v@[i] == (dx, dy),
{
    let mut v: Vec<(i32, i32)> = Vec::new();
    let mut dy: i32 = -r;
    while dy <= r
        invariant
            0 <= r <= 1024,
            -r <= dy <= r + 1,
            forall|i: int| 0 <= i < v@.len() ==> ring_cell_before(#[trigger] v@[i], r as int, -r, dy as int),
            forall|i: int, j: int| 0 <= i < j < v@.len() ==> row_major_before(#[trigger] v@[i], #[trigger] v@[j]),
            forall|ex: i32, ey: i32| cheb(ex as int, ey as int) == r && ey < dy ==> exists|i: int| 0 <= i < v@.len() && #[trigger] v@[i] == (ex, ey),
        decreases r + 1 - dy,
    {
        let mut dx: i32 = -r;
        while dx <= r
            invariant
                0 <= r <= 1024,
                -r <= dy <= r,
                -r <= dx <= r + 1,
                forall|i: int| 0 <= i < v@.len() ==> ring_cell_before(#[trigger] v@[i], r as int, dx as int, dy as int),
                forall|i: int, j: int| 0 <= i < j < v@.len() ==> row_major_before(#[trigger] v@[i], #[trigger] v@[j]),
                forall|ex: i32, ey: i32| cheb(ex as int, ey as int) == r && (ey < dy || (ey == dy && ex < dx)) ==> exists|i: int| 0 <= i < v@.len() && #[trigger] v@[i] == (ex, ey),
            decreases r + 1 - dx,
        {
            let ax = if dx < 0 { -dx } else { dx };
            let ay = if dy < 0 { -dy } else { dy };
            let m = if ax > ay { ax } else { ay };
            if m == r {
                let ghost before = v@;
                v.push((dx, dy));
                assert forall|i: int, j: int| 0 <= i < j < v@.len() implies row_major_before(#[trigger] v@[i], #[trigger] v@[j]) by {
                    if j == before.len() {
                        assert(v@[i] == before[i]);
                        assert(ring_cell_before(before[i], r as int, dx as int, dy as int));
                    } else {
                        assert(v@[i] == before[i] && v@[j] == before[j]);
                    }
                }
                assert forall|i: int| 0 <= i < v@.len() implies ring_cell_before(#[trigger] v@[i], r as int, dx + 1, dy as int) by {
                    if i < before.len() {
                        assert(v@[i] == before[i]);
                        assert(ring_cell_before(before[i], r as int, dx as int, dy as int));
                    }
                }
                assert forall|ex: i32, ey: i32| cheb(ex as int, ey as int) == r && (ey < dy || (ey == dy && ex < dx + 1)) implies exists|i: int| 0 <= i < v@.len() && #[trigger] v@[i] == (ex, ey) by {
                    if ey == dy && ex == dx {
                        assert(v@[before.len() as int] == (ex, ey));
                    } else {
                        let i = choose|i: int| 0 <= i < before.len() && before[i] == (ex, ey);
                        assert(v@[i] == (ex, ey));
                    }
                }
            } else {
                assert forall|ex: i32, ey: i32| cheb(ex as int, ey as int) == r && (ey < dy || (ey == dy && ex < dx + 1)) implies exists|i: int| 0 <= i < v@.len() && #[trigger] v@[i] == (ex, ey) by {
                    assert(!(ey == dy && ex == dx));
                }
            }
            dx = dx + 1;
        }
        assert forall|i: int| 0 <= i < v@.len() implies ring_cell_before(#[trigger] v@[i], r as int, -r, dy + 1) by {
            assert(ring_cell_before(v@[i], r as int, dx as int, dy as int));
        }
        dy = dy + 1;
    }
    v
}

} // verus!
