//! The substory facility: a walled sanctum some floors hold, where it may
//! stand, how it is built, who guards it, and where the stairs appear once
//! its guardian falls.
use vstd::prelude::*;

use crate::items::{StructureKind, Tile};
use crate::sites::blocks_compound;
use crate::worldgen::{deterministic_hash64, hash_spec};

verus! {

/// Salt of the search for the facility's place.
pub const FACILITY_SITE_SALT: u64 = 0xFE11_2104_5510_9911;
/// Salt of the side the facility's entrance faces.
pub const FACILITY_SIDE_SALT: u64 = 0xC4FA_7710_1119_2A55;
/// The facility spans this many cells from its centre each way.
pub const FACILITY_HALF: i32 = 4;
/// Cells in the facility's square.
pub const FACILITY_CELLS: usize = 81;
/// Radii searched, from 18 in steps of four.
pub const SITE_RADII: usize = 6;
/// Places tried on each radius.
pub const SITE_STEPS: usize = 24;
/// Places tried in all.
pub const SITE_COUNT: usize = 144;
/// A facility never stands closer than this to the floor's origin.
pub const SITE_MIN_CHEB: i32 = 12;

/// The creature kind guarding the facility on floor `floor`.
pub open spec fn guardian_kind_spec(floor: u32) -> Seq<char> {
    if floor >= 7 {
        "cathedral_frame"@
    } else if floor >= 4 {
        "scavenger_knight"@
    } else {
        "grave_frame"@
    }
}

/// The guardian's creature kind.
pub fn guardian_kind(floor: u32) -> (k: &'static str)
    ensures
        k@ == guardian_kind_spec(floor),
{
    if floor >= 7 {
        "cathedral_frame"
    } else if floor >= 4 {
        "scavenger_knight"
    } else {
        "grave_frame"
    }
}

/// The `i`-th radius searched.
pub open spec fn site_radius(i: int) -> int {
    18 + 4 * i
}

/// The roll of the `step`-th place on the radius `radius`.
pub open spec fn site_roll(seed: u64, floor: u32, radius: int, step: int) -> u64 {
    hash_spec(seed, FACILITY_SITE_SALT ^ (radius as u64), floor as i32, step as i32)
}

/// The radius on the side of the origin the roll's bit picks: the negative
/// side when the bit is clear.
pub open spec fn roll_side(roll: u64, bit: u64, radius: int) -> int {
    if (roll >> bit) & 1 == 0 { -radius } else { radius }
}

/// A jitter of `-3..=4` read from three bits of the roll.
pub open spec fn roll_jitter(roll: u64, bit: u64) -> int {
    ((roll >> bit) & 7) as int - 3
}

/// The `k`-th place tried, radius by radius and step by step: on the
/// quadrant the roll's two low bits pick, at the radius, jittered.
pub open spec fn site_pos(seed: u64, floor: u32, k: int) -> (int, int) {
    let radius = site_radius(k / SITE_STEPS as int);
    let roll = site_roll(seed, floor, radius, k % SITE_STEPS as int);
    (roll_side(roll, 0, radius) + roll_jitter(roll, 8), roll_side(roll, 1, radius) + roll_jitter(roll, 12))
}

proof fn lemma_roll_bits(roll: u64)
    ensures
        (roll >> 8u64) & 7 <= 7,
        (roll >> 12u64) & 7 <= 7,
{
    assert((roll >> 8u64) & 7 <= 7) by (bit_vector);
    assert((roll >> 12u64) & 7 <= 7) by (bit_vector);
}

/// The places the facility is tried at, in order. A place nearer than the
/// minimum to the origin would be skipped; none is.
pub fn facility_sites(seed: u64, floor: u32) -> (sites: Vec<(i32, i32)>)
    ensures
        sites@.len() == SITE_COUNT,
        forall|k: int| 0 <= k < SITE_COUNT ==> (#[trigger] sites@[k]).0 == site_pos(seed, floor, k).0 && sites@[k].1
            == site_pos(seed, floor, k).1,
{
    let mut sites: Vec<(i32, i32)> = Vec::new();
    let mut ri: usize = 0;
    while ri < SITE_RADII
        invariant
            ri <= SITE_RADII,
            sites@.len() == ri * SITE_STEPS,
            forall|k: int| 0 <= k < sites@.len() ==> (#[trigger] sites@[k]).0 == site_pos(seed, floor, k).0
                && sites@[k].1 == site_pos(seed, floor, k).1,
        decreases SITE_RADII - ri,
    {
        let radius: i32 = 18 + 4 * (ri as i32);
        let salt = FACILITY_SITE_SALT ^ (radius as u64);
        let mut step: usize = 0;
        while step < SITE_STEPS
            invariant
                ri < SITE_RADII,
                radius == site_radius(ri as int),
                salt == FACILITY_SITE_SALT ^ (radius as u64),
                step <= SITE_STEPS,
                sites@.len() == ri * SITE_STEPS + step,
                forall|k: int| 0 <= k < sites@.len() ==> (#[trigger] sites@[k]).0 == site_pos(seed, floor, k).0
                    && sites@[k].1 == site_pos(seed, floor, k).1,
            decreases SITE_STEPS - step,
        {
            let roll = deterministic_hash64(seed, salt, floor as i32, step as i32);
            proof {
                lemma_roll_bits(roll);
            }
            assert(roll & 1 == (roll >> 0u64) & 1) by (bit_vector);
            let jx: i32 = ((roll >> 8) & 7) as i32 - 3;
            let jy: i32 = ((roll >> 12) & 7) as i32 - 3;
            let x: i32 = if roll & 1 == 0 { jx - radius } else { radius + jx };
            let y: i32 = if (roll >> 1) & 1 == 0 { jy - radius } else { radius + jy };
            let ax = if x < 0 { -x } else { x };
            let ay = if y < 0 { -y } else { y };
            let far = if ax > ay { ax } else { ay };
            let k = sites.len();
            proof {
                let kk = k as int;
                assert(kk == ri * SITE_STEPS + step);
                assert(kk / 24 == ri as int && kk % 24 == step as int) by (nonlinear_arith)
                    requires
                        kk == ri * 24 + step,
                        0 <= step < 24,
                        0 <= ri,
                ;
            }
            if far < SITE_MIN_CHEB {
                // Every radius is at least 18 and a jitter at most four, so
                // no place is this near.
                assert(false);
            } else {
                sites.push((x, y));
            }
            step = step + 1;
        }
        ri = ri + 1;
    }
    sites
}

/// The tile at offset `(dx, dy)` of the facility: a nine-by-nine walled
/// square of sand with a three-cell entrance on side `side` (0 north, 1
/// east, 2 south, 3 west).
pub open spec fn facility_tile_spec(dx: int, dy: int, side: u8) -> Tile {
    let border = dx == 4 || dx == -4 || dy == 4 || dy == -4;
    let near = |v: int| -1 <= v <= 1;
    let entrance = if side == 0 {
        dy == -4 && near(dx)
    } else if side == 1 {
        dx == 4 && near(dy)
    } else if side == 2 {
        dy == 4 && near(dx)
    } else {
        dx == -4 && near(dy)
    };
    if border && !entrance { Tile::Wall } else { Tile::Sand }
}

/// The side of the facility's entrance at `(x, y)`.
pub fn facility_entrance_side(seed: u64, x: i32, y: i32) -> (s: u8)
    ensures
        s == hash_spec(seed, FACILITY_SIDE_SALT, x, y) % 4,
{
    (deterministic_hash64(seed, FACILITY_SIDE_SALT, x, y) % 4) as u8
}

/// The tile at offset `(dx, dy)` of the facility.
pub fn facility_tile(dx: i32, dy: i32, side: u8) -> (t: Tile)
    requires
        -4 <= dx <= 4,
        -4 <= dy <= 4,
    ensures
        t == facility_tile_spec(dx as int, dy as int, side),
{
    let border = dx == 4 || dx == -4 || dy == 4 || dy == -4;
    let entrance = if side == 0 {
        dy == -4 && -1 <= dx && dx <= 1
    } else if side == 1 {
        dx == 4 && -1 <= dy && dy <= 1
    } else if side == 2 {
        dy == 4 && -1 <= dx && dx <= 1
    } else {
        dx == -4 && -1 <= dy && dy <= 1
    };
    if border && !entrance { Tile::Wall } else { Tile::Sand }
}

/// Tiles the facility may not be built over.
pub open spec fn blocks_facility(t: Tile) -> bool {
    t == Tile::Abyss || t == Tile::DeepWater || t == Tile::ShallowWater || t == Tile::StairsDown
}

/// Whether the facility fits on a square whose cells hold `tiles` and are
/// `taken` (by the player, a creature or a torch): no cell is taken or of
/// a tile it may not be built over.
pub fn facility_fits(tiles: &Vec<Tile>, taken: &Vec<bool>) -> (b: bool)
    requires
        tiles@.len() == FACILITY_CELLS,
        taken@.len() == FACILITY_CELLS,
    ensures
        b == forall|k: int| #![trigger taken@[k]] 0 <= k < FACILITY_CELLS ==> !taken@[k] && !blocks_facility(tiles@[k]),
{
    let mut k: usize = 0;
    while k < FACILITY_CELLS
        invariant
            k <= FACILITY_CELLS,
            tiles@.len() == FACILITY_CELLS,
            taken@.len() == FACILITY_CELLS,
            forall|j: int| 0 <= j < k ==> !#[trigger] taken@[j],
            forall|j: int| 0 <= j < k ==> !blocks_facility(#[trigger] tiles@[j]),
        decreases FACILITY_CELLS - k,
    {
        if taken[k] {
            return false;
        }
        if blocks_compound(tiles[k]) {
            return false;
        }
        k = k + 1;
    }
    true
}

/// The facility's structures: terminals at the north-west and south-east,
/// a cable pylon at the north-east, a bone rack at the south-west (two
/// cells out on each axis), and the core at the centre.
pub open spec fn facility_structure_spec(k: int) -> (i32, i32, StructureKind) {
    if k == 0 {
        (-2i32, -2i32, StructureKind::Terminal)
    } else if k == 1 {
        (2i32, -2i32, StructureKind::CablePylon)
    } else if k == 2 {
        (-2i32, 2i32, StructureKind::BoneRack)
    } else if k == 3 {
        (2i32, 2i32, StructureKind::Terminal)
    } else {
        (0i32, 0i32, StructureKind::SubstoryCore)
    }
}

/// Structures the facility holds.
pub const FACILITY_STRUCTURES: usize = 5;

/// The `k`-th structure of the facility and its offset.
pub fn facility_structure(k: usize) -> (s: (i32, i32, StructureKind))
    requires
        k < FACILITY_STRUCTURES,
    ensures
        s == facility_structure_spec(k as int),
{
    match k {
        0 => (-2, -2, StructureKind::Terminal),
        1 => (2, -2, StructureKind::CablePylon),
        2 => (-2, 2, StructureKind::BoneRack),
        3 => (2, 2, StructureKind::Terminal),
        _ => (0, 0, StructureKind::SubstoryCore),
    }
}

/// The `k`-th place the guardian is tried at around the core.
pub open spec fn guardian_offset_spec(k: int) -> (i32, i32) {
    if k == 0 {
        (0i32, -2i32)
    } else if k == 1 {
        (2i32, 0i32)
    } else if k == 2 {
        (0i32, 2i32)
    } else if k == 3 {
        (-2i32, 0i32)
    } else if k == 4 {
        (1i32, -2i32)
    } else if k == 5 {
        (2i32, 1i32)
    } else if k == 6 {
        (-1i32, 2i32)
    } else {
        (-2i32, -1i32)
    }
}

/// Places the guardian is tried at.
pub const GUARDIAN_SPOTS: usize = 8;

/// The `k`-th place the guardian is tried at.
pub fn guardian_offset(k: usize) -> (d: (i32, i32))
    requires
        k < GUARDIAN_SPOTS,
    ensures
        d == guardian_offset_spec(k as int),
{
    match k {
        0 => (0, -2),
        1 => (2, 0),
        2 => (0, 2),
        3 => (-2, 0),
        4 => (1, -2),
        5 => (2, 1),
        6 => (-1, 2),
        _ => (-2, -1),
    }
}

/// Where the guardian stands: the first place that is free (`free[k]` for
/// place `k`), if any.
pub fn guardian_spot(free: &Vec<bool>) -> (r: Option<usize>)
    requires
        free@.len() == GUARDIAN_SPOTS,
    ensures
        match r {
            Some(k) => k < GUARDIAN_SPOTS && free@[k as int] && forall|j: int| 0 <= j < k ==> !#[trigger] free@[j],
            None => forall|j: int| 0 <= j < GUARDIAN_SPOTS ==> !#[trigger] free@[j],
        },
{
    let mut k: usize = 0;
    while k < GUARDIAN_SPOTS
        invariant
            k <= GUARDIAN_SPOTS,
            free@.len() == GUARDIAN_SPOTS,
            forall|j: int| 0 <= j < k ==> !#[trigger] free@[j],
        decreases GUARDIAN_SPOTS - k,
    {
        if free[k] {
            return Some(k);
        }
        k = k + 1;
    }
    None
}

/// Squared distance of an offset.
pub open spec fn dist2(d: (i32, i32)) -> int {
    d.0 * d.0 + d.1 * d.1
}

/// Offset `j` of `cands` can be stood on: open and not the centre.
pub open spec fn spot_ok(cands: Seq<((i32, i32), bool)>, j: int) -> bool {
    cands[j].1 && dist2(cands[j].0) != 0
}

/// The nearest spot around a cell that can be stood on: among the offsets
/// `cands` (each with whether it is open), the first of those at the
/// smallest distance that are open and not the centre.
pub fn nearest_open_spot(cands: &Vec<((i32, i32), bool)>) -> (r: Option<usize>)
    requires
        forall|j: int| 0 <= j < cands@.len() ==> -1024 <= (#[trigger] cands@[j]).0.0 <= 1024 && -1024 <= cands@[j].0.1 <= 1024,
    ensures
        match r {
            Some(i) => {
                &&& i < cands@.len()
                &&& spot_ok(cands@, i as int)
                &&& forall|j: int| 0 <= j < cands@.len() && #[trigger] spot_ok(cands@, j) ==> dist2(cands@[i as int].0)
                    < dist2(cands@[j].0) || (dist2(cands@[i as int].0) == dist2(cands@[j].0) && i <= j)
            },
            None => forall|j: int| 0 <= j < cands@.len() ==> !#[trigger] spot_ok(cands@, j),
        },
{
    let mut best: Option<usize> = None;
    let mut best_d: i32 = 0;
    let mut k: usize = 0;
    while k < cands.len()
        invariant
            k <= cands@.len(),
            forall|j: int| 0 <= j < cands@.len() ==> -1024 <= (#[trigger] cands@[j]).0.0 <= 1024 && -1024 <= cands@[j].0.1 <= 1024,
            match best {
                Some(i) => {
                    &&& i < k
                    &&& spot_ok(cands@, i as int)
                    &&& best_d == dist2(cands@[i as int].0)
                    &&& forall|j: int| 0 <= j < k && #[trigger] spot_ok(cands@, j) ==> best_d < dist2(cands@[j].0) || (best_d
                        == dist2(cands@[j].0) && i <= j)
                },
                None => forall|j: int| 0 <= j < k ==> !#[trigger] spot_ok(cands@, j),
            },
        decreases cands@.len() - k,
    {
        let (d, open) = cands[k];
        let (dx, dy) = d;
        assert(0 <= dx * dx <= 1024 * 1024 && 0 <= dy * dy <= 1024 * 1024) by (nonlinear_arith)
            requires
                -1024 <= dx <= 1024,
                -1024 <= dy <= 1024,
        ;
        let dd = dx * dx + dy * dy;
        if open && dd != 0 {
            let better = match best {
                None => true,
                Some(_) => dd < best_d,
            };
            if better {
                best = Some(k);
                best_d = dd;
            }
        }
        k = k + 1;
    }
    best
}


/// Which way a tablet points along one axis toward the facility: not at
/// all within two cells, else toward the larger (1) or smaller (2) side.
pub open spec fn pointing(d: int) -> int {
    if -2 <= d <= 2 { 0 } else if d > 0 { 1 } else { 2 }
}

/// The inscription a tablet at `(fx, fy)` shows on a floor with a facility
/// at `(cx, cy)`: a mark for the sanctum, with an arrow east or west, north
/// or south, or both, toward it.
pub open spec fn inscription_spec(cx: int, cy: int, fx: int, fy: int) -> Seq<char> {
    let h = pointing(cx - fx);
    let v = pointing(cy - fy);
    if h == 0 && v == 0 {
        "◎"@
    } else if h == 0 {
        if v == 1 { "▼\n│\n◎"@ } else { "▲\n│\n◎"@ }
    } else if v == 0 {
        if h == 1 { "◎─▶"@ } else { "◎─◀"@ }
    } else if v == 1 {
        if h == 1 { "▼\n╲\n◎─▶"@ } else { "▼\n╲\n◎─◀"@ }
    } else {
        if h == 1 { "▲\n╲\n◎─▶"@ } else { "▲\n╲\n◎─◀"@ }
    }
}

fn pointing_exec(to: i32, from: i32) -> (p: u8)
    ensures
        p == pointing(to - from),
{
    let d = to as i64 - from as i64;
    if -2 <= d && d <= 2 {
        0
    } else if d > 0 {
        1
    } else {
        2
    }
}

/// The inscription of a tablet at `(fx, fy)` pointing to the facility at
/// `(cx, cy)` (see `inscription_spec`).
pub fn direction_inscription(cx: i32, cy: i32, fx: i32, fy: i32) -> (s: &'static str)
    ensures
        s@ == inscription_spec(cx as int, cy as int, fx as int, fy as int),
{
    let h = pointing_exec(cx, fx);
    let v = pointing_exec(cy, fy);
    if h == 0 && v == 0 {
        "◎"
    } else if h == 0 {
        if v == 1 { "▼\n│\n◎" } else { "▲\n│\n◎" }
    } else if v == 0 {
        if h == 1 { "◎─▶" } else { "◎─◀" }
    } else if v == 1 {
        if h == 1 { "▼\n╲\n◎─▶" } else { "▼\n╲\n◎─◀" }
    } else {
        if h == 1 { "▲\n╲\n◎─▶" } else { "▲\n╲\n◎─◀" }
    }
}

} // verus!
