//! Where stone tablets and structures appear: which chunks get one, which
//! cell of the chunk, and the walled compounds that altars and temples
//! stand in. Chunk cells are numbered row by row from the chunk's top-left.
use vstd::prelude::*;

use crate::items::{Item, StructureKind, Tile};
use crate::spawning::StoneTabletKind;
use crate::worldgen::{
    chunk_coord, chunk_coord_ok, chunk_coord_spec, deterministic_hash64, hash_spec, noise_bits,
    noise_bits_spec,
};

verus! {

/// Salt of the tablet noise: which chunks hold a tablet and of what kind.
pub const NOISE_SALT_TABLET_PLACE: u64 = 0x7A8B_11E7_CAFE_0001;

/// Salt of the structure noise.
pub const NOISE_SALT_STRUCTURE_PLACE: u64 = 0x22C1_7001_5EED_9002;

/// Salt that scores the cells of a tablet chunk.
pub const TABLET_CELL_SALT: u64 = 0x7A8B_11E7_CAFE_0001 ^ 0x55AA_9C3D_2E10_7711;

/// Salt that decides which chunks hold a structure.
pub const STRUCTURE_CHUNK_SALT: u64 = 0x22C1_7001_5EED_9002 ^ 0xA55A_4D20_3311_8877;

/// Salt that scores the cells of a structure chunk.
pub const STRUCTURE_CELL_SALT: u64 = 0x22C1_7001_5EED_9002 ^ 0x19C4_DD77_9812_4001;

/// Salt of an altar compound's entrance.
pub const ALTAR_ENTRANCE_SALT: u64 = 0x91AF_2201_7711_55CC;

/// Salt of a temple compound's entrance.
pub const TEMPLE_ENTRANCE_SALT: u64 = 0xD1AF_2201_7711_55CC;

/// A chunk holds a tablet where its noise is at least 0.84: a numerator of
/// at least this value.
pub const TABLET_CHUNK_MIN_BITS: u64 = 7566047373982433;

// ---------------------------------------------------------------------------
// Cells of a chunk
// ---------------------------------------------------------------------------

/// World position of cell `k` of chunk `(cx, cy)`.
pub open spec fn cell_pos(cx: i32, cy: i32, k: int) -> (i32, i32) {
    ((cx * 16 + k % 16) as i32, (cy * 16 + k / 16) as i32)
}

/// World position of cell `k` of chunk `(cx, cy)`.
pub fn cell_position(cx: i32, cy: i32, k: usize) -> (p: (i32, i32))
    requires
        chunk_coord_ok(cx, cy),
        k < 256,
    ensures
        p == cell_pos(cx, cy, k as int),
{
    ((cx * 16 + (k % 16) as i32), (cy * 16 + (k / 16) as i32))
}

// ---------------------------------------------------------------------------
// Stone tablets
// ---------------------------------------------------------------------------

/// Whether chunk `(cx, cy)` holds a stone tablet.
pub open spec fn tablet_chunk_spec(seed: u64, cx: i32, cy: i32) -> bool {
    noise_bits_spec(seed, NOISE_SALT_TABLET_PLACE, cx, cy) >= TABLET_CHUNK_MIN_BITS
}

/// Whether chunk `(cx, cy)` holds a stone tablet.
pub fn tablet_chunk_spawns(seed: u64, cx: i32, cy: i32) -> (b: bool)
    ensures
        b == tablet_chunk_spec(seed, cx, cy),
{
    noise_bits(seed, NOISE_SALT_TABLET_PLACE, cx, cy) >= TABLET_CHUNK_MIN_BITS
}

/// The tablet kinds of a floor band, by bucket: deep floors (five and
/// below) favour the oracles, middle floors (three and four) the mercies
/// first, shallow floors repeat mercy and might.
pub open spec fn tablet_table(floor: u32, bucket: int) -> StoneTabletKind {
    if floor >= 5 {
        if bucket == 0 { StoneTabletKind::Oracle }
        else if bucket == 1 { StoneTabletKind::OracleTwins }
        else if bucket == 2 { StoneTabletKind::OracleFifth }
        else if bucket == 3 { StoneTabletKind::OracleLast }
        else if bucket == 4 { StoneTabletKind::OracleSumer }
        else if bucket == 5 { StoneTabletKind::Might }
        else if bucket == 6 { StoneTabletKind::MightWarning }
        else if bucket == 7 { StoneTabletKind::MightSumer }
        else if bucket == 8 { StoneTabletKind::Mercy }
        else if bucket == 9 { StoneTabletKind::MercyLitany }
        else if bucket == 10 { StoneTabletKind::MercySumer }
        else if bucket == 11 { StoneTabletKind::MightName }
        else { StoneTabletKind::MercyName }
    } else if floor >= 3 {
        if bucket == 0 { StoneTabletKind::Mercy }
        else if bucket == 1 { StoneTabletKind::MercyLitany }
        else if bucket == 2 { StoneTabletKind::MercySumer }
        else if bucket == 3 { StoneTabletKind::Might }
        else if bucket == 4 { StoneTabletKind::MightWarning }
        else if bucket == 5 { StoneTabletKind::MightSumer }
        else if bucket == 6 { StoneTabletKind::Oracle }
        else if bucket == 7 { StoneTabletKind::OracleTwins }
        else if bucket == 8 { StoneTabletKind::OracleFifth }
        else if bucket == 9 { StoneTabletKind::OracleSumer }
        else if bucket == 10 { StoneTabletKind::MercyName }
        else if bucket == 11 { StoneTabletKind::MightName }
        else { StoneTabletKind::OracleLast }
    } else {
        if bucket <= 1 { StoneTabletKind::Mercy }
        else if bucket == 2 { StoneTabletKind::MercyLitany }
        else if bucket == 3 { StoneTabletKind::MercySumer }
        else if bucket == 4 { StoneTabletKind::MercyName }
        else if bucket <= 6 { StoneTabletKind::Might }
        else if bucket == 7 { StoneTabletKind::MightWarning }
        else if bucket == 8 { StoneTabletKind::MightSumer }
        else if bucket == 9 { StoneTabletKind::MightName }
        else if bucket == 10 { StoneTabletKind::Oracle }
        else if bucket == 11 { StoneTabletKind::OracleTwins }
        else { StoneTabletKind::OracleSumer }
    }
}

/// The kind of the tablet of chunk `(cx, cy)` on floor `floor`: the chunk's
/// hash modulo 13 picks from the floor band's table.
pub fn choose_tablet_kind(seed: u64, floor: u32, cx: i32, cy: i32) -> (k: StoneTabletKind)
    ensures
        k == tablet_table(floor, (hash_spec(seed, NOISE_SALT_TABLET_PLACE, cx, cy) % 13) as int),
{
    let bucket = deterministic_hash64(seed, NOISE_SALT_TABLET_PLACE, cx, cy) % 13;
    if floor >= 5 {
        if bucket == 0 { StoneTabletKind::Oracle }
        else if bucket == 1 { StoneTabletKind::OracleTwins }
        else if bucket == 2 { StoneTabletKind::OracleFifth }
        else if bucket == 3 { StoneTabletKind::OracleLast }
        else if bucket == 4 { StoneTabletKind::OracleSumer }
        else if bucket == 5 { StoneTabletKind::Might }
        else if bucket == 6 { StoneTabletKind::MightWarning }
        else if bucket == 7 { StoneTabletKind::MightSumer }
        else if bucket == 8 { StoneTabletKind::Mercy }
        else if bucket == 9 { StoneTabletKind::MercyLitany }
        else if bucket == 10 { StoneTabletKind::MercySumer }
        else if bucket == 11 { StoneTabletKind::MightName }
        else { StoneTabletKind::MercyName }
    } else if floor >= 3 {
        if bucket == 0 { StoneTabletKind::Mercy }
        else if bucket == 1 { StoneTabletKind::MercyLitany }
        else if bucket == 2 { StoneTabletKind::MercySumer }
        else if bucket == 3 { StoneTabletKind::Might }
        else if bucket == 4 { StoneTabletKind::MightWarning }
        else if bucket == 5 { StoneTabletKind::MightSumer }
        else if bucket == 6 { StoneTabletKind::Oracle }
        else if bucket == 7 { StoneTabletKind::OracleTwins }
        else if bucket == 8 { StoneTabletKind::OracleFifth }
        else if bucket == 9 { StoneTabletKind::OracleSumer }
        else if bucket == 10 { StoneTabletKind::MercyName }
        else if bucket == 11 { StoneTabletKind::MightName }
        else { StoneTabletKind::OracleLast }
    } else {
        if bucket <= 1 { StoneTabletKind::Mercy }
        else if bucket == 2 { StoneTabletKind::MercyLitany }
        else if bucket == 3 { StoneTabletKind::MercySumer }
        else if bucket == 4 { StoneTabletKind::MercyName }
        else if bucket <= 6 { StoneTabletKind::Might }
        else if bucket == 7 { StoneTabletKind::MightWarning }
        else if bucket == 8 { StoneTabletKind::MightSumer }
        else if bucket == 9 { StoneTabletKind::MightName }
        else if bucket == 10 { StoneTabletKind::Oracle }
        else if bucket == 11 { StoneTabletKind::OracleTwins }
        else { StoneTabletKind::OracleSumer }
    }
}

/// The score of cell `k` of chunk `(cx, cy)` under salt `salt`.
pub open spec fn cell_score(seed: u64, salt: u64, cx: i32, cy: i32, k: int) -> u64 {
    noise_bits_spec(seed, salt, cell_pos(cx, cy, k).0, cell_pos(cx, cy, k).1)
}

/// Cell `k` is the tablet's cell among the `eligible` ones: it has the
/// highest score, and the first such cell in row order wins a tie.
pub open spec fn best_cell_spec(seed: u64, cx: i32, cy: i32, eligible: Seq<bool>, k: int) -> bool {
    &&& 0 <= k < 256
    &&& eligible[k]
    &&& forall|j: int| 0 <= j < 256 && #[trigger] eligible[j] ==> cell_score(seed, TABLET_CELL_SALT, cx, cy, j)
        <= cell_score(seed, TABLET_CELL_SALT, cx, cy, k)
    &&& forall|j: int| 0 <= j < k && #[trigger] eligible[j] ==> cell_score(seed, TABLET_CELL_SALT, cx, cy, j)
        < cell_score(seed, TABLET_CELL_SALT, cx, cy, k)
}

/// The cell of chunk `(cx, cy)` that receives its tablet, among the cells
/// marked `eligible` (walkable, free, not the player's); `None` when no
/// cell is eligible.
pub fn best_tablet_cell(seed: u64, cx: i32, cy: i32, eligible: &Vec<bool>) -> (r: Option<usize>)
    requires
        chunk_coord_ok(cx, cy),
        eligible@.len() == 256,
    ensures
        match r {
            Some(k) => best_cell_spec(seed, cx, cy, eligible@, k as int),
            None => forall|j: int| 0 <= j < 256 ==> !#[trigger] eligible@[j],
        },
{
    let mut best: Option<usize> = None;
    let mut best_score: u64 = 0;
    let mut k: usize = 0;
    while k < 256
        invariant
            k <= 256,
            chunk_coord_ok(cx, cy),
            eligible@.len() == 256,
            match best {
                Some(b) => {
                    &&& b < k
                    &&& eligible@[b as int]
                    &&& best_score == cell_score(seed, TABLET_CELL_SALT, cx, cy, b as int)
                    &&& forall|j: int| 0 <= j < k && #[trigger] eligible@[j] ==> cell_score(seed, TABLET_CELL_SALT, cx, cy, j)
                        <= best_score
                    &&& forall|j: int| 0 <= j < b && #[trigger] eligible@[j] ==> cell_score(seed, TABLET_CELL_SALT, cx, cy, j)
                        < best_score
                },
                None => forall|j: int| 0 <= j < k ==> !#[trigger] eligible@[j],
            },
        decreases 256 - k,
    {
        if eligible[k] {
            let (x, y) = cell_position(cx, cy, k);
            let s = noise_bits(seed, TABLET_CELL_SALT, x, y);
            let better = match best {
                None => true,
                Some(_) => s > best_score,
            };
            if better {
                best = Some(k);
                best_score = s;
            }
        }
        k = k + 1;
    }
    best
}

// ---------------------------------------------------------------------------
// Structures
// ---------------------------------------------------------------------------

/// The noise a chunk needs to hold a structure on floor `floor`, as a
/// numerator over 2^53: 0.95 on floors 1-2, then 0.92, 0.90, 0.87, 0.84 by
/// pairs of floors, 0.78 on floors 11-20 and 0.68 elsewhere.
pub open spec fn structure_threshold_spec(floor: u32) -> u64 {
    if 1 <= floor <= 2 {
        8556839292003942
    } else if 3 <= floor <= 4 {
        8286623314361713
    } else if 5 <= floor <= 6 {
        8106479329266893
    } else if 7 <= floor <= 8 {
        7836263351624663
    } else if 9 <= floor <= 10 {
        7566047373982433
    } else if 11 <= floor <= 20 {
        7025615418697974
    } else {
        6124895493223875
    }
}

/// Whether chunk `(cx, cy)` of floor `floor` holds a structure.
pub open spec fn structure_chunk_spec(seed: u64, floor: u32, cx: i32, cy: i32) -> bool {
    noise_bits_spec(seed, STRUCTURE_CHUNK_SALT, cx, cy) >= structure_threshold_spec(floor)
}

/// Whether chunk `(cx, cy)` of floor `floor` holds a structure.
pub fn structure_chunk_spawns(seed: u64, floor: u32, cx: i32, cy: i32) -> (b: bool)
    ensures
        b == structure_chunk_spec(seed, floor, cx, cy),
{
    let threshold: u64 = if 1 <= floor && floor <= 2 {
        8556839292003942
    } else if 3 <= floor && floor <= 4 {
        8286623314361713
    } else if 5 <= floor && floor <= 6 {
        8106479329266893
    } else if 7 <= floor && floor <= 8 {
        7836263351624663
    } else if 9 <= floor && floor <= 10 {
        7566047373982433
    } else if 11 <= floor && floor <= 20 {
        7025615418697974
    } else {
        6124895493223875
    };
    noise_bits(seed, STRUCTURE_CHUNK_SALT, cx, cy) >= threshold
}

/// Cell `a` is tried before cell `b`: a higher score first, and on equal
/// scores the earlier cell in row order.
pub open spec fn tried_before(seed: u64, cx: i32, cy: i32, a: int, b: int) -> bool {
    let sa = cell_score(seed, STRUCTURE_CELL_SALT, cx, cy, a);
    let sb = cell_score(seed, STRUCTURE_CELL_SALT, cx, cy, b);
    sa > sb || (sa == sb && a < b)
}

/// The eligible cells of a structure chunk in the order they are tried.
pub open spec fn candidate_order_spec(seed: u64, cx: i32, cy: i32, eligible: Seq<bool>, r: Seq<usize>) -> bool {
    &&& forall|i: int| 0 <= i < r.len() ==> #[trigger] r[i] < 256 && eligible[r[i] as int]
    &&& forall|k: int| 0 <= k < 256 && #[trigger] eligible[k] ==> exists|i: int| 0 <= i < r.len() && r[i] == k
    &&& forall|i: int, j: int| 0 <= i < j < r.len() ==> tried_before(seed, cx, cy, #[trigger] r[i] as int, #[trigger] r[j] as int)
}

/// The cells of chunk `(cx, cy)` marked `eligible`, best score first, ties
/// in row order: the order in which a structure chunk tries its cells.
pub fn structure_candidates(seed: u64, cx: i32, cy: i32, eligible: &Vec<bool>) -> (r: Vec<usize>)
    requires
        chunk_coord_ok(cx, cy),
        eligible@.len() == 256,
    ensures
        candidate_order_spec(seed, cx, cy, eligible@, r@),
{
    let mut out: Vec<usize> = Vec::new();
    let mut scores: Vec<u64> = Vec::new();
    let mut k: usize = 0;
    while k < 256
        invariant
            k <= 256,
            chunk_coord_ok(cx, cy),
            eligible@.len() == 256,
            scores@.len() == out@.len(),
            forall|i: int| 0 <= i < out@.len() ==> #[trigger] out@[i] < k && eligible@[out@[i] as int]
                && scores@[i] == cell_score(seed, STRUCTURE_CELL_SALT, cx, cy, out@[i] as int),
            forall|m: int| 0 <= m < k && #[trigger] eligible@[m] ==> exists|i: int| 0 <= i < out@.len() && out@[i] == m,
            forall|i: int, j: int| 0 <= i < j < out@.len() ==> tried_before(seed, cx, cy, #[trigger] out@[i] as int, #[trigger] out@[j] as int),
        decreases 256 - k,
    {
        if eligible[k] {
            let (x, y) = cell_position(cx, cy, k);
            let s = noise_bits(seed, STRUCTURE_CELL_SALT, x, y);
            let mut p: usize = 0;
            while p < out.len() && scores[p] >= s
                invariant
                    p <= out@.len(),
                    scores@.len() == out@.len(),
                    forall|i: int| 0 <= i < p ==> #[trigger] scores@[i] >= s,
                decreases out.len() - p,
            {
                p = p + 1;
            }
            let ghost old_out = out@;
            let ghost old_scores = scores@;
            assert(forall|i: int| p <= i < old_out.len() ==> old_scores[i] < s) by {
                assert forall|i: int| p <= i < old_out.len() implies old_scores[i] < s by {
                    if p < old_out.len() {
                        assert(old_scores[p as int] < s);
                        if i > p {
                            assert(tried_before(seed, cx, cy, old_out[p as int] as int, old_out[i] as int));
                        }
                    }
                }
            }
            out.insert(p, k);
            scores.insert(p, s);
            assert forall|m: int| 0 <= m < k + 1 && #[trigger] eligible@[m] implies exists|i: int|
                0 <= i < out@.len() && out@[i] == m by {
                if m == k {
                    assert(out@[p as int] == k);
                } else {
                    let i = choose|i: int| 0 <= i < old_out.len() && old_out[i] == m;
                    if i < p {
                        assert(out@[i] == m);
                    } else {
                        assert(out@[i + 1] == m);
                    }
                }
            }
        }
        k = k + 1;
    }
    out
}

// ---------------------------------------------------------------------------
// Compounds
// ---------------------------------------------------------------------------

/// The side of a compound's entrance: 0 north, 1 east, 2 south, 3 west.
pub fn compound_entrance_side(seed: u64, salt: u64, x: i32, y: i32) -> (s: u8)
    ensures
        s == hash_spec(seed, salt, x, y) % 4,
{
    (deterministic_hash64(seed, salt, x, y) % 4) as u8
}

/// The tile at offset `(dx, dy)` of an altar compound (a five-by-five walled
/// square of sand) whose entrance is on side `side`.
pub open spec fn altar_tile_spec(dx: int, dy: int, side: u8) -> Tile {
    let border = dx == 2 || dx == -2 || dy == 2 || dy == -2;
    let entrance = if side == 0 {
        dx == 0 && dy == -2
    } else if side == 1 {
        dx == 2 && dy == 0
    } else if side == 2 {
        dx == 0 && dy == 2
    } else {
        dx == -2 && dy == 0
    };
    if border && !entrance { Tile::Wall } else { Tile::Sand }
}

/// The tile at offset `(dx, dy)` of an altar compound.
pub fn altar_compound_tile(dx: i32, dy: i32, side: u8) -> (t: Tile)
    requires
        -2 <= dx <= 2,
        -2 <= dy <= 2,
    ensures
        t == altar_tile_spec(dx as int, dy as int, side),
{
    let border = dx == 2 || dx == -2 || dy == 2 || dy == -2;
    let entrance = if side == 0 {
        dx == 0 && dy == -2
    } else if side == 1 {
        dx == 2 && dy == 0
    } else if side == 2 {
        dx == 0 && dy == 2
    } else {
        dx == -2 && dy == 0
    };
    if border && !entrance { Tile::Wall } else { Tile::Sand }
}

/// The tile at offset `(dx, dy)` of a temple compound: a seven-by-seven
/// walled square of sand with a three-cell entrance on side `side` and four
/// pillars on the diagonals next to the core.
pub open spec fn temple_tile_spec(dx: int, dy: int, side: u8) -> Tile {
    let border = dx == 3 || dx == -3 || dy == 3 || dy == -3;
    let near = |v: int| -1 <= v <= 1;
    let entrance = if side == 0 {
        dy == -3 && near(dx)
    } else if side == 1 {
        dx == 3 && near(dy)
    } else if side == 2 {
        dy == 3 && near(dx)
    } else {
        dx == -3 && near(dy)
    };
    let pillar = (dx == 1 || dx == -1) && (dy == 1 || dy == -1);
    if (border && !entrance) || pillar { Tile::Wall } else { Tile::Sand }
}

/// The tile at offset `(dx, dy)` of a temple compound.
pub fn temple_compound_tile(dx: i32, dy: i32, side: u8) -> (t: Tile)
    requires
        -3 <= dx <= 3,
        -3 <= dy <= 3,
    ensures
        t == temple_tile_spec(dx as int, dy as int, side),
{
    let border = dx == 3 || dx == -3 || dy == 3 || dy == -3;
    let entrance = if side == 0 {
        dy == -3 && -1 <= dx && dx <= 1
    } else if side == 1 {
        dx == 3 && -1 <= dy && dy <= 1
    } else if side == 2 {
        dy == 3 && -1 <= dx && dx <= 1
    } else {
        dx == -3 && -1 <= dy && dy <= 1
    };
    let pillar = (dx == 1 || dx == -1) && (dy == 1 || dy == -1);
    if (border && !entrance) || pillar { Tile::Wall } else { Tile::Sand }
}

/// Tiles a compound may not be built over.
pub fn blocks_compound(tile: Tile) -> (b: bool)
    ensures
        b == (tile == Tile::Abyss || tile == Tile::DeepWater || tile == Tile::ShallowWater || tile == Tile::StairsDown),
{
    match tile {
        Tile::Abyss | Tile::DeepWater | Tile::ShallowWater | Tile::StairsDown => true,
        _ => false,
    }
}

/// Whether the square of half-width `r` around `(x, y)` lies inside chunk
/// `(cx, cy)`: every column and every row of it does.
pub fn compound_fits_chunk(cx: i32, cy: i32, x: i32, y: i32, r: i32) -> (b: bool)
    requires
        0 <= r <= 3,
        -32765 <= x <= 32765,
        -32765 <= y <= 32765,
    ensures
        b == ((forall|dx: int| -r <= dx <= r ==> #[trigger] chunk_coord_spec((x + dx) as i32) == cx)
            && (forall|dy: int| -r <= dy <= r ==> #[trigger] chunk_coord_spec((y + dy) as i32) == cy)),
{
    let fits = chunk_coord(x - r) == cx && chunk_coord(x + r) == cx && chunk_coord(y - r) == cy
        && chunk_coord(y + r) == cy;
    proof {
        if fits {
            assert forall|dx: int| -r <= dx <= r implies #[trigger] chunk_coord_spec((x + dx) as i32) == cx by {
                lemma_chunk_coord_monotone((x - r) as i32, (x + dx) as i32);
                lemma_chunk_coord_monotone((x + dx) as i32, (x + r) as i32);
            }
            assert forall|dy: int| -r <= dy <= r implies #[trigger] chunk_coord_spec((y + dy) as i32) == cy by {
                lemma_chunk_coord_monotone((y - r) as i32, (y + dy) as i32);
                lemma_chunk_coord_monotone((y + dy) as i32, (y + r) as i32);
            }
        } else {
            assert(chunk_coord_spec((x + (-r)) as i32) != cx || chunk_coord_spec((x + r) as i32) != cx
                || chunk_coord_spec((y + (-r)) as i32) != cy || chunk_coord_spec((y + r) as i32) != cy);
        }
    }
    fits
}

proof fn lemma_chunk_coord_monotone(a: i32, b: i32)
    requires
        a <= b,
    ensures
        chunk_coord_spec(a) <= chunk_coord_spec(b),
{
}

// ---------------------------------------------------------------------------
// Structure messages and ancient sites
// ---------------------------------------------------------------------------

/// Salt of the message a structure of kind `kind` shows.
pub open spec fn message_salt(kind: StructureKind) -> u64 {
    match kind {
        StructureKind::Altar => 0x4A11_7E2D_9901_1A31,
        StructureKind::TempleCore => 0x77C4_10B2_5519_0EAF,
        StructureKind::SubstoryCore => 0xD321_A991_4410_0CE1,
        StructureKind::Terminal => 0x2C50_EE11_7741_01A7,
        StructureKind::VendingMachine => 0x6A22_6D91_17F1_0034,
        StructureKind::BoneRack => 0x34AB_1209_1D77_4C12,
        StructureKind::CablePylon => 0xA891_4EE0_7721_6301,
    }
}

/// The message key of variant `v` of an altar's or temple's four texts.
pub open spec fn shrine_variant(kind: StructureKind, v: int) -> Seq<char> {
    if kind == StructureKind::Altar {
        if v == 0 {
            "structure.message.altar"@
        } else if v == 1 {
            "structure.message.altar_2"@
        } else if v == 2 {
            "structure.message.altar_3"@
        } else {
            "structure.message.altar_4"@
        }
    } else {
        if v == 0 {
            "structure.message.temple_core"@
        } else if v == 1 {
            "structure.message.temple_core_2"@
        } else if v == 2 {
            "structure.message.temple_core_3"@
        } else {
            "structure.message.temple_core_4"@
        }
    }
}

/// The message a structure of kind `kind` at `(x, y)` shows: altars and
/// temples pick one of four texts by the position's hash, the others have
/// one text.
pub open spec fn structure_message_spec(seed: u64, x: i32, y: i32, kind: StructureKind) -> Seq<char> {
    if kind == StructureKind::Altar || kind == StructureKind::TempleCore {
        shrine_variant(kind, (hash_spec(seed, message_salt(kind), x, y) % 4) as int)
    } else {
        kind.popup_key_spec()
    }
}

/// The key of the message shown when inspecting the structure at `(x, y)`.
pub fn structure_message_key(seed: u64, x: i32, y: i32, kind: StructureKind) -> (k: &'static str)
    ensures
        k@ == structure_message_spec(seed, x, y, kind),
{
    let salt: u64 = match kind {
        StructureKind::Altar => 0x4A11_7E2D_9901_1A31,
        StructureKind::TempleCore => 0x77C4_10B2_5519_0EAF,
        StructureKind::SubstoryCore => 0xD321_A991_4410_0CE1,
        StructureKind::Terminal => 0x2C50_EE11_7741_01A7,
        StructureKind::VendingMachine => 0x6A22_6D91_17F1_0034,
        StructureKind::BoneRack => 0x34AB_1209_1D77_4C12,
        StructureKind::CablePylon => 0xA891_4EE0_7721_6301,
    };
    match kind {
        StructureKind::Altar => {
            let v = deterministic_hash64(seed, salt, x, y) % 4;
            proof {
                reveal_strlit("structure.message.altar");
                reveal_strlit("structure.message.altar_2");
                reveal_strlit("structure.message.altar_3");
                reveal_strlit("structure.message.altar_4");
            }
            if v == 0 {
                "structure.message.altar"
            } else if v == 1 {
                "structure.message.altar_2"
            } else if v == 2 {
                "structure.message.altar_3"
            } else {
                "structure.message.altar_4"
            }
        },
        StructureKind::TempleCore => {
            let v = deterministic_hash64(seed, salt, x, y) % 4;
            proof {
                reveal_strlit("structure.message.temple_core");
                reveal_strlit("structure.message.temple_core_2");
                reveal_strlit("structure.message.temple_core_3");
                reveal_strlit("structure.message.temple_core_4");
            }
            if v == 0 {
                "structure.message.temple_core"
            } else if v == 1 {
                "structure.message.temple_core_2"
            } else if v == 2 {
                "structure.message.temple_core_3"
            } else {
                "structure.message.temple_core_4"
            }
        },
        _ => kind.popup_key(),
    }
}

/// Salt of an ancient site's reward.
pub const ANCIENT_REWARD_SALT: u64 = 0xAE11_CE77_4402_1001;

/// The weapon an awakened site at `(x, y)` yields on floor `floor`: altars
/// give the eastern rod on floors up to four, then mix in the iron of the
/// fallen (from 65 on the site's roll of a hundred) and, below six, the
/// southern rod (from 55); temples give the southern rod or the iron up to
/// floor eight (from 55), then the nadir blade (below 40), the zenith rod
/// (below 75) or the southern rod.
pub open spec fn ancient_reward_spec(seed: u64, floor: u32, kind: StructureKind, x: i32, y: i32) -> Item {
    let roll = hash_spec(seed, ANCIENT_REWARD_SALT, x, y) % 100;
    if kind == StructureKind::Altar {
        if floor <= 4 {
            Item::VirgaOriens
        } else if floor <= 6 {
            if roll < 65 { Item::VirgaOriens } else { Item::FerrumOccasus }
        } else if roll < 55 {
            Item::FerrumOccasus
        } else {
            Item::VirgaMeridies
        }
    } else if kind == StructureKind::TempleCore {
        if floor <= 8 {
            if roll < 55 { Item::VirgaMeridies } else { Item::FerrumOccasus }
        } else if roll < 40 {
            Item::GladiusNadir
        } else if roll < 75 {
            Item::VirgaZenith
        } else {
            Item::VirgaMeridies
        }
    } else {
        Item::RepulseScroll
    }
}

/// The weapon an awakened site yields.
pub fn choose_ancient_reward(seed: u64, floor: u32, kind: StructureKind, x: i32, y: i32) -> (item: Item)
    ensures
        item == ancient_reward_spec(seed, floor, kind, x, y),
{
    let roll = deterministic_hash64(seed, ANCIENT_REWARD_SALT, x, y) % 100;
    match kind {
        StructureKind::Altar => {
            if floor <= 4 {
                Item::VirgaOriens
            } else if floor <= 6 {
                if roll < 65 { Item::VirgaOriens } else { Item::FerrumOccasus }
            } else if roll < 55 {
                Item::FerrumOccasus
            } else {
                Item::VirgaMeridies
            }
        },
        StructureKind::TempleCore => {
            if floor <= 8 {
                if roll < 55 { Item::VirgaMeridies } else { Item::FerrumOccasus }
            } else if roll < 40 {
                Item::GladiusNadir
            } else if roll < 75 {
                Item::VirgaZenith
            } else {
                Item::VirgaMeridies
            }
        },
        _ => Item::RepulseScroll,
    }
}

/// Ancient charge an awakening costs: four for a temple, two for an altar,
/// none for structures that cannot be awakened.
pub open spec fn activation_cost(kind: StructureKind) -> u8 {
    if kind == StructureKind::TempleCore {
        4
    } else if kind == StructureKind::Altar {
        2
    } else {
        0
    }
}

/// What touching a site with ancient charge does.
#[derive(Clone, Copy, Debug, PartialEq, Eq, Structural)]
pub enum Awakening {
    /// The structure is no ancient site.
    NotAncient,
    /// The site was awakened before.
    Spent,
    /// The charge does not cover the site's cost.
    Insufficient,
    /// The charge was paid and the site yields `reward`; the world places it
    /// near the site and remembers the site as awakened.
    Unsealed(Item),
}

/// Touching the site of kind `kind` at `(x, y)`, awakened before or not,
/// with `charge` ancient charge: pays the site's cost when it is an
/// unspent ancient site the charge covers.
pub fn try_awaken_ancient_site(
    charge: &mut u8,
    already_awakened: bool,
    seed: u64,
    floor: u32,
    kind: StructureKind,
    x: i32,
    y: i32,
) -> (r: Awakening)
    ensures
        ({
            let cost = activation_cost(kind);
            if cost == 0 {
                r == Awakening::NotAncient && *final(charge) == *old(charge)
            } else if already_awakened {
                r == Awakening::Spent && *final(charge) == *old(charge)
            } else if *old(charge) < cost {
                r == Awakening::Insufficient && *final(charge) == *old(charge)
            } else {
                r == Awakening::Unsealed(ancient_reward_spec(seed, floor, kind, x, y))
                    && *final(charge) == *old(charge) - cost
            }
        }),
{
    let cost = kind.ancient_activation_cost();
    if cost == 0 {
        return Awakening::NotAncient;
    }
    if already_awakened {
        return Awakening::Spent;
    }
    if *charge < cost {
        return Awakening::Insufficient;
    }
    *charge = *charge - cost;
    Awakening::Unsealed(choose_ancient_reward(seed, floor, kind, x, y))
}

// ---------------------------------------------------------------------------
// Dropping items
// ---------------------------------------------------------------------------

/// The `k`-th place tried when an item is laid down near a cell: the cell
/// itself, then east, west, south, north, and the four diagonals.
pub open spec fn drop_offset_spec(k: int) -> (i32, i32) {
    if k == 0 {
        (0, 0)
    } else if k == 1 {
        (1, 0)
    } else if k == 2 {
        (-1i32, 0i32)
    } else if k == 3 {
        (0, 1)
    } else if k == 4 {
        (0i32, -1i32)
    } else if k == 5 {
        (1, 1)
    } else if k == 6 {
        (1i32, -1i32)
    } else if k == 7 {
        (-1i32, 1i32)
    } else {
        (-1i32, -1i32)
    }
}

/// Number of places tried when laying an item down.
pub const DROP_OFFSET_COUNT: usize = 9;

/// The `k`-th place tried when an item is laid down near a cell.
pub fn drop_offset(k: usize) -> (d: (i32, i32))
    requires
        k < DROP_OFFSET_COUNT,
    ensures
        d == drop_offset_spec(k as int),
{
    match k {
        0 => (0, 0),
        1 => (1, 0),
        2 => (-1, 0),
        3 => (0, 1),
        4 => (0, -1),
        5 => (1, 1),
        6 => (1, -1),
        7 => (-1, 1),
        _ => (-1, -1),
    }
}

/// Where an item laid down lands: the first of the nine places whose
/// ground is free (`free[k]` for place `k`), if any.
pub fn drop_spot(free: &Vec<bool>) -> (r: Option<usize>)
    requires
        free@.len() == DROP_OFFSET_COUNT,
    ensures
        match r {
            Some(k) => k < DROP_OFFSET_COUNT && free@[k as int] && forall|j: int| 0 <= j < k ==> !#[trigger] free@[j],
            None => forall|j: int| 0 <= j < DROP_OFFSET_COUNT ==> !#[trigger] free@[j],
        },
{
    let mut k: usize = 0;
    while k < DROP_OFFSET_COUNT
        invariant
            k <= DROP_OFFSET_COUNT,
            free@.len() == DROP_OFFSET_COUNT,
            forall|j: int| 0 <= j < k ==> !#[trigger] free@[j],
        decreases DROP_OFFSET_COUNT - k,
    {
        if free[k] {
            return Some(k);
        }
        k = k + 1;
    }
    None
}

} // verus!
