//! Deterministic world generation on integers: coordinate hashing, chunk
//! addressing, stairs placement and the room-and-corridor chunk layout.
use vstd::prelude::*;

use crate::items::Tile;

verus! {

/// Side of a square chunk, in tiles.
pub const CHUNK_SIZE: usize = 16;

/// Tiles in a chunk.
pub const CHUNK_AREA: usize = 256;

/// `a + b` modulo 2^64.
pub open spec fn wadd(a: u64, b: u64) -> u64 {
    vstd::wrapping::u64_specs::wrapping_add(a, b)
}

/// `a * b` modulo 2^64.
pub open spec fn wmul(a: u64, b: u64) -> u64 {
    vstd::wrapping::u64_specs::wrapping_mul(a, b)
}

/// The coordinate hash: the seed, a salt and both coordinates mixed and then
/// scrambled by the SplitMix64 finaliser.
pub open spec fn hash_spec(seed: u64, salt: u64, x: i32, y: i32) -> u64 {
    let ux = (x as i64) as u64;
    let uy = (y as i64) as u64;
    let key = wadd(
        wadd(wadd(seed, salt), wmul(ux, 0x9E37_79B9_7F4A_7C15u64)),
        wmul(uy, 0xC2B2_AE3D_27D4_EB4Fu64),
    );
    let z0 = wadd(key, 0x9E37_79B9_7F4A_7C15u64);
    let z1 = wmul(z0 ^ (z0 >> 30u64), 0xBF58_476D_1CE4_E5B9u64);
    let z2 = wmul(z1 ^ (z1 >> 27u64), 0x94D0_49BB_1331_11EBu64);
    z2 ^ (z2 >> 31u64)
}

/// Hash of `(seed, salt, x, y)`.
pub fn deterministic_hash64(seed: u64, salt: u64, x: i32, y: i32) -> (z: u64)
    ensures
        z == hash_spec(seed, salt, x, y),
{
    let ux = x as i64 as u64;
    let uy = y as i64 as u64;
    let key = seed.wrapping_add(salt).wrapping_add(ux.wrapping_mul(0x9E37_79B9_7F4A_7C15)).wrapping_add(
        uy.wrapping_mul(0xC2B2_AE3D_27D4_EB4F),
    );
    let a = key.wrapping_add(0x9E37_79B9_7F4A_7C15);
    let b = (a ^ (a >> 30)).wrapping_mul(0xBF58_476D_1CE4_E5B9);
    let c = (b ^ (b >> 27)).wrapping_mul(0x94D0_49BB_1331_11EB);
    c ^ (c >> 31)
}

/// The 53 high bits of the hash: the numerator `v` of the position-noise value
/// `v / 2^53`, which lies in `[0, 1)`.
pub open spec fn noise_bits_spec(seed: u64, salt: u64, x: i32, y: i32) -> u64 {
    hash_spec(seed, salt, x, y) >> 11u64
}

/// The numerator of the position-noise value of `(x, y)`.
pub fn noise_bits(seed: u64, salt: u64, x: i32, y: i32) -> (v: u64)
    ensures
        v == noise_bits_spec(seed, salt, x, y),
        v < 0x20_0000_0000_0000,
{
    let z = deterministic_hash64(seed, salt, x, y);
    let v = z >> 11;
    assert(z >> 11u64 < 0x20_0000_0000_0000u64) by (bit_vector);
    v
}

/// Salt of the stairs-placement noise.
pub const NOISE_SALT_STAIRS: u64 = 0xA1C5_7A17_5EED_11A2;

/// Salt of the item-placement noise.
pub const NOISE_SALT_ITEMS_PEAK: u64 = 0x11E7_A5E1_D3AD_B33F;

/// Salt of the noise that picks which item lies on an item peak.
pub const NOISE_SALT_ITEMS_PICK: u64 = 0xC0DE_17E5_5EED_0001;

/// Stairs stand where the noise is at least 0.999, i.e. where the numerator is
/// at least this value.
pub const STAIRS_PEAK_MIN_BITS: u64 = 8998192055486251;

/// Items lie where the noise is at least 0.98, i.e. where the numerator is at
/// least this value.
pub const ITEM_PEAK_MIN_BITS: u64 = 8827055269646172;

/// Coordinates for which the squared-distance arithmetic stays in range.
pub open spec fn coord_ok(v: i32) -> bool {
    -32765 <= v <= 32765
}

/// Points whose squared distance from the origin fits in `i32`, as the
/// peak test computes it.
pub open spec fn peak_coords_ok(x: i32, y: i32) -> bool {
    x * x + y * y <= i32::MAX
}

/// Whether the peak test can be made at `(x, y)` (see `peak_coords_ok`).
pub fn peak_in_range(x: i32, y: i32) -> (b: bool)
    ensures
        b == peak_coords_ok(x, y),
{
    let xi = x as i64;
    let yi = y as i64;
    assert(0 <= xi * xi <= 0x4000_0000_0000_0000) by (nonlinear_arith)
        requires
            i32::MIN <= xi <= i32::MAX,
    ;
    assert(0 <= yi * yi <= 0x4000_0000_0000_0000) by (nonlinear_arith)
        requires
            i32::MIN <= yi <= i32::MAX,
    ;
    let xx = xi * xi;
    let yy = yi * yi;
    xx <= i32::MAX as i64 && yy <= i32::MAX as i64 - xx
}

proof fn lemma_peak_coords_bounds(x: i32, y: i32)
    requires
        peak_coords_ok(x, y),
    ensures
        0 <= x * x <= i32::MAX,
        0 <= y * y <= i32::MAX,
        -46341 <= x <= 46341,
        -46341 <= y <= 46341,
{
    assert(0 <= x * x && 0 <= y * y) by (nonlinear_arith);
    assert(-46341 <= x <= 46341) by (nonlinear_arith)
        requires
            x * x <= 2147483647,
    ;
    assert(-46341 <= y <= 46341) by (nonlinear_arith)
        requires
            y * y <= 2147483647,
    ;
}

/// `(x, y)` is a local peak of the noise with salt `salt`: far enough from the
/// origin (squared distance above `no_spawn_r2`), at least `min_bits`, and
/// strictly above every other point of the 5x5 square around it.
pub open spec fn noise_peak_spec(seed: u64, salt: u64, min_bits: u64, no_spawn_r2: int, x: i32, y: i32) -> bool {
    &&& x * x + y * y > no_spawn_r2
    &&& noise_bits_spec(seed, salt, x, y) >= min_bits
    &&& forall|dx: int, dy: int|
        -2 <= dx <= 2 && -2 <= dy <= 2 && !(dx == 0 && dy == 0) ==> #[trigger] noise_bits_spec(seed, salt, (x + dx) as i32, (y + dy) as i32)
            < noise_bits_spec(seed, salt, x, y)
}

fn noise_peak(seed: u64, salt: u64, min_bits: u64, no_spawn_r2: i32, x: i32, y: i32) -> (b: bool)
    requires
        peak_coords_ok(x, y),
    ensures
        b == noise_peak_spec(seed, salt, min_bits, no_spawn_r2 as int, x, y),
{
    proof {
        lemma_peak_coords_bounds(x, y);
    }
    if x * x + y * y <= no_spawn_r2 {
        return false;
    }
    let center = noise_bits(seed, salt, x, y);
    if center < min_bits {
        return false;
    }
    let mut dy: i32 = -2;
    while dy <= 2
        invariant
            -2 <= dy <= 3,
            -46341 <= x <= 46341,
            -46341 <= y <= 46341,
            center == noise_bits_spec(seed, salt, x, y),
            forall|ex: int, ey: int|
                -2 <= ex <= 2 && -2 <= ey < dy && !(ex == 0 && ey == 0) ==> #[trigger] noise_bits_spec(seed, salt, (x + ex) as i32, (y + ey) as i32) < center,
        decreases 3 - dy,
    {
        let mut dx: i32 = -2;
        while dx <= 2
            invariant
                -2 <= dx <= 3,
                -2 <= dy <= 2,
                -46341 <= x <= 46341,
                -46341 <= y <= 46341,
                center == noise_bits_spec(seed, salt, x, y),
                forall|ex: int, ey: int|
                    -2 <= ex <= 2 && -2 <= ey < dy && !(ex == 0 && ey == 0) ==> #[trigger] noise_bits_spec(seed, salt, (x + ex) as i32, (y + ey) as i32) < center,
                forall|ex: int|
                    -2 <= ex < dx && !(ex == 0 && dy == 0) ==> #[trigger] noise_bits_spec(seed, salt, (x + ex) as i32, (y + dy) as i32) < center,
            decreases 3 - dx,
        {
            if !(dx == 0 && dy == 0) {
                let v = noise_bits(seed, salt, x + dx, y + dy);
                if v >= center {
                    assert(noise_bits_spec(seed, salt, (x + dx) as i32, (y + dy) as i32) >= center);
                    return false;
                }
            }
            dx = dx + 1;
        }
        dy = dy + 1;
    }
    true
}

/// Whether stairs go down at `(x, y)`: a peak of the stairs noise beyond
/// twelve tiles from the origin.
pub fn is_stairs_peak(seed: u64, x: i32, y: i32) -> (b: bool)
    requires
        peak_coords_ok(x, y),
    ensures
        b == noise_peak_spec(seed, NOISE_SALT_STAIRS, STAIRS_PEAK_MIN_BITS, 144, x, y),
{
    noise_peak(seed, NOISE_SALT_STAIRS, STAIRS_PEAK_MIN_BITS, 144, x, y)
}

/// Whether an item lies at `(x, y)`: a peak of the item noise beyond eight
/// tiles from the origin.
pub fn is_item_peak(seed: u64, x: i32, y: i32) -> (b: bool)
    requires
        peak_coords_ok(x, y),
    ensures
        b == noise_peak_spec(seed, NOISE_SALT_ITEMS_PEAK, ITEM_PEAK_MIN_BITS, 64, x, y),
{
    noise_peak(seed, NOISE_SALT_ITEMS_PEAK, ITEM_PEAK_MIN_BITS, 64, x, y)
}

/// Law: two distinct points closer than three tiles on both axes are never
/// both stairs (or both item) peaks of the same noise.
pub proof fn lemma_peaks_are_spread(seed: u64, salt: u64, min_bits: u64, r2: int, x1: i32, y1: i32, x2: i32, y2: i32)
    requires
        noise_peak_spec(seed, salt, min_bits, r2, x1, y1),
        noise_peak_spec(seed, salt, min_bits, r2, x2, y2),
        -2 <= x2 - x1 <= 2,
        -2 <= y2 - y1 <= 2,
    ensures
        x1 == x2 && y1 == y2,
{
    if !(x1 == x2 && y1 == y2) {
        let dx = x2 - x1;
        let dy = y2 - y1;
        assert(noise_bits_spec(seed, salt, (x1 + dx) as i32, (y1 + dy) as i32) < noise_bits_spec(seed, salt, x1, y1));
        assert(noise_bits_spec(seed, salt, (x2 + (-dx)) as i32, (y2 + (-dy)) as i32) < noise_bits_spec(seed, salt, x2, y2));
        assert((x1 + dx) as i32 == x2 && (y1 + dy) as i32 == y2);
        assert((x2 + (-dx)) as i32 == x1 && (y2 + (-dy)) as i32 == y1);
    }
}

/// The chunk that holds world coordinate `v`.
pub open spec fn chunk_coord_spec(v: i32) -> int {
    v as int / 16
}

/// The position of `v` inside its chunk.
pub open spec fn local_coord_spec(v: i32) -> int {
    v as int % 16
}

/// The chunk that holds world coordinate `v` (rounding toward minus infinity).
pub fn chunk_coord(v: i32) -> (c: i32)
    ensures
        c == chunk_coord_spec(v),
{
    if v >= 0 {
        v / 16
    } else {
        let c = (v + 1) / 16 - 1;
        assert(c == v as int / 16) by (nonlinear_arith)
            requires
                v < 0,
                c == -((-(v + 1)) / 16) - 1,
        ;
        c
    }
}

/// The position of `v` inside its chunk, in `0..16`.
pub fn local_coord(v: i32) -> (l: usize)
    ensures
        l == local_coord_spec(v),
        l < CHUNK_SIZE,
{
    let c = chunk_coord(v);
    (v - c * 16) as usize
}

/// Law: a world coordinate is its chunk's origin plus its local offset.
pub proof fn lemma_chunk_local_split(v: i32)
    ensures
        chunk_coord_spec(v) * 16 + local_coord_spec(v) == v,
        0 <= local_coord_spec(v) < 16,
{
}

/// A biome id in `0..=15`.
#[derive(Clone, Copy, Debug, PartialEq, Eq, Structural)]
pub struct BiomeId(pub u8);

impl BiomeId {
    /// The biome `v`, capped at 15.
    pub fn new(v: u8) -> (b: BiomeId)
        ensures
            b.0 == if v < 15 { v } else { 15 },
    {
        BiomeId(if v < 15 { v } else { 15 })
    }
}

/// The biome that raw biome cell `raw` shows on a floor with palette `palette`.
pub fn remap_biome(raw: u8, palette: &[u8]) -> (b: BiomeId)
    ensures
        palette@.len() == 0 ==> b.0 == if raw < 15 { raw } else { 15 },
        palette@.len() > 0 ==> {
            let p = palette@[(raw as int) % (palette@.len() as int)];
            b.0 == if p < 15 { p } else { 15 }
        },
{
    if palette.len() == 0 {
        return BiomeId::new(raw);
    }
    let idx = (raw as usize) % palette.len();
    BiomeId::new(palette[idx])
}

/// Ground material family of a floor.
#[derive(Clone, Copy, Debug, PartialEq, Eq, Structural)]
pub enum TerrainTheme {
    BurialVein,
    LitanyHalls,
    ResearchShaft,
    SurfaceRuin,
}

/// Whether stairs appear on their own or only after the floor's facility is cleared.
#[derive(Clone, Copy, Debug, PartialEq, Eq, Structural)]
pub enum StairsMode {
    Normal,
    FacilityLocked,
}

/// Layout family of a floor.
#[derive(Clone, Copy, Debug, PartialEq, Eq, Structural)]
pub enum MapPattern {
    Perlin,
    RogueRooms,
}

/// Whether a floor carries a special facility.
#[derive(Clone, Copy, Debug, PartialEq, Eq, Structural)]
pub enum SpecialFacilityMode {
    Absent,
    Substory,
}

/// The layout named by a profile's `map_pattern` (`rogue`, else Perlin).
pub fn map_pattern_from_name(name: &str) -> (p: MapPattern)
    ensures
        p == if name@ == "rogue"@ { MapPattern::RogueRooms } else { MapPattern::Perlin },
{
    if crate::strings::str_eq(name, "rogue") {
        MapPattern::RogueRooms
    } else {
        MapPattern::Perlin
    }
}

/// The theme named by a profile's `terrain_theme` (surface ruin by default).
pub fn terrain_theme_from_name(name: &str) -> (t: TerrainTheme)
    ensures
        t == if name@ == "burial_vein"@ {
            TerrainTheme::BurialVein
        } else if name@ == "research_shaft"@ {
            TerrainTheme::ResearchShaft
        } else if name@ == "litany_halls"@ {
            TerrainTheme::LitanyHalls
        } else {
            TerrainTheme::SurfaceRuin
        },
{
    if crate::strings::str_eq(name, "burial_vein") {
        TerrainTheme::BurialVein
    } else if crate::strings::str_eq(name, "research_shaft") {
        TerrainTheme::ResearchShaft
    } else if crate::strings::str_eq(name, "litany_halls") {
        TerrainTheme::LitanyHalls
    } else {
        TerrainTheme::SurfaceRuin
    }
}

/// The stairs mode named by a profile's `stairs_mode` (normal by default).
pub fn stairs_mode_from_name(name: &str) -> (m: StairsMode)
    ensures
        m == if name@ == "facility_locked"@ { StairsMode::FacilityLocked } else { StairsMode::Normal },
{
    if crate::strings::str_eq(name, "facility_locked") {
        StairsMode::FacilityLocked
    } else {
        StairsMode::Normal
    }
}

/// The facility mode named by a profile's `special_facility_mode` (none by default).
pub fn special_facility_mode_from_name(name: &str) -> (m: SpecialFacilityMode)
    ensures
        m == if name@ == "substory"@ { SpecialFacilityMode::Substory } else { SpecialFacilityMode::Absent },
{
    if crate::strings::str_eq(name, "substory") {
        SpecialFacilityMode::Substory
    } else {
        SpecialFacilityMode::Absent
    }
}

/// A square of `CHUNK_SIZE` by `CHUNK_SIZE` tiles with its biome.
pub struct Chunk {
    pub tiles: [Tile; 256],
    pub biome: BiomeId,
}

/// Index of local cell `(lx, ly)` in a chunk's tile array.
pub open spec fn chunk_idx(lx: int, ly: int) -> int {
    ly * 16 + lx
}

impl Chunk {
    /// A chunk filled with `fill`.
    pub fn new(fill: Tile, biome: BiomeId) -> (c: Chunk)
        ensures
            forall|k: int| 0 <= k < 256 ==> c.tiles@[k] == fill,
            c.biome == biome,
    {
        Chunk { tiles: [fill; 256], biome }
    }

    /// Index of local cell `(local_x, local_y)`.
    pub fn idx(local_x: usize, local_y: usize) -> (i: usize)
        requires
            local_x < CHUNK_SIZE,
            local_y < CHUNK_SIZE,
        ensures
            i == chunk_idx(local_x as int, local_y as int),
            i < CHUNK_AREA,
    {
        local_y * CHUNK_SIZE + local_x
    }

    /// The tile at local cell `(local_x, local_y)`.
    pub fn get(&self, local_x: usize, local_y: usize) -> (t: Tile)
        requires
            local_x < CHUNK_SIZE,
            local_y < CHUNK_SIZE,
        ensures
            t == self.tiles@[chunk_idx(local_x as int, local_y as int)],
    {
        self.tiles[Self::idx(local_x, local_y)]
    }

    /// Sets the tile at local cell `(local_x, local_y)`.
    pub fn set(&mut self, local_x: usize, local_y: usize, tile: Tile)
        requires
            local_x < CHUNK_SIZE,
            local_y < CHUNK_SIZE,
        ensures
            final(self).tiles@ == old(self).tiles@.update(chunk_idx(local_x as int, local_y as int), tile),
            final(self).biome == old(self).biome,
    {
        let i = Self::idx(local_x, local_y);
        self.tiles[i] = tile;
    }
}

/// Law: writing a cell and reading it back gives the tile written, and leaves
/// every other cell as it was.
pub proof fn lemma_chunk_set_get(tiles: Seq<Tile>, lx: int, ly: int, mx: int, my: int, t: Tile)
    requires
        tiles.len() == 256,
        0 <= lx < 16,
        0 <= ly < 16,
        0 <= mx < 16,
        0 <= my < 16,
    ensures
        tiles.update(chunk_idx(lx, ly), t)[chunk_idx(lx, ly)] == t,
        (mx != lx || my != ly) ==> tiles.update(chunk_idx(lx, ly), t)[chunk_idx(mx, my)] == tiles[chunk_idx(mx, my)],
{
}

// ---------------------------------------------------------------------------
// Rooms and corridors
// ---------------------------------------------------------------------------

/// A rectangular room of a chunk, in local cells.
#[derive(Clone, Copy, Debug, PartialEq, Eq, Structural)]
pub struct Room {
    pub x: usize,
    pub y: usize,
    pub w: usize,
    pub h: usize,
}

/// Rooms clash when their rectangles grown by one cell up and left overlap.
pub open spec fn rooms_clash(a: Room, b: Room) -> bool {
    let l1 = if a.x >= 1 { a.x - 1 } else { 0 };
    let t1 = if a.y >= 1 { a.y - 1 } else { 0 };
    let l2 = if b.x >= 1 { b.x - 1 } else { 0 };
    let t2 = if b.y >= 1 { b.y - 1 } else { 0 };
    l1 < b.x + b.w && l2 < a.x + a.w && t1 < b.y + b.h && t2 < a.y + a.h
}

impl Room {
    /// The centre cell of the room.
    pub fn center(self) -> (c: (usize, usize))
        requires
            self.x + self.w < CHUNK_SIZE,
            self.y + self.h < CHUNK_SIZE,
        ensures
            c.0 == self.x + self.w / 2,
            c.1 == self.y + self.h / 2,
    {
        (self.x + self.w / 2, self.y + self.h / 2)
    }

    /// Whether this room clashes with `other`.
    pub fn intersects(self, other: Room) -> (b: bool)
        requires
            self.x + self.w < CHUNK_SIZE,
            self.y + self.h < CHUNK_SIZE,
            other.x + other.w < CHUNK_SIZE,
            other.y + other.h < CHUNK_SIZE,
        ensures
            b == rooms_clash(self, other),
    {
        // Each room is grown by one cell on its west and north sides.
        let overlap_x = self.x.saturating_sub(1) < other.x + other.w && other.x.saturating_sub(1)
            < self.x + self.w;
        let overlap_y = self.y.saturating_sub(1) < other.y + other.h && other.y.saturating_sub(1)
            < self.y + self.h;
        overlap_x && overlap_y
    }
}

/// Number of rooms a chunk aims for: 4 to 7.
pub open spec fn target_rooms_spec(seed: u64, cx: i32, cy: i32) -> int {
    4 + (hash_spec(seed, 0x44AA_1020_7060_F00Du64, cx, cy) % 4) as int
}

/// Salt of placement try `t`.
pub open spec fn try_salt(t: nat) -> u64 {
    wadd(0x1234_5000_0000_0000u64, t as u64)
}

/// The room proposed at try `t`: width 3..=7, height 3..=6, placed at least one
/// cell from the top-left edges and two from the bottom-right ones.
pub open spec fn candidate_room(seed: u64, cx: i32, cy: i32, t: nat) -> Room {
    let salt = try_salt(t);
    let w = 3 + (hash_spec(seed, salt ^ 0x11u64, cx, cy) % 5) as int;
    let h = 3 + (hash_spec(seed, salt ^ 0x22u64, cx, cy) % 4) as int;
    let max_x = 16 - (w + 2);
    let max_y = 16 - (h + 2);
    let x = 1 + ((hash_spec(seed, salt ^ 0x33u64, cx, cy) as usize) as int) % max_x;
    let y = 1 + ((hash_spec(seed, salt ^ 0x44u64, cx, cy) as usize) as int) % max_y;
    Room { x: x as usize, y: y as usize, w: w as usize, h: h as usize }
}

/// Some room of `rooms` clashes with `c`.
pub open spec fn clashes_any(rooms: Seq<Room>, c: Room) -> bool {
    exists|i: int| 0 <= i < rooms.len() && rooms_clash(c, #[trigger] rooms[i])
}

/// The rooms kept after `t` tries: each try adds its proposal unless the target
/// is reached or the proposal clashes with a kept room.
pub open spec fn rooms_after(seed: u64, cx: i32, cy: i32, t: nat) -> Seq<Room>
    decreases t,
{
    if t == 0 {
        Seq::empty()
    } else {
        let prev = rooms_after(seed, cx, cy, (t - 1) as nat);
        if prev.len() >= target_rooms_spec(seed, cx, cy) {
            prev
        } else {
            let c = candidate_room(seed, cx, cy, t);
            if clashes_any(prev, c) {
                prev
            } else {
                prev.push(c)
            }
        }
    }
}

/// The rooms of a chunk: those kept after 36 tries, or one 6x6 room at (5, 5).
pub open spec fn chunk_rooms(seed: u64, cx: i32, cy: i32) -> Seq<Room> {
    let r = rooms_after(seed, cx, cy, 36);
    if r.len() == 0 {
        seq![Room { x: 5, y: 5, w: 6, h: 6 }]
    } else {
        r
    }
}

/// `v` lies between `a` and `b`, either way round.
pub open spec fn between(v: int, a: int, b: int) -> bool {
    (a <= v <= b) || (b <= v <= a)
}

/// `(lx, ly)` lies inside room `r`.
pub open spec fn in_room(r: Room, lx: int, ly: int) -> bool {
    r.x <= lx < r.x + r.w && r.y <= ly < r.y + r.h
}

/// Corridor `i` runs first along x then along y, or the other way round.
pub open spec fn horizontal_first(seed: u64, cx: i32, cy: i32, i: int) -> bool {
    hash_spec(seed, wadd(0xAA00_11BB_22CC_33DDu64, i as u64), cx, cy) % 2 == 0
}

/// `(lx, ly)` lies on the L-shaped corridor between the centres of rooms `i - 1` and `i`.
pub open spec fn in_corridor(rooms: Seq<Room>, seed: u64, cx: i32, cy: i32, i: int, lx: int, ly: int) -> bool {
    let x1 = rooms[i - 1].x + rooms[i - 1].w / 2;
    let y1 = rooms[i - 1].y + rooms[i - 1].h / 2;
    let x2 = rooms[i].x + rooms[i].w / 2;
    let y2 = rooms[i].y + rooms[i].h / 2;
    if horizontal_first(seed, cx, cy, i) {
        (ly == y1 && between(lx, x1, x2)) || (lx == x2 && between(ly, y1, y2))
    } else {
        (lx == x1 && between(ly, y1, y2)) || (ly == y2 && between(lx, x1, x2))
    }
}

/// A chunk-edge gate with hash `g` is open.
pub open spec fn gate_open(g: u64) -> bool {
    g % 100 < 68
}

/// The cell along the edge where a gate with hash `g` opens.
pub open spec fn gate_pos(g: u64) -> int {
    2 + ((g as usize) as int) % 12
}

/// Whether a west or east gate opens cell `(lx, ly)`: its border cell and
/// the inner column down or up to row 8.
pub open spec fn in_side_gate(edge_x: int, inner_x: int, g: u64, lx: int, ly: int) -> bool {
    gate_open(g) && ((lx == edge_x && ly == gate_pos(g)) || (lx == inner_x && between(ly, gate_pos(g), 8)))
}

/// `(lx, ly)` is opened by a north or south gate.
pub open spec fn in_end_gate(edge_y: int, inner_y: int, g: u64, lx: int, ly: int) -> bool {
    gate_open(g) && ((ly == edge_y && lx == gate_pos(g)) || (ly == inner_y && between(lx, gate_pos(g), 8)))
}

pub const GATE_SALT_SIDE: u64 = 0x70AA_BBCC_DDEE_1001;

pub const GATE_SALT_END: u64 = 0x7000_ABCD_EF11_2002;

/// The open (floor) cells of a chunk: its rooms, the corridors joining
/// consecutive rooms, and the cells its gates open. Neighbouring chunks
/// hash a shared edge alike, so their gates meet.
pub open spec fn carved_spec(rooms: Seq<Room>, seed: u64, cx: i32, cy: i32, lx: int, ly: int) -> bool {
    ||| exists|i: int| 0 <= i < rooms.len() && in_room(#[trigger] rooms[i], lx, ly)
    ||| exists|i: int| 1 <= i < rooms.len() && #[trigger] in_corridor(rooms, seed, cx, cy, i, lx, ly)
    ||| in_side_gate(0, 1, hash_spec(seed, GATE_SALT_SIDE, cx, cy), lx, ly)
    ||| in_side_gate(15, 14, hash_spec(seed, GATE_SALT_SIDE, (cx + 1) as i32, cy), lx, ly)
    ||| in_end_gate(0, 1, hash_spec(seed, GATE_SALT_END, cx, cy), lx, ly)
    ||| in_end_gate(15, 14, hash_spec(seed, GATE_SALT_END, cx, (cy + 1) as i32), lx, ly)
}

/// Salt of the floor-material noise of room chunks.
pub const FLOOR_SALT: u64 = 0xDEAD_BEEF_5500_0042;

/// Noise numerators below which a floor cell takes its first material
/// (thresholds 0.70, 0.74, 0.46, 0.66, 0.56, 0.42).
pub const T70: u64 = 6305039478318694;
pub const T74: u64 = 6665327448508334;
pub const T46: u64 = 4143311657180857;
pub const T66: u64 = 5944751508129055;
pub const T56: u64 = 5044031582654956;
pub const T42: u64 = 3783023686991217;

/// The floor material of an open cell at world `(wx, wy)`.
pub open spec fn floor_tile_spec(seed: u64, theme: TerrainTheme, biome: u8, wx: i32, wy: i32) -> Tile {
    let v = noise_bits_spec(seed, FLOOR_SALT, wx, wy);
    match theme {
        TerrainTheme::SurfaceRuin => if biome == 2 || biome == 3 || biome == 5 || biome == 6 || biome == 7 {
            if v < T70 { Tile::Grass } else { Tile::Sand }
        } else if 11 <= biome <= 15 {
            if v < T74 { Tile::Sand } else { Tile::Grass }
        } else {
            if v < T46 { Tile::Sand } else { Tile::Grass }
        },
        TerrainTheme::BurialVein => if v < T66 { Tile::Sand } else { Tile::Grass },
        TerrainTheme::ResearchShaft => if v < T56 { Tile::Sand } else { Tile::Grass },
        TerrainTheme::LitanyHalls => if v < T42 { Tile::Grass } else { Tile::Sand },
    }
}

/// The floor material of an open cell at world `(wx, wy)`.
pub fn floor_tile(seed: u64, theme: TerrainTheme, biome: u8, wx: i32, wy: i32) -> (t: Tile)
    ensures
        t == floor_tile_spec(seed, theme, biome, wx, wy),
{
    let v = noise_bits(seed, FLOOR_SALT, wx, wy);
    match theme {
        TerrainTheme::SurfaceRuin => if biome == 2 || biome == 3 || biome == 5 || biome == 6 || biome == 7 {
            if v < T70 { Tile::Grass } else { Tile::Sand }
        } else if 11 <= biome && biome <= 15 {
            if v < T74 { Tile::Sand } else { Tile::Grass }
        } else {
            if v < T46 { Tile::Sand } else { Tile::Grass }
        },
        TerrainTheme::BurialVein => if v < T66 { Tile::Sand } else { Tile::Grass },
        TerrainTheme::ResearchShaft => if v < T56 { Tile::Sand } else { Tile::Grass },
        TerrainTheme::LitanyHalls => if v < T42 { Tile::Grass } else { Tile::Sand },
    }
}

/// The largest square of a world coordinate along one axis of chunk `c`.
pub open spec fn span_sq(c: i32) -> int {
    let lo = c * 16;
    let hi = c * 16 + 15;
    if lo * lo >= hi * hi {
        lo * lo
    } else {
        hi * hi
    }
}

/// Chunks for which generation stays in range: the squared distance of
/// each of their cells from the origin fits in `i32` (so each coordinate
/// lies within 2897 chunks).
pub open spec fn chunk_coord_ok(cx: i32, cy: i32) -> bool {
    &&& -2897 <= cx <= 2897
    &&& -2897 <= cy <= 2897
    &&& span_sq(cx) + span_sq(cy) <= i32::MAX
}

/// Whether chunk `(cx, cy)` can be generated (see `chunk_coord_ok`).
pub fn chunk_in_range(cx: i32, cy: i32) -> (b: bool)
    ensures
        b == chunk_coord_ok(cx, cy),
{
    if cx < -2897 || cx > 2897 || cy < -2897 || cy > 2897 {
        return false;
    }
    let lx = cx as i64 * 16;
    let ly = cy as i64 * 16;
    let hx = lx + 15;
    let hy = ly + 15;
    assert(0 <= lx * lx <= 46367 * 46367 && 0 <= hx * hx <= 46367 * 46367) by (nonlinear_arith)
        requires
            -46352 <= lx <= 46352,
            -46337 <= hx <= 46367,
    ;
    assert(0 <= ly * ly <= 46367 * 46367 && 0 <= hy * hy <= 46367 * 46367) by (nonlinear_arith)
        requires
            -46352 <= ly <= 46352,
            -46337 <= hy <= 46367,
    ;
    let sx = if lx * lx >= hx * hx { lx * lx } else { hx * hx };
    let sy = if ly * ly >= hy * hy { ly * ly } else { hy * hy };
    sx + sy <= i32::MAX as i64
}

/// Every cell of a chunk in range lies where the peak test can be made.
proof fn lemma_cell_in_range(cx: i32, cy: i32, lx: int, ly: int)
    requires
        chunk_coord_ok(cx, cy),
        0 <= lx < 16,
        0 <= ly < 16,
    ensures
        peak_coords_ok((cx * 16 + lx) as i32, (cy * 16 + ly) as i32),
{
    let wx = cx * 16 + lx;
    let wy = cy * 16 + ly;
    assert(wx * wx <= span_sq(cx)) by (nonlinear_arith)
        requires
            cx * 16 <= wx <= cx * 16 + 15,
            span_sq(cx) >= (cx * 16) * (cx * 16),
            span_sq(cx) >= (cx * 16 + 15) * (cx * 16 + 15),
    ;
    assert(wy * wy <= span_sq(cy)) by (nonlinear_arith)
        requires
            cy * 16 <= wy <= cy * 16 + 15,
            span_sq(cy) >= (cy * 16) * (cy * 16),
            span_sq(cy) >= (cy * 16 + 15) * (cy * 16 + 15),
    ;
}

/// The tile of local cell `(lx, ly)` of room chunk `(cx, cy)`: floor where
/// carved, wall elsewhere, and stairs down on walkable stairs peaks when the
/// floor's stairs are not locked.
pub open spec fn rogue_tile_spec(
    seed: u64,
    theme: TerrainTheme,
    stairs_mode: StairsMode,
    walkable: Seq<Tile>,
    cx: i32,
    cy: i32,
    biome: u8,
    lx: int,
    ly: int,
) -> Tile {
    let wx = (cx * 16 + lx) as i32;
    let wy = (cy * 16 + ly) as i32;
    let base = if carved_spec(chunk_rooms(seed, cx, cy), seed, cx, cy, lx, ly) {
        floor_tile_spec(seed, theme, biome, wx, wy)
    } else {
        Tile::Wall
    };
    if stairs_mode == StairsMode::Normal && walkable.contains(base) && noise_peak_spec(
        seed,
        NOISE_SALT_STAIRS,
        STAIRS_PEAK_MIN_BITS,
        144,
        wx,
        wy,
    ) {
        Tile::StairsDown
    } else {
        base
    }
}

/// A room that fits inside a chunk with a margin.
pub open spec fn room_fits(r: Room) -> bool {
    r.x + r.w < CHUNK_SIZE && r.y + r.h < CHUNK_SIZE
}

proof fn lemma_candidate_fits(seed: u64, cx: i32, cy: i32, t: nat)
    ensures
        room_fits(candidate_room(seed, cx, cy, t)),
        candidate_room(seed, cx, cy, t).x >= 1,
        candidate_room(seed, cx, cy, t).y >= 1,
{
}

proof fn lemma_rooms_fit(seed: u64, cx: i32, cy: i32, t: nat)
    ensures
        forall|i: int| 0 <= i < rooms_after(seed, cx, cy, t).len() ==> room_fits(#[trigger] rooms_after(seed, cx, cy, t)[i]),
    decreases t,
{
    if t > 0 {
        lemma_rooms_fit(seed, cx, cy, (t - 1) as nat);
        lemma_candidate_fits(seed, cx, cy, t);
        let prev = rooms_after(seed, cx, cy, (t - 1) as nat);
        let c = candidate_room(seed, cx, cy, t);
        let cur = rooms_after(seed, cx, cy, t);
        assert(cur == prev || cur == prev.push(c));
        assert forall|i: int| 0 <= i < cur.len() implies room_fits(#[trigger] cur[i]) by {
            if i < prev.len() {
                assert(cur[i] == prev[i]);
            } else {
                assert(cur[i] == c);
            }
        }
    }
}

proof fn lemma_rooms_stable(seed: u64, cx: i32, cy: i32, t: nat, t2: nat)
    requires
        t <= t2,
        rooms_after(seed, cx, cy, t).len() >= target_rooms_spec(seed, cx, cy),
    ensures
        rooms_after(seed, cx, cy, t2) == rooms_after(seed, cx, cy, t),
    decreases t2,
{
    if t2 > t {
        lemma_rooms_stable(seed, cx, cy, t, (t2 - 1) as nat);
    }
}

/// The rooms of chunk `(cx, cy)`.
fn build_rooms(seed: u64, cx: i32, cy: i32) -> (rooms: Vec<Room>)
    ensures
        rooms@ == chunk_rooms(seed, cx, cy),
        forall|i: int| 0 <= i < rooms@.len() ==> room_fits(#[trigger] rooms@[i]),
{
    let target = 4 + (deterministic_hash64(seed, 0x44AA_1020_7060_F00D, cx, cy) % 4) as usize;
    let mut rooms: Vec<Room> = Vec::new();
    let mut tries: usize = 0;
    while rooms.len() < target && tries < 36
        invariant
            tries <= 36,
            target == target_rooms_spec(seed, cx, cy),
            rooms@ == rooms_after(seed, cx, cy, tries as nat),
            forall|i: int| 0 <= i < rooms@.len() ==> room_fits(#[trigger] rooms@[i]),
        decreases 36 - tries,
    {
        tries = tries + 1;
        proof {
            lemma_candidate_fits(seed, cx, cy, tries as nat);
        }
        let salt = 0x1234_5000_0000_0000u64.wrapping_add(tries as u64);
        let w = 3 + (deterministic_hash64(seed, salt ^ 0x11, cx, cy) % 5) as usize;
        let h = 3 + (deterministic_hash64(seed, salt ^ 0x22, cx, cy) % 4) as usize;
        let max_x = CHUNK_SIZE.saturating_sub(w + 2);
        let max_y = CHUNK_SIZE.saturating_sub(h + 2);
        if max_x == 0 || max_y == 0 {
            continue;
        }
        let x = 1 + (deterministic_hash64(seed, salt ^ 0x33, cx, cy) as usize % max_x);
        let y = 1 + (deterministic_hash64(seed, salt ^ 0x44, cx, cy) as usize % max_y);
        let candidate = Room { x, y, w, h };
        assert(candidate == candidate_room(seed, cx, cy, tries as nat));
        let mut clash = false;
        let mut i: usize = 0;
        while i < rooms.len()
            invariant
                i <= rooms@.len(),
                room_fits(candidate),
                forall|j: int| 0 <= j < rooms@.len() ==> room_fits(#[trigger] rooms@[j]),
                clash == exists|j: int| 0 <= j < i && rooms_clash(candidate, #[trigger] rooms@[j]),
            decreases rooms@.len() - i,
        {
            if candidate.intersects(rooms[i]) {
                clash = true;
            }
            i = i + 1;
        }
        if clash {
            continue;
        }
        rooms.push(candidate);
    }
    proof {
        lemma_rooms_fit(seed, cx, cy, 36);
        if tries < 36 {
            lemma_rooms_stable(seed, cx, cy, tries as nat, 36);
        }
    }
    if rooms.len() == 0 {
        rooms.push(Room { x: 5, y: 5, w: 6, h: 6 });
    }
    rooms
}

/// Whether `v` lies between `a` and `b`, either way round.
fn between_exec(v: usize, a: usize, b: usize) -> (r: bool)
    ensures
        r == between(v as int, a as int, b as int),
{
    (a <= v && v <= b) || (b <= v && v <= a)
}

fn in_side_gate_exec(edge_x: usize, inner_x: usize, g: u64, lx: usize, ly: usize) -> (r: bool)
    ensures
        r == in_side_gate(edge_x as int, inner_x as int, g, lx as int, ly as int),
{
    if g % 100 >= 68 {
        return false;
    }
    let gy = 2 + (g as usize % 12);
    (lx == edge_x && ly == gy) || (lx == inner_x && between_exec(ly, gy, 8))
}

fn in_end_gate_exec(edge_y: usize, inner_y: usize, g: u64, lx: usize, ly: usize) -> (r: bool)
    ensures
        r == in_end_gate(edge_y as int, inner_y as int, g, lx as int, ly as int),
{
    if g % 100 >= 68 {
        return false;
    }
    let gx = 2 + (g as usize % 12);
    (ly == edge_y && lx == gx) || (ly == inner_y && between_exec(lx, gx, 8))
}

/// Whether local cell `(lx, ly)` is open floor.
fn is_carved(rooms: &Vec<Room>, seed: u64, cx: i32, cy: i32, lx: usize, ly: usize) -> (r: bool)
    requires
        forall|i: int| 0 <= i < rooms@.len() ==> room_fits(#[trigger] rooms@[i]),
        chunk_coord_ok(cx, cy),
        lx < CHUNK_SIZE,
        ly < CHUNK_SIZE,
    ensures
        r == carved_spec(rooms@, seed, cx, cy, lx as int, ly as int),
{
    let mut i: usize = 0;
    while i < rooms.len()
        invariant
            i <= rooms@.len(),
            forall|j: int| 0 <= j < rooms@.len() ==> room_fits(#[trigger] rooms@[j]),
            forall|j: int| 0 <= j < i ==> !in_room(#[trigger] rooms@[j], lx as int, ly as int),
        decreases rooms@.len() - i,
    {
        let r = rooms[i];
        if r.x <= lx && lx < r.x + r.w && r.y <= ly && ly < r.y + r.h {
            return true;
        }
        i = i + 1;
    }
    let mut k: usize = 1;
    while k < rooms.len()
        invariant
            1 <= k <= rooms@.len() || (rooms@.len() == 0 && k == 1),
            forall|j: int| 0 <= j < rooms@.len() ==> room_fits(#[trigger] rooms@[j]),
            forall|j: int| 0 <= j < rooms@.len() ==> !in_room(#[trigger] rooms@[j], lx as int, ly as int),
            forall|j: int| 1 <= j < k ==> !#[trigger] in_corridor(rooms@, seed, cx, cy, j, lx as int, ly as int),
        decreases rooms@.len() - k,
    {
        let (x1, y1) = rooms[k - 1].center();
        let (x2, y2) = rooms[k].center();
        let hf = deterministic_hash64(seed, 0xAA00_11BB_22CC_33DDu64.wrapping_add(k as u64), cx, cy) % 2 == 0;
        let on = if hf {
            (ly == y1 && between_exec(lx, x1, x2)) || (lx == x2 && between_exec(ly, y1, y2))
        } else {
            (lx == x1 && between_exec(ly, y1, y2)) || (ly == y2 && between_exec(lx, x1, x2))
        };
        assert(on == in_corridor(rooms@, seed, cx, cy, k as int, lx as int, ly as int));
        if on {
            return true;
        }
        k = k + 1;
    }
    in_side_gate_exec(0, 1, deterministic_hash64(seed, GATE_SALT_SIDE, cx, cy), lx, ly)
        || in_side_gate_exec(15, 14, deterministic_hash64(seed, GATE_SALT_SIDE, cx + 1, cy), lx, ly)
        || in_end_gate_exec(0, 1, deterministic_hash64(seed, GATE_SALT_END, cx, cy), lx, ly)
        || in_end_gate_exec(15, 14, deterministic_hash64(seed, GATE_SALT_END, cx, cy + 1), lx, ly)
}

/// Whether `t` is one of `tiles`.
pub fn tile_in(tiles: &[Tile], t: Tile) -> (r: bool)
    ensures
        r == tiles@.contains(t),
{
    let mut i: usize = 0;
    while i < tiles.len()
        invariant
            i <= tiles@.len(),
            forall|j: int| 0 <= j < i ==> tiles@[j] != t,
        decreases tiles@.len() - i,
    {
        if tiles[i] == t {
            return true;
        }
        i = i + 1;
    }
    false
}

/// Generates room chunk `(cx, cy)`: rooms joined by corridors and edge gates,
/// floored by theme and biome, walls elsewhere, with stairs on walkable
/// stairs peaks unless the floor locks them. `walkable` lists the tiles one
/// can stand on.
pub fn generate_chunk_rogue(
    seed: u64,
    terrain_theme: TerrainTheme,
    stairs_mode: StairsMode,
    walkable: &[Tile],
    chunk_x: i32,
    chunk_y: i32,
    biome: BiomeId,
) -> (c: Chunk)
    requires
        chunk_coord_ok(chunk_x, chunk_y),
    ensures
        c.biome == biome,
        forall|k: int| 0 <= k < CHUNK_AREA ==> c.tiles@[k] == rogue_tile_spec(
            seed,
            terrain_theme,
            stairs_mode,
            walkable@,
            chunk_x,
            chunk_y,
            biome.0,
            k % 16,
            k / 16,
        ),
{
    let rooms = build_rooms(seed, chunk_x, chunk_y);
    let mut chunk = Chunk::new(Tile::Wall, biome);
    let base_x = chunk_x * 16;
    let base_y = chunk_y * 16;
    let mut k: usize = 0;
    while k < CHUNK_AREA
        invariant
            k <= CHUNK_AREA,
            chunk_coord_ok(chunk_x, chunk_y),
            base_x == chunk_x * 16,
            base_y == chunk_y * 16,
            rooms@ == chunk_rooms(seed, chunk_x, chunk_y),
            forall|i: int| 0 <= i < rooms@.len() ==> room_fits(#[trigger] rooms@[i]),
            chunk.biome == biome,
            forall|j: int| 0 <= j < k ==> chunk.tiles@[j] == rogue_tile_spec(
                seed,
                terrain_theme,
                stairs_mode,
                walkable@,
                chunk_x,
                chunk_y,
                biome.0,
                j % 16,
                j / 16,
            ),
        decreases CHUNK_AREA - k,
    {
        let lx = k % 16;
        let ly = k / 16;
        let wx = base_x + lx as i32;
        let wy = base_y + ly as i32;
        proof {
            lemma_cell_in_range(chunk_x, chunk_y, lx as int, ly as int);
        }
        let base = if is_carved(&rooms, seed, chunk_x, chunk_y, lx, ly) {
            floor_tile(seed, terrain_theme, biome.0, wx, wy)
        } else {
            Tile::Wall
        };
        let tile = if stairs_mode == StairsMode::Normal && tile_in(walkable, base) && is_stairs_peak(seed, wx, wy) {
            Tile::StairsDown
        } else {
            base
        };
        assert(chunk_idx(lx as int, ly as int) == k);
        chunk.set(lx, ly, tile);
        k = k + 1;
    }
    chunk
}

/// A room that keeps clear of the outermost ring of cells.
pub open spec fn room_inner(r: Room) -> bool {
    room_fits(r) && r.x >= 1 && r.y >= 1 && r.w >= 2 && r.h >= 2
}

proof fn lemma_rooms_inner(seed: u64, cx: i32, cy: i32, t: nat)
    ensures
        forall|i: int| 0 <= i < rooms_after(seed, cx, cy, t).len() ==> room_inner(#[trigger] rooms_after(seed, cx, cy, t)[i]),
        forall|i: int, j: int| 0 <= i < j < rooms_after(seed, cx, cy, t).len() ==> !rooms_clash(
            #[trigger] rooms_after(seed, cx, cy, t)[j],
            #[trigger] rooms_after(seed, cx, cy, t)[i],
        ),
    decreases t,
{
    if t > 0 {
        lemma_rooms_inner(seed, cx, cy, (t - 1) as nat);
        lemma_candidate_fits(seed, cx, cy, t);
        let prev = rooms_after(seed, cx, cy, (t - 1) as nat);
        let c = candidate_room(seed, cx, cy, t);
        let cur = rooms_after(seed, cx, cy, t);
        assert(cur == prev || (cur == prev.push(c) && !clashes_any(prev, c)));
        assert forall|i: int| 0 <= i < cur.len() implies room_inner(#[trigger] cur[i]) by {
            if i < prev.len() {
                assert(cur[i] == prev[i]);
            } else {
                assert(cur[i] == c);
            }
        }
        assert forall|i: int, j: int| 0 <= i < j < cur.len() implies !rooms_clash(#[trigger] cur[j], #[trigger] cur[i]) by {
            if j < prev.len() {
                assert(cur[j] == prev[j] && cur[i] == prev[i]);
            } else {
                assert(cur[j] == c && cur[i] == prev[i]);
            }
        }
    }
}

/// Law: the rooms of a chunk keep clear of its outer ring, and no two of them
/// clash (they never overlap or touch from above or the left).
pub proof fn lemma_chunk_rooms_disjoint(seed: u64, cx: i32, cy: i32)
    ensures
        forall|i: int| 0 <= i < chunk_rooms(seed, cx, cy).len() ==> room_inner(#[trigger] chunk_rooms(seed, cx, cy)[i]),
        forall|i: int, j: int| 0 <= i < j < chunk_rooms(seed, cx, cy).len() ==> !rooms_clash(
            #[trigger] chunk_rooms(seed, cx, cy)[j],
            #[trigger] chunk_rooms(seed, cx, cy)[i],
        ),
{
    lemma_rooms_inner(seed, cx, cy, 36);
}

proof fn lemma_edges_only_by_side_gates(seed: u64, cx: i32, cy: i32, lx: int, ly: int)
    requires
        lx == 0 || lx == 15,
        0 <= ly < 16,
    ensures
        carved_spec(chunk_rooms(seed, cx, cy), seed, cx, cy, lx, ly) == (
            in_side_gate(0, 1, hash_spec(seed, GATE_SALT_SIDE, cx, cy), lx, ly)
            || in_side_gate(15, 14, hash_spec(seed, GATE_SALT_SIDE, (cx + 1) as i32, cy), lx, ly)
        ),
{
    let rooms = chunk_rooms(seed, cx, cy);
    lemma_chunk_rooms_disjoint(seed, cx, cy);
    assert forall|i: int| 0 <= i < rooms.len() implies !in_room(#[trigger] rooms[i], lx, ly) by {
        assert(room_inner(rooms[i]));
    }
    assert forall|i: int| 1 <= i < rooms.len() implies !#[trigger] in_corridor(rooms, seed, cx, cy, i, lx, ly) by {
        assert(room_inner(rooms[i]) && room_inner(rooms[i - 1]));
    }
}

/// Law: the east edge of a room chunk and the west edge of its eastern
/// neighbour are open in exactly the same rows, so passages line up.
pub proof fn lemma_side_gates_meet(seed: u64, cx: i32, cy: i32, ly: int)
    requires
        chunk_coord_ok(cx, cy),
        chunk_coord_ok((cx + 1) as i32, cy),
        0 <= ly < 16,
    ensures
        carved_spec(chunk_rooms(seed, cx, cy), seed, cx, cy, 15, ly) == carved_spec(
            chunk_rooms(seed, (cx + 1) as i32, cy),
            seed,
            (cx + 1) as i32,
            cy,
            0,
            ly,
        ),
{
    lemma_edges_only_by_side_gates(seed, cx, cy, 15, ly);
    lemma_edges_only_by_side_gates(seed, (cx + 1) as i32, cy, 0, ly);
}

proof fn lemma_edges_only_by_end_gates(seed: u64, cx: i32, cy: i32, lx: int, ly: int)
    requires
        ly == 0 || ly == 15,
        0 <= lx < 16,
    ensures
        carved_spec(chunk_rooms(seed, cx, cy), seed, cx, cy, lx, ly) == (
            in_end_gate(0, 1, hash_spec(seed, GATE_SALT_END, cx, cy), lx, ly)
            || in_end_gate(15, 14, hash_spec(seed, GATE_SALT_END, cx, (cy + 1) as i32), lx, ly)
        ),
{
    let rooms = chunk_rooms(seed, cx, cy);
    lemma_chunk_rooms_disjoint(seed, cx, cy);
    assert forall|i: int| 0 <= i < rooms.len() implies !in_room(#[trigger] rooms[i], lx, ly) by {
        assert(room_inner(rooms[i]));
    }
    assert forall|i: int| 1 <= i < rooms.len() implies !#[trigger] in_corridor(rooms, seed, cx, cy, i, lx, ly) by {
        assert(room_inner(rooms[i]) && room_inner(rooms[i - 1]));
    }
}

/// Law: the south edge of a room chunk and the north edge of its southern
/// neighbour are open in exactly the same columns, so passages line up.
pub proof fn lemma_end_gates_meet(seed: u64, cx: i32, cy: i32, lx: int)
    requires
        chunk_coord_ok(cx, cy),
        chunk_coord_ok(cx, (cy + 1) as i32),
        0 <= lx < 16,
    ensures
        carved_spec(chunk_rooms(seed, cx, cy), seed, cx, cy, lx, 15) == carved_spec(
            chunk_rooms(seed, cx, (cy + 1) as i32),
            seed,
            cx,
            (cy + 1) as i32,
            lx,
            0,
        ),
{
    lemma_edges_only_by_end_gates(seed, cx, cy, lx, 15);
    lemma_edges_only_by_end_gates(seed, cx, (cy + 1) as i32, lx, 0);
}

// ---------------------------------------------------------------------------
// Floors
// ---------------------------------------------------------------------------

/// `x` rotated left by `k` bits, for `1 <= k <= 63`.
pub open spec fn rotl_spec(x: u64, k: u64) -> u64 {
    ((x << k) | (x >> (64 - k))) as u64
}

/// The world seed of floor `floor` (already the new floor's number), from
/// the previous floor's seed: the seed plus a fixed salt, rotated left by
/// `floor % 63 + 1` bits.
pub fn next_floor_seed(seed: u64, floor: u32) -> (s: u64)
    ensures
        s == rotl_spec(wadd(seed, 0x9E37_79B9_7F4A_7C15), (floor % 63 + 1) as u64),
{
    let x = seed.wrapping_add(0x9E37_79B9_7F4A_7C15);
    let k: u64 = (floor % 63 + 1) as u64;
    (x << k) | (x >> (64 - k))
}

} // verus!
