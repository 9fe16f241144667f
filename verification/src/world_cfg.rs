//! Dungeon configuration: biome sets, floor profiles and dungeons, checked
//! against each other, and the per-floor lookups built on them.
use vstd::prelude::*;

use crate::defs::Faction;
use crate::items::Item;
use crate::strings::{
    decimal, decimal_string, spec_lower, spec_trim, str_eq, string_from_chars, trim_lower,
    trim_string,
};

verus! {

// ---------------------------------------------------------------------------
// Raw entries, as read from the data files
// ---------------------------------------------------------------------------

/// A `[[biome_sets]]` entry.
pub struct BiomeSetRaw {
    pub id: String,
    pub biomes: Vec<u8>,
}

/// The biome sets file.
pub struct BiomesFile {
    pub biome_sets: Vec<BiomeSetRaw>,
}

/// A weighted pool entry `{ id, weight }`.
pub struct WeightedEntryRaw {
    pub id: String,
    pub weight: u32,
}

/// A `[[floor_profiles]]` entry.
pub struct FloorProfileRaw {
    pub id: String,
    pub biome_set: String,
    pub map_pattern: String,
    pub terrain_theme: String,
    pub stairs_mode: String,
    pub special_facility_mode: String,
    pub enemy_pool: Vec<WeightedEntryRaw>,
    pub drop_pool: Vec<WeightedEntryRaw>,
    pub structure_pool: Vec<WeightedEntryRaw>,
}

/// The floor profiles file.
pub struct FloorsFile {
    pub floor_profiles: Vec<FloorProfileRaw>,
}

/// One floor range of a dungeon: floors `min..=max` use `floor_profile`.
pub struct DungeonFloorRaw {
    pub min: u32,
    pub max: u32,
    pub floor_profile: String,
}

/// A `[[dungeons]]` entry.
pub struct DungeonRaw {
    pub id: String,
    pub floors: Vec<DungeonFloorRaw>,
}

/// The dungeons file.
pub struct DungeonsFile {
    pub active: Option<String>,
    pub dungeons: Vec<DungeonRaw>,
}

/// A creature id with its faction, as the creature definitions give it.
pub struct CreatureFaction {
    pub id: String,
    pub faction: Faction,
}

/// A checked floor profile.
pub struct FloorProfile {
    pub biome_set: String,
    pub map_pattern: String,
    pub terrain_theme: String,
    pub stairs_mode: String,
    pub special_facility_mode: String,
    pub enemy_pool: Vec<(String, u32)>,
    pub drop_pool: Vec<(Item, u32)>,
    pub structure_pool: Vec<(String, u32)>,
}

/// The checked configuration. Keys within each list are distinct.
pub struct DungeonConfig {
    pub active_dungeon: String,
    pub biome_sets: Vec<(String, Vec<u8>)>,
    pub floor_profiles: Vec<(String, FloorProfile)>,
    pub dungeons: Vec<(String, Vec<DungeonFloorRaw>)>,
}

// ---------------------------------------------------------------------------
// Mathematical views
// ---------------------------------------------------------------------------

/// A floor profile entry as plain values.
pub struct FloorProfileRawView {
    pub id: Seq<char>,
    pub biome_set: Seq<char>,
    pub map_pattern: Seq<char>,
    pub terrain_theme: Seq<char>,
    pub stairs_mode: Seq<char>,
    pub special_facility_mode: Seq<char>,
    pub enemy_pool: Seq<(Seq<char>, u32)>,
    pub drop_pool: Seq<(Seq<char>, u32)>,
    pub structure_pool: Seq<(Seq<char>, u32)>,
}

/// A checked floor profile as plain values.
pub struct FloorProfileView {
    pub biome_set: Seq<char>,
    pub map_pattern: Seq<char>,
    pub terrain_theme: Seq<char>,
    pub stairs_mode: Seq<char>,
    pub special_facility_mode: Seq<char>,
    pub enemy_pool: Seq<(Seq<char>, u32)>,
    pub drop_pool: Seq<(Item, u32)>,
    pub structure_pool: Seq<(Seq<char>, u32)>,
}

/// The checked configuration as plain values.
pub struct DungeonConfigView {
    pub active_dungeon: Seq<char>,
    pub biome_sets: Seq<(Seq<char>, Seq<u8>)>,
    pub floor_profiles: Seq<(Seq<char>, FloorProfileView)>,
    pub dungeons: Seq<(Seq<char>, Seq<(u32, u32, Seq<char>)>)>,
}

pub open spec fn strs_view(v: Seq<String>) -> Seq<Seq<char>> {
    v.map_values(|s: String| s@)
}

pub open spec fn weighted_view(v: Seq<WeightedEntryRaw>) -> Seq<(Seq<char>, u32)> {
    v.map_values(|e: WeightedEntryRaw| (e.id@, e.weight))
}

pub open spec fn named_pool_view(v: Seq<(String, u32)>) -> Seq<(Seq<char>, u32)> {
    v.map_values(|e: (String, u32)| (e.0@, e.1))
}

pub open spec fn floors_view(v: Seq<DungeonFloorRaw>) -> Seq<(u32, u32, Seq<char>)> {
    v.map_values(|f: DungeonFloorRaw| (f.min, f.max, f.floor_profile@))
}

pub open spec fn biome_sets_raw_view(v: Seq<BiomeSetRaw>) -> Seq<(Seq<char>, Seq<u8>)> {
    v.map_values(|b: BiomeSetRaw| (b.id@, b.biomes@))
}

pub open spec fn biome_sets_view(v: Seq<(String, Vec<u8>)>) -> Seq<(Seq<char>, Seq<u8>)> {
    v.map_values(|b: (String, Vec<u8>)| (b.0@, b.1@))
}

pub open spec fn creatures_view(v: Seq<CreatureFaction>) -> Seq<(Seq<char>, Faction)> {
    v.map_values(|c: CreatureFaction| (c.id@, c.faction))
}

impl FloorProfileRaw {
    pub open spec fn view_spec(&self) -> FloorProfileRawView {
        FloorProfileRawView {
            id: self.id@,
            biome_set: self.biome_set@,
            map_pattern: self.map_pattern@,
            terrain_theme: self.terrain_theme@,
            stairs_mode: self.stairs_mode@,
            special_facility_mode: self.special_facility_mode@,
            enemy_pool: weighted_view(self.enemy_pool@),
            drop_pool: weighted_view(self.drop_pool@),
            structure_pool: weighted_view(self.structure_pool@),
        }
    }
}

pub open spec fn profiles_raw_view(v: Seq<FloorProfileRaw>) -> Seq<FloorProfileRawView> {
    v.map_values(|p: FloorProfileRaw| p.view_spec())
}

impl FloorProfile {
    pub open spec fn view_spec(&self) -> FloorProfileView {
        FloorProfileView {
            biome_set: self.biome_set@,
            map_pattern: self.map_pattern@,
            terrain_theme: self.terrain_theme@,
            stairs_mode: self.stairs_mode@,
            special_facility_mode: self.special_facility_mode@,
            enemy_pool: named_pool_view(self.enemy_pool@),
            drop_pool: self.drop_pool@,
            structure_pool: named_pool_view(self.structure_pool@),
        }
    }
}

pub open spec fn profiles_view(v: Seq<(String, FloorProfile)>) -> Seq<(Seq<char>, FloorProfileView)> {
    v.map_values(|p: (String, FloorProfile)| (p.0@, p.1.view_spec()))
}

pub open spec fn dungeons_raw_view(v: Seq<DungeonRaw>) -> Seq<(Seq<char>, Seq<(u32, u32, Seq<char>)>)> {
    v.map_values(|d: DungeonRaw| (d.id@, floors_view(d.floors@)))
}

pub open spec fn dungeons_view(v: Seq<(String, Vec<DungeonFloorRaw>)>) -> Seq<(Seq<char>, Seq<(u32, u32, Seq<char>)>)> {
    v.map_values(|d: (String, Vec<DungeonFloorRaw>)| (d.0@, floors_view(d.1@)))
}

impl DungeonConfig {
    pub open spec fn view_spec(&self) -> DungeonConfigView {
        DungeonConfigView {
            active_dungeon: self.active_dungeon@,
            biome_sets: biome_sets_view(self.biome_sets@),
            floor_profiles: profiles_view(self.floor_profiles@),
            dungeons: dungeons_view(self.dungeons@),
        }
    }
}

// ---------------------------------------------------------------------------
// Keyed lists
// ---------------------------------------------------------------------------

/// Position of the first entry of `s` with key `k`, or -1.
pub open spec fn key_index<K, V>(s: Seq<(K, V)>, k: K) -> int
    decreases s.len(),
{
    if s.len() == 0 {
        -1
    } else if s[0].0 == k {
        0
    } else {
        let r = key_index(s.drop_first(), k);
        if r < 0 {
            -1
        } else {
            r + 1
        }
    }
}

/// Whether some entry of `s` has key `k`.
pub open spec fn has_key<K, V>(s: Seq<(K, V)>, k: K) -> bool {
    key_index(s, k) >= 0
}

/// The value of the first entry of `s` with key `k`.
pub open spec fn value_at_key<K, V>(s: Seq<(K, V)>, k: K) -> Option<V> {
    if has_key(s, k) {
        Some(s[key_index(s, k)].1)
    } else {
        None
    }
}

pub proof fn lemma_key_index<K, V>(s: Seq<(K, V)>, k: K)
    ensures
        -1 <= key_index(s, k) < s.len(),
        key_index(s, k) >= 0 ==> s[key_index(s, k)].0 == k,
        forall|j: int| 0 <= j < key_index(s, k) ==> s[j].0 != k,
        key_index(s, k) < 0 ==> forall|j: int| 0 <= j < s.len() ==> s[j].0 != k,
    decreases s.len(),
{
    if s.len() > 0 && s[0].0 != k {
        lemma_key_index(s.drop_first(), k);
        let r = key_index(s.drop_first(), k);
        assert forall|j: int| 0 <= j < key_index(s, k) implies s[j].0 != k by {
            if j > 0 {
                assert(s[j] == s.drop_first()[j - 1]);
            }
        }
        if r < 0 {
            assert forall|j: int| 0 <= j < s.len() implies s[j].0 != k by {
                if j > 0 {
                    assert(s[j] == s.drop_first()[j - 1]);
                }
            }
        }
    }
}

/// `key_index` is the first position whose key matches.
pub proof fn lemma_key_index_is<K, V>(s: Seq<(K, V)>, k: K, i: int)
    requires
        0 <= i <= s.len(),
        forall|j: int| 0 <= j < i ==> s[j].0 != k,
        i < s.len() ==> s[i].0 == k,
    ensures
        key_index(s, k) == if i < s.len() { i } else { -1 },
{
    lemma_key_index(s, k);
}

/// Adds weight `w` to the entry with key `k`, saturating at `u32::MAX`, or
/// appends `(k, w)` when there is none.
pub open spec fn pool_add<K>(pool: Seq<(K, u32)>, k: K, w: u32) -> Seq<(K, u32)> {
    let i = key_index(pool, k);
    if i >= 0 {
        pool.update(i, (k, pool[i].1.saturating_add(w)))
    } else {
        pool.push((k, w))
    }
}

// ---------------------------------------------------------------------------
// Messages
// ---------------------------------------------------------------------------

/// The three weighted pools of a floor profile.
#[derive(Clone, Copy, PartialEq, Eq, Structural)]
pub enum PoolKind {
    Enemy,
    Drop,
    Structure,
}

pub open spec fn pool_name(kind: PoolKind) -> Seq<char> {
    match kind {
        PoolKind::Enemy => "enemy_pool"@,
        PoolKind::Drop => "drop_pool"@,
        PoolKind::Structure => "structure_pool"@,
    }
}

pub open spec fn msg_biome_empty_id() -> Seq<char> {
    "biome_sets has an entry with empty id"@
}

pub open spec fn msg_dup_biome_set(id: Seq<char>) -> Seq<char> {
    "duplicate biome_set id: '"@ + id + "'"@
}

pub open spec fn msg_profile_empty_id() -> Seq<char> {
    "floor_profiles has an entry with empty id"@
}

pub open spec fn msg_profile_empty_biome_set(id: Seq<char>) -> Seq<char> {
    "floor_profile '"@ + id + "' has empty biome_set"@
}

pub open spec fn msg_bad_map_pattern(id: Seq<char>, v: Seq<char>) -> Seq<char> {
    "floor_profile '"@ + id + "' has invalid map_pattern '"@ + v
        + "' (expected 'perlin' or 'rogue')"@
}

pub open spec fn msg_bad_terrain_theme(id: Seq<char>, v: Seq<char>) -> Seq<char> {
    "floor_profile '"@ + id + "' has invalid terrain_theme '"@ + v + "'"@
}

pub open spec fn msg_bad_stairs_mode(id: Seq<char>, v: Seq<char>) -> Seq<char> {
    "floor_profile '"@ + id + "' has invalid stairs_mode '"@ + v + "'"@
}

pub open spec fn msg_bad_facility_mode(id: Seq<char>, v: Seq<char>) -> Seq<char> {
    "floor_profile '"@ + id + "' has invalid special_facility_mode '"@ + v + "'"@
}

pub open spec fn msg_dup_profile(id: Seq<char>) -> Seq<char> {
    "duplicate floor_profile id: '"@ + id + "'"@
}

pub open spec fn msg_pool_empty_id(id: Seq<char>, kind: PoolKind) -> Seq<char> {
    "floor_profile '"@ + id + "' has "@ + pool_name(kind) + " entry with empty id"@
}

pub open spec fn msg_pool_zero_weight(id: Seq<char>, kind: PoolKind, e: Seq<char>) -> Seq<char> {
    "floor_profile '"@ + id + "' "@ + pool_name(kind) + " '"@ + e + "' has zero weight"@
}

pub open spec fn msg_not_hostile(id: Seq<char>, e: Seq<char>) -> Seq<char> {
    "floor_profile '"@ + id + "' enemy_pool '"@ + e + "' is not hostile"@
}

pub open spec fn msg_unknown_creature(id: Seq<char>, e: Seq<char>) -> Seq<char> {
    "floor_profile '"@ + id + "' enemy_pool references unknown creature '"@ + e + "'"@
}

pub open spec fn msg_unknown_item(id: Seq<char>, e: Seq<char>) -> Seq<char> {
    "floor_profile '"@ + id + "' drop_pool references unknown item '"@ + e + "'"@
}

pub open spec fn msg_unknown_biome_set(id: Seq<char>, b: Seq<char>) -> Seq<char> {
    "floor_profile '"@ + id + "' references unknown biome_set '"@ + b + "'"@
}

pub open spec fn msg_dungeon_empty_id() -> Seq<char> {
    "dungeons has an entry with empty id"@
}

pub open spec fn msg_dup_dungeon(id: Seq<char>) -> Seq<char> {
    "duplicate dungeon id: '"@ + id + "'"@
}

pub open spec fn msg_no_floors(id: Seq<char>) -> Seq<char> {
    "dungeon '"@ + id + "' has no floors"@
}

pub open spec fn msg_bad_range(id: Seq<char>, min: u32, max: u32) -> Seq<char> {
    "dungeon '"@ + id + "' has invalid floor range: min "@ + decimal(min as nat) + " > max "@
        + decimal(max as nat)
}

pub open spec fn msg_unknown_profile(id: Seq<char>, p: Seq<char>) -> Seq<char> {
    "dungeon '"@ + id + "' references unknown floor_profile '"@ + p + "'"@
}

pub open spec fn msg_unknown_active(a: Seq<char>) -> Seq<char> {
    "active dungeon '"@ + a + "' is not defined"@
}


// ---------------------------------------------------------------------------
// What the check computes
// ---------------------------------------------------------------------------

/// Map pattern of a floor profile that names none.
pub fn default_map_pattern() -> (s: String)
    ensures
        s@ == "perlin"@,
{
    "perlin".to_owned()
}

/// Terrain theme of a floor profile that names none.
pub fn default_terrain_theme() -> (s: String)
    ensures
        s@ == "surface_ruin"@,
{
    "surface_ruin".to_owned()
}

/// Stairs mode of a floor profile that names none.
pub fn default_stairs_mode() -> (s: String)
    ensures
        s@ == "normal"@,
{
    "normal".to_owned()
}

/// Special facility mode of a floor profile that names none.
pub fn default_special_facility_mode() -> (s: String)
    ensures
        s@ == "none"@,
{
    "none".to_owned()
}

/// The biome ids `0..=15`.
pub open spec fn default_biome_ids_spec() -> Seq<u8> {
    Seq::new(16, |i: int| i as u8)
}

/// The ids `<= 15` of `raw`, each kept at its first occurrence.
pub open spec fn sanitize_prefix(raw: Seq<u8>) -> Seq<u8>
    decreases raw.len(),
{
    if raw.len() == 0 {
        Seq::empty()
    } else {
        let out = sanitize_prefix(raw.drop_last());
        let b = raw.last();
        if b <= 15 && !out.contains(b) {
            out.push(b)
        } else {
            out
        }
    }
}

/// The ids kept from `raw` are exactly its ids up to 15, each once, in the
/// order of their first occurrence: every occurrence of a later id comes
/// after an occurrence of each earlier one.
pub proof fn lemma_sanitize_direct(raw: Seq<u8>)
    ensures
        forall|i: int, j: int|
            0 <= i < j < sanitize_prefix(raw).len() ==> #[trigger] sanitize_prefix(raw)[i] != #[trigger] sanitize_prefix(
                raw,
            )[j],
        forall|i: int|
            0 <= i < sanitize_prefix(raw).len() ==> #[trigger] sanitize_prefix(raw)[i] <= 15 && raw.contains(
                sanitize_prefix(raw)[i],
            ),
        forall|k: int| 0 <= k < raw.len() && #[trigger] raw[k] <= 15 ==> sanitize_prefix(raw).contains(raw[k]),
        forall|i: int, j: int, k: int|
            #![trigger sanitize_prefix(raw)[i], sanitize_prefix(raw)[j], raw[k]]
            0 <= i < j < sanitize_prefix(raw).len() && 0 <= k < raw.len() && raw[k] == sanitize_prefix(raw)[j]
                ==> raw.subrange(0, k).contains(sanitize_prefix(raw)[i]),
    decreases raw.len(),
{
    if raw.len() > 0 {
        let init = raw.drop_last();
        lemma_sanitize_direct(init);
        let prev = sanitize_prefix(init);
        let out = sanitize_prefix(raw);
        let b = raw.last();
        let n = raw.len() - 1;
        assert forall|x: u8| init.contains(x) implies raw.contains(x) by {
            let w = choose|w: int| 0 <= w < init.len() && init[w] == x;
            assert(raw[w] == x);
        }
        assert forall|k: int| 0 <= k < raw.len() && #[trigger] raw[k] <= 15 implies out.contains(raw[k]) by {
            if k < n {
                assert(raw[k] == init[k]);
                assert(prev.contains(init[k]));
                let w = choose|w: int| 0 <= w < prev.len() && prev[w] == init[k];
                if b <= 15 && !prev.contains(b) {
                    assert(out[w] == prev[w]);
                }
            } else {
                if b <= 15 && !prev.contains(b) {
                    assert(out[prev.len() as int] == b);
                }
            }
        }
        assert forall|i: int| 0 <= i < out.len() implies #[trigger] out[i] <= 15 && raw.contains(out[i]) by {
            if i < prev.len() {
                assert(out[i] == prev[i]);
                assert(init.contains(prev[i]));
            } else {
                assert(raw[n] == b);
            }
        }
        assert forall|i: int, j: int| 0 <= i < j < out.len() implies #[trigger] out[i] != #[trigger] out[j] by {
            if j < prev.len() {
                assert(out[i] == prev[i] && out[j] == prev[j]);
            } else {
                assert(out[i] == prev[i]);
                assert(prev.contains(prev[i]));
            }
        }
        assert forall|i: int, j: int, k: int|
            #![trigger out[i], out[j], raw[k]]
            0 <= i < j < out.len() && 0 <= k < raw.len() && raw[k] == out[j] implies raw.subrange(0, k).contains(
                out[i],
            ) by {
            assert(out[i] == prev[i]);
            assert(init.contains(prev[i]));
            if k < n {
                assert(raw[k] == init[k]);
                if j < prev.len() {
                    assert(out[j] == prev[j]);
                    assert(init[k] == prev[j]);
                    assert(init.subrange(0, k).contains(prev[i]));
                    let m = choose|m: int| 0 <= m < k && init.subrange(0, k)[m] == prev[i];
                    assert(raw.subrange(0, k)[m] == init.subrange(0, k)[m]);
                } else {
                    assert(out[j] == b);
                    assert(init[k] <= 15);
                    assert(prev.contains(init[k]));
                }
            } else {
                let w = choose|w: int| 0 <= w < init.len() && init[w] == prev[i];
                assert(raw.subrange(0, k)[w] == init[w]);
            }
        }
    }
}

/// The biome ids of a set: the valid distinct ids of `raw`, or all ids when none is.
pub open spec fn sanitize_spec(raw: Seq<u8>) -> Seq<u8> {
    let out = sanitize_prefix(raw);
    if out.len() == 0 {
        default_biome_ids_spec()
    } else {
        out
    }
}

/// Biome sets read in order: the sets accepted so far, and the errors so far.
pub open spec fn fold_biome_sets(raws: Seq<(Seq<char>, Seq<u8>)>) -> (Seq<(Seq<char>, Seq<u8>)>, Seq<Seq<char>>)
    decreases raws.len(),
{
    if raws.len() == 0 {
        (Seq::empty(), Seq::empty())
    } else {
        let prev = fold_biome_sets(raws.drop_last());
        let id = spec_trim(raws.last().0);
        if id.len() == 0 {
            (prev.0, prev.1.push(msg_biome_empty_id()))
        } else if has_key(prev.0, id) {
            (prev.0, prev.1.push(msg_dup_biome_set(id)))
        } else {
            (prev.0.push((id, sanitize_spec(raws.last().1))), prev.1)
        }
    }
}

/// The biome sets of the configuration (a set `all` of every biome when none
/// was accepted) and the errors found in them.
pub open spec fn biome_sets_spec(raws: Seq<(Seq<char>, Seq<u8>)>) -> (Seq<(Seq<char>, Seq<u8>)>, Seq<Seq<char>>) {
    let r = fold_biome_sets(raws);
    if r.0.len() == 0 {
        (seq![("all"@, default_biome_ids_spec())], r.1)
    } else {
        r
    }
}

/// The faction of creature `id`.
pub open spec fn creature_faction_spec(creatures: Seq<(Seq<char>, Faction)>, id: Seq<char>) -> Option<Faction> {
    value_at_key(creatures, id)
}

/// Errors that naming creature `id` in the enemy pool of profile `pid` brings.
pub open spec fn enemy_check_errors(pid: Seq<char>, creatures: Seq<(Seq<char>, Faction)>, id: Seq<char>) -> Seq<Seq<char>> {
    match creature_faction_spec(creatures, id) {
        Some(Faction::Hostile) => Seq::empty(),
        Some(_) => seq![msg_not_hostile(pid, id)],
        None => seq![msg_unknown_creature(pid, id)],
    }
}

/// An enemy or structure pool read in order: merged weights and errors.
pub open spec fn fold_named_pool(
    pid: Seq<char>,
    kind: PoolKind,
    creatures: Seq<(Seq<char>, Faction)>,
    entries: Seq<(Seq<char>, u32)>,
) -> (Seq<(Seq<char>, u32)>, Seq<Seq<char>>)
    decreases entries.len(),
{
    if entries.len() == 0 {
        (Seq::empty(), Seq::empty())
    } else {
        let prev = fold_named_pool(pid, kind, creatures, entries.drop_last());
        let e = entries.last();
        let id = spec_trim(e.0);
        if id.len() == 0 {
            (prev.0, prev.1.push(msg_pool_empty_id(pid, kind)))
        } else if e.1 == 0 {
            (prev.0, prev.1.push(msg_pool_zero_weight(pid, kind, id)))
        } else {
            let errs = if kind == PoolKind::Enemy {
                prev.1 + enemy_check_errors(pid, creatures, id)
            } else {
                prev.1
            };
            (pool_add(prev.0, id, e.1), errs)
        }
    }
}

/// A drop pool read in order: merged weights per item, and errors.
pub open spec fn fold_drop_pool(pid: Seq<char>, entries: Seq<(Seq<char>, u32)>) -> (Seq<(Item, u32)>, Seq<Seq<char>>)
    decreases entries.len(),
{
    if entries.len() == 0 {
        (Seq::empty(), Seq::empty())
    } else {
        let prev = fold_drop_pool(pid, entries.drop_last());
        let e = entries.last();
        let id = spec_trim(e.0);
        if id.len() == 0 {
            (prev.0, prev.1.push(msg_pool_empty_id(pid, PoolKind::Drop)))
        } else if e.1 == 0 {
            (prev.0, prev.1.push(msg_pool_zero_weight(pid, PoolKind::Drop, id)))
        } else {
            match Item::from_key_spec(id) {
                Some(item) => (pool_add(prev.0, item, e.1), prev.1),
                None => (prev.0, prev.1.push(msg_unknown_item(pid, id))),
            }
        }
    }
}

pub open spec fn valid_map_pattern(v: Seq<char>) -> bool {
    v == "perlin"@ || v == "rogue"@
}

pub open spec fn valid_terrain_theme(v: Seq<char>) -> bool {
    v == "surface_ruin"@ || v == "burial_vein"@ || v == "research_shaft"@ || v == "litany_halls"@
}

pub open spec fn valid_stairs_mode(v: Seq<char>) -> bool {
    v == "normal"@ || v == "facility_locked"@
}

pub open spec fn valid_facility_mode(v: Seq<char>) -> bool {
    v == "none"@ || v == "substory"@
}

/// Reading one floor profile after `profiles`: the profiles afterwards, and the
/// errors this entry brings.
pub open spec fn profile_step(
    profiles: Seq<(Seq<char>, FloorProfileView)>,
    p: FloorProfileRawView,
    creatures: Seq<(Seq<char>, Faction)>,
) -> (Seq<(Seq<char>, FloorProfileView)>, Seq<Seq<char>>) {
    let id = spec_trim(p.id);
    let bs = spec_trim(p.biome_set);
    let mp = spec_lower(spec_trim(p.map_pattern));
    let tt = spec_lower(spec_trim(p.terrain_theme));
    let sm = spec_lower(spec_trim(p.stairs_mode));
    let sf = spec_lower(spec_trim(p.special_facility_mode));
    if id.len() == 0 {
        (profiles, seq![msg_profile_empty_id()])
    } else if bs.len() == 0 {
        (profiles, seq![msg_profile_empty_biome_set(id)])
    } else if !valid_map_pattern(mp) {
        (profiles, seq![msg_bad_map_pattern(id, mp)])
    } else if !valid_terrain_theme(tt) {
        (profiles, seq![msg_bad_terrain_theme(id, tt)])
    } else if !valid_stairs_mode(sm) {
        (profiles, seq![msg_bad_stairs_mode(id, sm)])
    } else if !valid_facility_mode(sf) {
        (profiles, seq![msg_bad_facility_mode(id, sf)])
    } else if has_key(profiles, id) {
        (profiles, seq![msg_dup_profile(id)])
    } else {
        let en = fold_named_pool(id, PoolKind::Enemy, creatures, p.enemy_pool);
        let dr = fold_drop_pool(id, p.drop_pool);
        let st = fold_named_pool(id, PoolKind::Structure, creatures, p.structure_pool);
        (
            profiles.push(
                (
                    id,
                    FloorProfileView {
                        biome_set: bs,
                        map_pattern: mp,
                        terrain_theme: tt,
                        stairs_mode: sm,
                        special_facility_mode: sf,
                        enemy_pool: en.0,
                        drop_pool: dr.0,
                        structure_pool: st.0,
                    },
                ),
            ),
            en.1 + dr.1 + st.1,
        )
    }
}

/// Floor profiles read in order: the accepted profiles and the errors.
pub open spec fn fold_profiles(raws: Seq<FloorProfileRawView>, creatures: Seq<(Seq<char>, Faction)>) -> (Seq<(Seq<char>, FloorProfileView)>, Seq<Seq<char>>)
    decreases raws.len(),
{
    if raws.len() == 0 {
        (Seq::empty(), Seq::empty())
    } else {
        let prev = fold_profiles(raws.drop_last(), creatures);
        let step = profile_step(prev.0, raws.last(), creatures);
        (step.0, prev.1 + step.1)
    }
}

/// The profile used when no profile was accepted.
pub open spec fn default_profile_view() -> FloorProfileView {
    FloorProfileView {
        biome_set: "all"@,
        map_pattern: "perlin"@,
        terrain_theme: "surface_ruin"@,
        stairs_mode: "normal"@,
        special_facility_mode: "none"@,
        enemy_pool: Seq::empty(),
        drop_pool: Seq::empty(),
        structure_pool: Seq::empty(),
    }
}

/// The floor profiles of the configuration.
pub open spec fn profiles_final(profiles: Seq<(Seq<char>, FloorProfileView)>) -> Seq<(Seq<char>, FloorProfileView)> {
    if profiles.len() == 0 {
        seq![("default"@, default_profile_view())]
    } else {
        profiles
    }
}

/// One error per profile whose biome set is not defined, in profile order.
pub open spec fn unknown_biome_set_errors(
    profiles: Seq<(Seq<char>, FloorProfileView)>,
    sets: Seq<(Seq<char>, Seq<u8>)>,
) -> Seq<Seq<char>>
    decreases profiles.len(),
{
    if profiles.len() == 0 {
        Seq::empty()
    } else {
        let prev = unknown_biome_set_errors(profiles.drop_last(), sets);
        let p = profiles.last();
        if has_key(sets, p.1.biome_set) {
            prev
        } else {
            prev.push(msg_unknown_biome_set(p.0, p.1.biome_set))
        }
    }
}

/// Errors of the floor ranges of dungeon `did`: a reversed range, then an
/// undefined profile, range by range.
pub open spec fn floor_errors(
    did: Seq<char>,
    floors: Seq<(u32, u32, Seq<char>)>,
    profiles: Seq<(Seq<char>, FloorProfileView)>,
) -> Seq<Seq<char>>
    decreases floors.len(),
{
    if floors.len() == 0 {
        Seq::empty()
    } else {
        let prev = floor_errors(did, floors.drop_last(), profiles);
        let f = floors.last();
        let e1: Seq<Seq<char>> = if f.0 > f.1 {
            seq![msg_bad_range(did, f.0, f.1)]
        } else {
            Seq::empty()
        };
        let e2: Seq<Seq<char>> = if !has_key(profiles, f.2) {
            seq![msg_unknown_profile(did, f.2)]
        } else {
            Seq::empty()
        };
        prev + e1 + e2
    }
}

/// Dungeons read in order: the accepted dungeons and the errors.
pub open spec fn fold_dungeons(
    raws: Seq<(Seq<char>, Seq<(u32, u32, Seq<char>)>)>,
    profiles: Seq<(Seq<char>, FloorProfileView)>,
) -> (Seq<(Seq<char>, Seq<(u32, u32, Seq<char>)>)>, Seq<Seq<char>>)
    decreases raws.len(),
{
    if raws.len() == 0 {
        (Seq::empty(), Seq::empty())
    } else {
        let prev = fold_dungeons(raws.drop_last(), profiles);
        let d = raws.last();
        let id = spec_trim(d.0);
        if id.len() == 0 {
            (prev.0, prev.1.push(msg_dungeon_empty_id()))
        } else if has_key(prev.0, id) {
            (prev.0, prev.1.push(msg_dup_dungeon(id)))
        } else {
            let e0: Seq<Seq<char>> = if d.1.len() == 0 {
                seq![msg_no_floors(id)]
            } else {
                Seq::empty()
            };
            (prev.0.push((id, d.1)), prev.1 + e0 + floor_errors(id, d.1, profiles))
        }
    }
}

/// The dungeons of the configuration.
pub open spec fn dungeons_final(dungeons: Seq<(Seq<char>, Seq<(u32, u32, Seq<char>)>)>) -> Seq<(Seq<char>, Seq<(u32, u32, Seq<char>)>)> {
    if dungeons.len() == 0 {
        seq![("default"@, seq![(1u32, u32::MAX, "default"@)])]
    } else {
        dungeons
    }
}

/// The error for an `active` dungeon that is named but not defined.
pub open spec fn active_errors(
    active: Option<Seq<char>>,
    dungeons: Seq<(Seq<char>, Seq<(u32, u32, Seq<char>)>)>,
) -> Seq<Seq<char>> {
    match active {
        Some(a) => if spec_trim(a).len() > 0 && !has_key(dungeons, a) {
            seq![msg_unknown_active(a)]
        } else {
            Seq::empty()
        },
        None => Seq::empty(),
    }
}

/// The active dungeon: the one named when it is defined, else the first.
pub open spec fn active_choice(
    active: Option<Seq<char>>,
    dungeons: Seq<(Seq<char>, Seq<(u32, u32, Seq<char>)>)>,
) -> Seq<char> {
    match active {
        Some(a) => if has_key(dungeons, a) {
            a
        } else {
            dungeons[0].0
        },
        None => dungeons[0].0,
    }
}

/// The outcome of checking the three files: the configuration when no error
/// was found, else every error in the order in which the files are read.
pub open spec fn validate_spec(
    biomes: Seq<(Seq<char>, Seq<u8>)>,
    profiles: Seq<FloorProfileRawView>,
    active: Option<Seq<char>>,
    dungeons: Seq<(Seq<char>, Seq<(u32, u32, Seq<char>)>)>,
    creatures: Seq<(Seq<char>, Faction)>,
) -> Result<DungeonConfigView, Seq<Seq<char>>> {
    let b = biome_sets_spec(biomes);
    let p = fold_profiles(profiles, creatures);
    let pf = profiles_final(p.0);
    let ub = unknown_biome_set_errors(pf, b.0);
    let d = fold_dungeons(dungeons, pf);
    let df = dungeons_final(d.0);
    let ae = active_errors(active, df);
    let errs = b.1 + p.1 + ub + d.1 + ae;
    if errs.len() == 0 {
        Ok(
            DungeonConfigView {
                active_dungeon: active_choice(active, df),
                biome_sets: b.0,
                floor_profiles: pf,
                dungeons: df,
            },
        )
    } else {
        Err(errs)
    }
}

// ---------------------------------------------------------------------------
// Keyed-list helpers
// ---------------------------------------------------------------------------

/// The keys of a string-keyed list, as plain values.
pub open spec fn str_keys<X>(v: Seq<(String, X)>) -> Seq<(Seq<char>, ())> {
    v.map_values(|p: (String, X)| (p.0@, ()))
}

/// Lists whose keys agree position by position find a key at the same place.
pub proof fn lemma_key_index_same_keys<K, A, B>(a: Seq<(K, A)>, b: Seq<(K, B)>, k: K)
    requires
        a.len() == b.len(),
        forall|i: int| 0 <= i < a.len() ==> a[i].0 == b[i].0,
    ensures
        key_index(a, k) == key_index(b, k),
    decreases a.len(),
{
    if a.len() > 0 {
        assert forall|i: int| 0 <= i < a.drop_first().len() implies a.drop_first()[i].0
            == b.drop_first()[i].0 by {
            assert(a.drop_first()[i] == a[i + 1]);
            assert(b.drop_first()[i] == b[i + 1]);
        }
        lemma_key_index_same_keys(a.drop_first(), b.drop_first(), k);
    }
}

/// Position of the first entry of `v` whose key is `k`.
fn find_key<X>(v: &Vec<(String, X)>, k: &str) -> (r: Option<usize>)
    ensures
        match r {
            Some(i) => i as int == key_index(str_keys(v@), k@),
            None => key_index(str_keys(v@), k@) < 0,
        },
{
    let ghost keys = str_keys(v@);
    let mut i: usize = 0;
    while i < v.len()
        invariant
            i <= v@.len(),
            keys == str_keys(v@),
            forall|j: int| 0 <= j < i ==> keys[j].0 != k@,
        decreases v@.len() - i,
    {
        if str_eq(v[i].0.as_str(), k) {
            proof {
                lemma_key_index_is(keys, k@, i as int);
            }
            return Some(i);
        }
        i = i + 1;
    }
    proof {
        lemma_key_index_is(keys, k@, i as int);
    }
    None
}

/// Whether `v` contains `b`.
fn contains_u8(v: &Vec<u8>, b: u8) -> (r: bool)
    ensures
        r == v@.contains(b),
{
    let mut i: usize = 0;
    while i < v.len()
        invariant
            i <= v@.len(),
            forall|j: int| 0 <= j < i ==> v@[j] != b,
        decreases v@.len() - i,
    {
        if v[i] == b {
            return true;
        }
        i = i + 1;
    }
    false
}

// ---------------------------------------------------------------------------
// Message text
// ---------------------------------------------------------------------------

fn text(s: &str) -> (r: String)
    ensures
        r@ == s@,
{
    String::from_str(s)
}

fn text2(a: &str, b: &str) -> (r: String)
    ensures
        r@ == a@ + b@,
{
    let mut s = String::from_str(a);
    s.append(b);
    s
}

fn text3(a: &str, b: &str, c: &str) -> (r: String)
    ensures
        r@ == a@ + b@ + c@,
{
    let mut s = String::from_str(a);
    s.append(b);
    s.append(c);
    s
}

fn text5(a: &str, b: &str, c: &str, d: &str, e: &str) -> (r: String)
    ensures
        r@ == a@ + b@ + c@ + d@ + e@,
{
    let mut s = String::from_str(a);
    s.append(b);
    s.append(c);
    s.append(d);
    s.append(e);
    s
}

fn pool_name_str(kind: PoolKind) -> (r: &'static str)
    ensures
        r@ == pool_name(kind),
{
    match kind {
        PoolKind::Enemy => "enemy_pool",
        PoolKind::Drop => "drop_pool",
        PoolKind::Structure => "structure_pool",
    }
}

fn push_msg(errors: &mut Vec<String>, m: String)
    ensures
        strs_view(final(errors)@) == strs_view(old(errors)@).push(m@),
{
    errors.push(m);
    assert(strs_view(errors@) =~= strs_view(old(errors)@).push(m@));
}

// ---------------------------------------------------------------------------
// Biome sets
// ---------------------------------------------------------------------------

/// The biome ids `0..=15`.
pub fn default_biome_ids() -> (v: Vec<u8>)
    ensures
        v@ == default_biome_ids_spec(),
{
    let mut v: Vec<u8> = Vec::new();
    let mut b: u8 = 0;
    while b <= 15
        invariant
            b <= 16,
            v@ == default_biome_ids_spec().subrange(0, b as int),
        decreases 16 - b,
    {
        v.push(b);
        assert(v@ =~= default_biome_ids_spec().subrange(0, b + 1));
        b = b + 1;
    }
    assert(v@ =~= default_biome_ids_spec());
    v
}

/// The valid (`<= 15`) distinct ids of `raw` in first-occurrence order, or all
/// ids when `raw` has none.
pub fn sanitize_biomes(raw: &[u8]) -> (v: Vec<u8>)
    ensures
        v@ == sanitize_spec(raw@),
{
    let mut out: Vec<u8> = Vec::new();
    let mut i: usize = 0;
    while i < raw.len()
        invariant
            i <= raw@.len(),
            out@ == sanitize_prefix(raw@.subrange(0, i as int)),
        decreases raw@.len() - i,
    {
        let b = raw[i];
        assert(raw@.subrange(0, i + 1).drop_last() =~= raw@.subrange(0, i as int));
        if b <= 15 && !contains_u8(&out, b) {
            out.push(b);
        }
        i = i + 1;
    }
    assert(raw@.subrange(0, raw@.len() as int) =~= raw@);
    if out.len() == 0 {
        default_biome_ids()
    } else {
        out
    }
}

fn build_biome_sets(raws: &Vec<BiomeSetRaw>, errors: &mut Vec<String>) -> (sets: Vec<(String, Vec<u8>)>)
    ensures
        biome_sets_view(sets@) == biome_sets_spec(biome_sets_raw_view(raws@)).0,
        strs_view(final(errors)@) == strs_view(old(errors)@) + biome_sets_spec(
            biome_sets_raw_view(raws@),
        ).1,
{
    let ghost rv = biome_sets_raw_view(raws@);
    let mut sets: Vec<(String, Vec<u8>)> = Vec::new();
    let mut i: usize = 0;
    assert(strs_view(errors@) =~= strs_view(old(errors)@) + fold_biome_sets(rv.subrange(0, 0)).1);
    while i < raws.len()
        invariant
            i <= raws@.len(),
            rv == biome_sets_raw_view(raws@),
            biome_sets_view(sets@) == fold_biome_sets(rv.subrange(0, i as int)).0,
            strs_view(errors@) == strs_view(old(errors)@) + fold_biome_sets(
                rv.subrange(0, i as int),
            ).1,
        decreases raws@.len() - i,
    {
        let ghost pre = rv.subrange(0, i as int);
        assert(rv.subrange(0, i + 1).drop_last() =~= pre);
        assert(rv.subrange(0, i + 1).last() == rv[i as int]);
        let ghost prev = fold_biome_sets(pre);
        let id = trim_string(raws[i].id.as_str());
        if id.as_str().unicode_len() == 0 {
            push_msg(errors, text("biome_sets has an entry with empty id"));
        } else {
            let found = find_key(&sets, id.as_str());
            proof {
                lemma_key_index_same_keys(str_keys(sets@), biome_sets_view(sets@), id@);
            }
            if found.is_some() {
                push_msg(errors, text3("duplicate biome_set id: '", id.as_str(), "'"));
            } else {
                let biomes = sanitize_biomes(raws[i].biomes.as_slice());
                let ghost idv = id@;
                sets.push((id, biomes));
                assert(biome_sets_view(sets@) =~= prev.0.push((idv, sanitize_spec(rv[i as int].1))));
            }
        }
        proof {
            assert(strs_view(errors@) =~= strs_view(old(errors)@) + fold_biome_sets(
                rv.subrange(0, i + 1),
            ).1);
        }
        i = i + 1;
    }
    assert(rv.subrange(0, raws@.len() as int) =~= rv);
    if sets.len() == 0 {
        let all = text("all");
        let ids = default_biome_ids();
        sets.push((all, ids));
        assert(biome_sets_view(sets@) =~= seq![("all"@, default_biome_ids_spec())]);
    }
    sets
}

// ---------------------------------------------------------------------------
// Floor profiles
// ---------------------------------------------------------------------------

/// The faction of creature `id` among `creatures`.
fn lookup_faction(creatures: &[CreatureFaction], id: &str) -> (r: Option<Faction>)
    ensures
        r == creature_faction_spec(creatures_view(creatures@), id@),
{
    let ghost cv = creatures_view(creatures@);
    let mut i: usize = 0;
    while i < creatures.len()
        invariant
            i <= creatures@.len(),
            cv == creatures_view(creatures@),
            forall|j: int| 0 <= j < i ==> cv[j].0 != id@,
        decreases creatures@.len() - i,
    {
        if str_eq(creatures[i].id.as_str(), id) {
            proof {
                lemma_key_index_is(cv, id@, i as int);
            }
            return Some(creatures[i].faction);
        }
        i = i + 1;
    }
    proof {
        lemma_key_index_is(cv, id@, i as int);
    }
    None
}

/// Adds `w` to the weight of `id` in `pool`, or appends `(id, w)`.
fn add_named_weight(pool: &mut Vec<(String, u32)>, id: String, w: u32)
    ensures
        named_pool_view(final(pool)@) == pool_add(named_pool_view(old(pool)@), id@, w),
{
    let found = find_key(pool, id.as_str());
    proof {
        lemma_key_index_same_keys(str_keys(pool@), named_pool_view(pool@), id@);
        lemma_key_index(str_keys(pool@), id@);
    }
    match found {
        Some(k) => {
            let old_w = pool[k].1;
            let ghost idv = id@;
            pool.set(k, (id, old_w.saturating_add(w)));
            assert(named_pool_view(pool@) =~= named_pool_view(old(pool)@).update(
                k as int,
                (idv, old_w.saturating_add(w)),
            ));
        },
        None => {
            let ghost idv = id@;
            pool.push((id, w));
            assert(named_pool_view(pool@) =~= named_pool_view(old(pool)@).push((idv, w)));
        },
    }
}

/// Adds `w` to the weight of `item` in `pool`, or appends `(item, w)`.
fn add_item_weight(pool: &mut Vec<(Item, u32)>, item: Item, w: u32)
    ensures
        final(pool)@ == pool_add(old(pool)@, item, w),
{
    let mut i: usize = 0;
    while i < pool.len()
        invariant
            i <= pool@.len(),
            pool@ == old(pool)@,
            forall|j: int| 0 <= j < i ==> pool@[j].0 != item,
        decreases pool@.len() - i,
    {
        if pool[i].0 == item {
            proof {
                lemma_key_index_is(pool@, item, i as int);
            }
            let old_w = pool[i].1;
            pool.set(i, (item, old_w.saturating_add(w)));
            return;
        }
        i = i + 1;
    }
    proof {
        lemma_key_index_is(pool@, item, i as int);
    }
    pool.push((item, w));
}

fn build_named_pool(
    pid: &str,
    kind: PoolKind,
    creatures: &[CreatureFaction],
    entries: &Vec<WeightedEntryRaw>,
    errors: &mut Vec<String>,
) -> (pool: Vec<(String, u32)>)
    requires
        kind != PoolKind::Drop,
    ensures
        named_pool_view(pool@) == fold_named_pool(
            pid@,
            kind,
            creatures_view(creatures@),
            weighted_view(entries@),
        ).0,
        strs_view(final(errors)@) == strs_view(old(errors)@) + fold_named_pool(
            pid@,
            kind,
            creatures_view(creatures@),
            weighted_view(entries@),
        ).1,
{
    let ghost cv = creatures_view(creatures@);
    let ghost ev = weighted_view(entries@);
    let mut pool: Vec<(String, u32)> = Vec::new();
    let mut i: usize = 0;
    assert(strs_view(errors@) =~= strs_view(old(errors)@) + fold_named_pool(
        pid@,
        kind,
        cv,
        ev.subrange(0, 0),
    ).1);
    while i < entries.len()
        invariant
            i <= entries@.len(),
            kind != PoolKind::Drop,
            cv == creatures_view(creatures@),
            ev == weighted_view(entries@),
            named_pool_view(pool@) == fold_named_pool(pid@, kind, cv, ev.subrange(0, i as int)).0,
            strs_view(errors@) == strs_view(old(errors)@) + fold_named_pool(
                pid@,
                kind,
                cv,
                ev.subrange(0, i as int),
            ).1,
        decreases entries@.len() - i,
    {
        let ghost pre = ev.subrange(0, i as int);
        assert(ev.subrange(0, i + 1).drop_last() =~= pre);
        assert(ev.subrange(0, i + 1).last() == ev[i as int]);
        let ghost prev = fold_named_pool(pid@, kind, cv, pre);
        let ghost errs0 = strs_view(errors@);
        let id = trim_string(entries[i].id.as_str());
        let w = entries[i].weight;
        if id.as_str().unicode_len() == 0 {
            push_msg(errors, text5("floor_profile '", pid, "' has ", pool_name_str(kind), " entry with empty id"));
        } else if w == 0 {
            let mut m = text5("floor_profile '", pid, "' ", pool_name_str(kind), " '");
            m.append(id.as_str());
            m.append("' has zero weight");
            push_msg(errors, m);
        } else {
            if kind == PoolKind::Enemy {
                match lookup_faction(creatures, id.as_str()) {
                    Some(Faction::Hostile) => {},
                    Some(_) => {
                        push_msg(errors, text5("floor_profile '", pid, "' enemy_pool '", id.as_str(), "' is not hostile"));
                    },
                    None => {
                        push_msg(errors, text5("floor_profile '", pid, "' enemy_pool references unknown creature '", id.as_str(), "'"));
                    },
                }
            }
            proof {
                if kind == PoolKind::Enemy {
                    assert(strs_view(errors@) =~= errs0 + enemy_check_errors(pid@, cv, id@));
                }
            }
            add_named_weight(&mut pool, id, w);
        }
        proof {
            assert(strs_view(errors@) =~= strs_view(old(errors)@) + fold_named_pool(
                pid@,
                kind,
                cv,
                ev.subrange(0, i + 1),
            ).1);
        }
        i = i + 1;
    }
    assert(ev.subrange(0, entries@.len() as int) =~= ev);
    pool
}

fn build_drop_pool(pid: &str, entries: &Vec<WeightedEntryRaw>, errors: &mut Vec<String>) -> (pool: Vec<(Item, u32)>)
    ensures
        pool@ == fold_drop_pool(pid@, weighted_view(entries@)).0,
        strs_view(final(errors)@) == strs_view(old(errors)@) + fold_drop_pool(
            pid@,
            weighted_view(entries@),
        ).1,
{
    let ghost ev = weighted_view(entries@);
    let mut pool: Vec<(Item, u32)> = Vec::new();
    let mut i: usize = 0;
    assert(strs_view(errors@) =~= strs_view(old(errors)@) + fold_drop_pool(pid@, ev.subrange(0, 0)).1);
    while i < entries.len()
        invariant
            i <= entries@.len(),
            ev == weighted_view(entries@),
            pool@ == fold_drop_pool(pid@, ev.subrange(0, i as int)).0,
            strs_view(errors@) == strs_view(old(errors)@) + fold_drop_pool(
                pid@,
                ev.subrange(0, i as int),
            ).1,
        decreases entries@.len() - i,
    {
        let ghost pre = ev.subrange(0, i as int);
        assert(ev.subrange(0, i + 1).drop_last() =~= pre);
        assert(ev.subrange(0, i + 1).last() == ev[i as int]);
        let id = trim_string(entries[i].id.as_str());
        let w = entries[i].weight;
        if id.as_str().unicode_len() == 0 {
            push_msg(errors, text5("floor_profile '", pid, "' has ", pool_name_str(PoolKind::Drop), " entry with empty id"));
        } else if w == 0 {
            let mut m = text5("floor_profile '", pid, "' ", pool_name_str(PoolKind::Drop), " '");
            m.append(id.as_str());
            m.append("' has zero weight");
            push_msg(errors, m);
        } else {
            match Item::from_key(id.as_str()) {
                Some(item) => {
                    add_item_weight(&mut pool, item, w);
                },
                None => {
                    push_msg(errors, text5("floor_profile '", pid, "' drop_pool references unknown item '", id.as_str(), "'"));
                },
            }
        }
        proof {
            assert(strs_view(errors@) =~= strs_view(old(errors)@) + fold_drop_pool(
                pid@,
                ev.subrange(0, i + 1),
            ).1);
        }
        i = i + 1;
    }
    assert(ev.subrange(0, entries@.len() as int) =~= ev);
    pool
}

/// Whether `v` is an accepted value of a profile field.
fn is_one_of2(v: &str, a: &str, b: &str) -> (r: bool)
    ensures
        r == (v@ == a@ || v@ == b@),
{
    str_eq(v, a) || str_eq(v, b)
}

fn build_floor_profiles(
    raws: &Vec<FloorProfileRaw>,
    creatures: &[CreatureFaction],
    errors: &mut Vec<String>,
) -> (profiles: Vec<(String, FloorProfile)>)
    ensures
        profiles_view(profiles@) == fold_profiles(
            profiles_raw_view(raws@),
            creatures_view(creatures@),
        ).0,
        strs_view(final(errors)@) == strs_view(old(errors)@) + fold_profiles(
            profiles_raw_view(raws@),
            creatures_view(creatures@),
        ).1,
{
    let ghost cv = creatures_view(creatures@);
    let ghost rv = profiles_raw_view(raws@);
    let mut profiles: Vec<(String, FloorProfile)> = Vec::new();
    let mut i: usize = 0;
    assert(strs_view(errors@) =~= strs_view(old(errors)@) + fold_profiles(rv.subrange(0, 0), cv).1);
    while i < raws.len()
        invariant
            i <= raws@.len(),
            cv == creatures_view(creatures@),
            rv == profiles_raw_view(raws@),
            profiles_view(profiles@) == fold_profiles(rv.subrange(0, i as int), cv).0,
            strs_view(errors@) == strs_view(old(errors)@) + fold_profiles(
                rv.subrange(0, i as int),
                cv,
            ).1,
        decreases raws@.len() - i,
    {
        let ghost pre = rv.subrange(0, i as int);
        assert(rv.subrange(0, i + 1).drop_last() =~= pre);
        assert(rv.subrange(0, i + 1).last() == rv[i as int]);
        let ghost prev = fold_profiles(pre, cv);
        let ghost errs0 = strs_view(errors@);
        let ghost step = profile_step(prev.0, rv[i as int], cv);
        let p = &raws[i];
        let id = trim_string(p.id.as_str());
        let bs = trim_string(p.biome_set.as_str());
        let mp = string_from_chars(&trim_lower(p.map_pattern.as_str()));
        let tt = string_from_chars(&trim_lower(p.terrain_theme.as_str()));
        let sm = string_from_chars(&trim_lower(p.stairs_mode.as_str()));
        let sf = string_from_chars(&trim_lower(p.special_facility_mode.as_str()));
        if id.as_str().unicode_len() == 0 {
            push_msg(errors, text("floor_profiles has an entry with empty id"));
        } else if bs.as_str().unicode_len() == 0 {
            push_msg(errors, text3("floor_profile '", id.as_str(), "' has empty biome_set"));
        } else if !is_one_of2(mp.as_str(), "perlin", "rogue") {
            push_msg(
                errors,
                text5(
                    "floor_profile '",
                    id.as_str(),
                    "' has invalid map_pattern '",
                    mp.as_str(),
                    "' (expected 'perlin' or 'rogue')",
                ),
            );
        } else if !(is_one_of2(tt.as_str(), "surface_ruin", "burial_vein") || is_one_of2(
            tt.as_str(),
            "research_shaft",
            "litany_halls",
        )) {
            push_msg(errors, text5("floor_profile '", id.as_str(), "' has invalid terrain_theme '", tt.as_str(), "'"));
        } else if !is_one_of2(sm.as_str(), "normal", "facility_locked") {
            push_msg(errors, text5("floor_profile '", id.as_str(), "' has invalid stairs_mode '", sm.as_str(), "'"));
        } else if !is_one_of2(sf.as_str(), "none", "substory") {
            push_msg(
                errors,
                text5("floor_profile '", id.as_str(), "' has invalid special_facility_mode '", sf.as_str(), "'"),
            );
        } else {
            let found = find_key(&profiles, id.as_str());
            proof {
                lemma_key_index_same_keys(str_keys(profiles@), profiles_view(profiles@), id@);
            }
            if found.is_some() {
                push_msg(errors, text3("duplicate floor_profile id: '", id.as_str(), "'"));
            } else {
                let en = build_named_pool(id.as_str(), PoolKind::Enemy, creatures, &p.enemy_pool, errors);
                let ghost errs1 = strs_view(errors@);
                let dr = build_drop_pool(id.as_str(), &p.drop_pool, errors);
                let ghost errs2 = strs_view(errors@);
                let st = build_named_pool(id.as_str(), PoolKind::Structure, creatures, &p.structure_pool, errors);
                let profile = FloorProfile {
                    biome_set: bs,
                    map_pattern: mp,
                    terrain_theme: tt,
                    stairs_mode: sm,
                    special_facility_mode: sf,
                    enemy_pool: en,
                    drop_pool: dr,
                    structure_pool: st,
                };
                let ghost pv = profile.view_spec();
                let ghost idv = id@;
                profiles.push((id, profile));
                assert(profiles_view(profiles@) =~= prev.0.push((idv, pv)));
                assert(strs_view(errors@) =~= errs0 + step.1);
            }
        }
        proof {
            assert(strs_view(errors@) =~= strs_view(old(errors)@) + fold_profiles(
                rv.subrange(0, i + 1),
                cv,
            ).1);
        }
        i = i + 1;
    }
    assert(rv.subrange(0, raws@.len() as int) =~= rv);
    profiles
}

/// The profile used when the profiles file accepts none.
fn default_floor_profile() -> (p: FloorProfile)
    ensures
        p.view_spec() == default_profile_view(),
{
    let p = FloorProfile {
        biome_set: text("all"),
        map_pattern: text("perlin"),
        terrain_theme: text("surface_ruin"),
        stairs_mode: text("normal"),
        special_facility_mode: text("none"),
        enemy_pool: Vec::new(),
        drop_pool: Vec::new(),
        structure_pool: Vec::new(),
    };
    assert(named_pool_view(p.enemy_pool@) =~= Seq::empty());
    assert(named_pool_view(p.structure_pool@) =~= Seq::empty());
    p
}

fn check_profile_biome_sets(
    profiles: &Vec<(String, FloorProfile)>,
    sets: &Vec<(String, Vec<u8>)>,
    errors: &mut Vec<String>,
)
    ensures
        strs_view(final(errors)@) == strs_view(old(errors)@) + unknown_biome_set_errors(
            profiles_view(profiles@),
            biome_sets_view(sets@),
        ),
{
    let ghost pv = profiles_view(profiles@);
    let mut i: usize = 0;
    assert(strs_view(errors@) =~= strs_view(old(errors)@) + unknown_biome_set_errors(
        pv.subrange(0, 0),
        biome_sets_view(sets@),
    ));
    while i < profiles.len()
        invariant
            i <= profiles@.len(),
            pv == profiles_view(profiles@),
            strs_view(errors@) == strs_view(old(errors)@) + unknown_biome_set_errors(
                pv.subrange(0, i as int),
                biome_sets_view(sets@),
            ),
        decreases profiles@.len() - i,
    {
        assert(pv.subrange(0, i + 1).drop_last() =~= pv.subrange(0, i as int));
        assert(pv.subrange(0, i + 1).last() == pv[i as int]);
        let bs = profiles[i].1.biome_set.as_str();
        let found = find_key(sets, bs);
        proof {
            lemma_key_index_same_keys(str_keys(sets@), biome_sets_view(sets@), bs@);
        }
        if found.is_none() {
            push_msg(
                errors,
                text5("floor_profile '", profiles[i].0.as_str(), "' references unknown biome_set '", bs, "'"),
            );
        }
        proof {
            assert(strs_view(errors@) =~= strs_view(old(errors)@) + unknown_biome_set_errors(
                pv.subrange(0, i + 1),
                biome_sets_view(sets@),
            ));
        }
        i = i + 1;
    }
    assert(pv.subrange(0, profiles@.len() as int) =~= pv);
}

// ---------------------------------------------------------------------------
// Dungeons
// ---------------------------------------------------------------------------

fn check_floor_ranges(
    did: &str,
    floors: &Vec<DungeonFloorRaw>,
    profiles: &Vec<(String, FloorProfile)>,
    errors: &mut Vec<String>,
)
    ensures
        strs_view(final(errors)@) == strs_view(old(errors)@) + floor_errors(
            did@,
            floors_view(floors@),
            profiles_view(profiles@),
        ),
{
    let ghost fv = floors_view(floors@);
    let ghost pv = profiles_view(profiles@);
    let mut i: usize = 0;
    assert(strs_view(errors@) =~= strs_view(old(errors)@) + floor_errors(did@, fv.subrange(0, 0), pv));
    while i < floors.len()
        invariant
            i <= floors@.len(),
            fv == floors_view(floors@),
            pv == profiles_view(profiles@),
            strs_view(errors@) == strs_view(old(errors)@) + floor_errors(
                did@,
                fv.subrange(0, i as int),
                pv,
            ),
        decreases floors@.len() - i,
    {
        assert(fv.subrange(0, i + 1).drop_last() =~= fv.subrange(0, i as int));
        assert(fv.subrange(0, i + 1).last() == fv[i as int]);
        let ghost errs0 = strs_view(errors@);
        let f = &floors[i];
        if f.min > f.max {
            let mut m = text3("dungeon '", did, "' has invalid floor range: min ");
            let a = decimal_string(f.min);
            m.append(a.as_str());
            m.append(" > max ");
            let b = decimal_string(f.max);
            m.append(b.as_str());
            push_msg(errors, m);
        }
        let ghost errs1 = strs_view(errors@);
        let found = find_key(profiles, f.floor_profile.as_str());
        proof {
            lemma_key_index_same_keys(str_keys(profiles@), pv, f.floor_profile@);
        }
        if found.is_none() {
            push_msg(
                errors,
                text5("dungeon '", did, "' references unknown floor_profile '", f.floor_profile.as_str(), "'"),
            );
        }
        proof {
            assert(strs_view(errors@) =~= strs_view(old(errors)@) + floor_errors(
                did@,
                fv.subrange(0, i + 1),
                pv,
            ));
        }
        i = i + 1;
    }
    assert(fv.subrange(0, floors@.len() as int) =~= fv);
}

fn clone_floors(floors: &Vec<DungeonFloorRaw>) -> (r: Vec<DungeonFloorRaw>)
    ensures
        floors_view(r@) == floors_view(floors@),
{
    let mut out: Vec<DungeonFloorRaw> = Vec::new();
    let mut i: usize = 0;
    while i < floors.len()
        invariant
            i <= floors@.len(),
            floors_view(out@) == floors_view(floors@).subrange(0, i as int),
        decreases floors@.len() - i,
    {
        let f = DungeonFloorRaw {
            min: floors[i].min,
            max: floors[i].max,
            floor_profile: floors[i].floor_profile.clone(),
        };
        assert(f.floor_profile@ == floors@[i as int].floor_profile@);
        let ghost before = out@;
        out.push(f);
        assert(floors_view(out@) =~= floors_view(before).push(
            (floors@[i as int].min, floors@[i as int].max, floors@[i as int].floor_profile@),
        ));
        assert(floors_view(out@) =~= floors_view(floors@).subrange(0, i + 1));
        i = i + 1;
    }
    assert(floors_view(floors@).subrange(0, floors@.len() as int) =~= floors_view(floors@));
    out
}

fn build_dungeons(
    raws: &Vec<DungeonRaw>,
    profiles: &Vec<(String, FloorProfile)>,
    errors: &mut Vec<String>,
) -> (dungeons: Vec<(String, Vec<DungeonFloorRaw>)>)
    ensures
        dungeons_view(dungeons@) == fold_dungeons(
            dungeons_raw_view(raws@),
            profiles_view(profiles@),
        ).0,
        strs_view(final(errors)@) == strs_view(old(errors)@) + fold_dungeons(
            dungeons_raw_view(raws@),
            profiles_view(profiles@),
        ).1,
{
    let ghost rv = dungeons_raw_view(raws@);
    let ghost pv = profiles_view(profiles@);
    let mut dungeons: Vec<(String, Vec<DungeonFloorRaw>)> = Vec::new();
    let mut i: usize = 0;
    assert(strs_view(errors@) =~= strs_view(old(errors)@) + fold_dungeons(rv.subrange(0, 0), pv).1);
    while i < raws.len()
        invariant
            i <= raws@.len(),
            rv == dungeons_raw_view(raws@),
            pv == profiles_view(profiles@),
            dungeons_view(dungeons@) == fold_dungeons(rv.subrange(0, i as int), pv).0,
            strs_view(errors@) == strs_view(old(errors)@) + fold_dungeons(
                rv.subrange(0, i as int),
                pv,
            ).1,
        decreases raws@.len() - i,
    {
        let ghost pre = rv.subrange(0, i as int);
        assert(rv.subrange(0, i + 1).drop_last() =~= pre);
        assert(rv.subrange(0, i + 1).last() == rv[i as int]);
        let ghost prev = fold_dungeons(pre, pv);
        let ghost errs0 = strs_view(errors@);
        let d = &raws[i];
        let id = trim_string(d.id.as_str());
        if id.as_str().unicode_len() == 0 {
            push_msg(errors, text("dungeons has an entry with empty id"));
        } else {
            let found = find_key(&dungeons, id.as_str());
            proof {
                lemma_key_index_same_keys(str_keys(dungeons@), dungeons_view(dungeons@), id@);
            }
            if found.is_some() {
                push_msg(errors, text3("duplicate dungeon id: '", id.as_str(), "'"));
            } else {
                if d.floors.len() == 0 {
                    push_msg(errors, text3("dungeon '", id.as_str(), "' has no floors"));
                }
                let ghost errs1 = strs_view(errors@);
                check_floor_ranges(id.as_str(), &d.floors, profiles, errors);
                let floors = clone_floors(&d.floors);
                let ghost idv = id@;
                dungeons.push((id, floors));
                assert(dungeons_view(dungeons@) =~= prev.0.push((idv, floors_view(d.floors@))));
            }
        }
        proof {
            assert(strs_view(errors@) =~= strs_view(old(errors)@) + fold_dungeons(
                rv.subrange(0, i + 1),
                pv,
            ).1);
        }
        i = i + 1;
    }
    assert(rv.subrange(0, raws@.len() as int) =~= rv);
    dungeons
}

/// An optional string as plain characters.
pub open spec fn opt_str_view(o: &Option<String>) -> Option<Seq<char>> {
    match o {
        Some(a) => Some(a@),
        None => None,
    }
}

// ---------------------------------------------------------------------------
// The whole check
// ---------------------------------------------------------------------------

/// Checks the three configuration files against each other and against the
/// creature definitions. Yields the configuration, or every error found.
pub fn validate_and_build(
    biomes_raw: BiomesFile,
    floors_raw: FloorsFile,
    dungeons_raw: DungeonsFile,
    creatures: &[CreatureFaction],
) -> (r: Result<DungeonConfig, Vec<String>>)
    ensures
        match r {
            Ok(cfg) => validate_spec(
                biome_sets_raw_view(biomes_raw.biome_sets@),
                profiles_raw_view(floors_raw.floor_profiles@),
                opt_str_view(&dungeons_raw.active),
                dungeons_raw_view(dungeons_raw.dungeons@),
                creatures_view(creatures@),
            ) == Ok::<DungeonConfigView, Seq<Seq<char>>>(cfg.view_spec()),
            Err(errs) => validate_spec(
                biome_sets_raw_view(biomes_raw.biome_sets@),
                profiles_raw_view(floors_raw.floor_profiles@),
                opt_str_view(&dungeons_raw.active),
                dungeons_raw_view(dungeons_raw.dungeons@),
                creatures_view(creatures@),
            ) == Err::<DungeonConfigView, Seq<Seq<char>>>(strs_view(errs@)),
        },
{
    let ghost active_v = opt_str_view(&dungeons_raw.active);
    let ghost cv = creatures_view(creatures@);
    let mut errors: Vec<String> = Vec::new();
    assert(strs_view(errors@) =~= Seq::<Seq<char>>::empty());

    let biome_sets = build_biome_sets(&biomes_raw.biome_sets, &mut errors);
    let ghost e1 = strs_view(errors@);

    let mut floor_profiles = build_floor_profiles(&floors_raw.floor_profiles, creatures, &mut errors);
    let ghost e2 = strs_view(errors@);
    if floor_profiles.len() == 0 {
        let d = default_floor_profile();
        floor_profiles.push((text("default"), d));
        assert(profiles_view(floor_profiles@) =~= seq![("default"@, default_profile_view())]);
    }
    check_profile_biome_sets(&floor_profiles, &biome_sets, &mut errors);
    let ghost e3 = strs_view(errors@);

    let mut dungeons = build_dungeons(&dungeons_raw.dungeons, &floor_profiles, &mut errors);
    let ghost e4 = strs_view(errors@);
    if dungeons.len() == 0 {
        let mut floors: Vec<DungeonFloorRaw> = Vec::new();
        floors.push(DungeonFloorRaw { min: 1, max: u32::MAX, floor_profile: text("default") });
        dungeons.push((text("default"), floors));
        assert(floors_view(floors@) =~= seq![(1u32, u32::MAX, "default"@)]);
        assert(dungeons_view(dungeons@) =~= seq![("default"@, seq![(1u32, u32::MAX, "default"@)])]);
    }
    let ghost df = dungeons_view(dungeons@);

    let mut active_idx: usize = 0;
    match &dungeons_raw.active {
        Some(active) => {
            let found = find_key(&dungeons, active.as_str());
            proof {
                lemma_key_index_same_keys(str_keys(dungeons@), df, active@);
                lemma_key_index(df, active@);
            }
            let trimmed = trim_string(active.as_str());
            if trimmed.as_str().unicode_len() > 0 && found.is_none() {
                push_msg(&mut errors, text3("active dungeon '", active.as_str(), "' is not defined"));
                assert(strs_view(errors@) =~= e4 + active_errors(active_v, df));
            } else {
                assert(strs_view(errors@) =~= e4 + active_errors(active_v, df));
            }
            if let Some(k) = found {
                active_idx = k;
            }
        },
        None => {
            assert(strs_view(errors@) =~= e4 + active_errors(active_v, df));
        },
    }
    let ghost e5 = strs_view(errors@);
    proof {
        let b = biome_sets_spec(biome_sets_raw_view(biomes_raw.biome_sets@));
        let p = fold_profiles(profiles_raw_view(floors_raw.floor_profiles@), cv);
        let pf = profiles_final(p.0);
        let ub = unknown_biome_set_errors(pf, b.0);
        let d = fold_dungeons(dungeons_raw_view(dungeons_raw.dungeons@), pf);
        let ae = active_errors(active_v, df);
        assert(e1 =~= b.1);
        assert(e5 =~= e4 + ae);
        assert(e5 =~= b.1 + p.1 + ub + d.1 + ae);
    }

    if errors.len() > 0 {
        return Err(errors);
    }
    let active_dungeon = dungeons[active_idx].0.clone();
    Ok(DungeonConfig { active_dungeon, biome_sets, floor_profiles, dungeons })
}

// ---------------------------------------------------------------------------
// Per-floor lookups
// ---------------------------------------------------------------------------

/// The profile named by the first range of `floors` that holds `floor`.
pub open spec fn range_profile(floors: Seq<(u32, u32, Seq<char>)>, floor: u32) -> Option<Seq<char>>
    decreases floors.len(),
{
    if floors.len() == 0 {
        None
    } else if floors[0].0 <= floor <= floors[0].1 {
        Some(floors[0].2)
    } else {
        range_profile(floors.drop_first(), floor)
    }
}

/// The profile that the active dungeon uses on `floor`, if any.
pub open spec fn profile_for_floor_spec(cfg: DungeonConfigView, floor: u32) -> Option<FloorProfileView> {
    match value_at_key(cfg.dungeons, cfg.active_dungeon) {
        Some(floors) => match range_profile(floors, floor) {
            Some(p) => value_at_key(cfg.floor_profiles, p),
            None => None,
        },
        None => None,
    }
}

impl DungeonConfig {
    /// The floor profile named `id`, if the configuration has one.
    pub fn floor_profile(&self, id: &str) -> (r: Option<&FloorProfile>)
        ensures
            match r {
                Some(p) => value_at_key(self.view_spec().floor_profiles, id@) == Some(p.view_spec()),
                None => !has_key(self.view_spec().floor_profiles, id@),
            },
    {
        let ghost cv = self.view_spec();
        let k = find_key(&self.floor_profiles, id);
        proof {
            lemma_key_index_same_keys(str_keys(self.floor_profiles@), cv.floor_profiles, id@);
            lemma_key_index(cv.floor_profiles, id@);
        }
        match k {
            Some(i) => Some(&self.floor_profiles[i].1),
            None => None,
        }
    }
}

/// The profile that the active dungeon uses on `floor`, if any.
pub fn profile_for_floor(cfg: &DungeonConfig, floor: u32) -> (r: Option<&FloorProfile>)
    ensures
        match r {
            Some(p) => profile_for_floor_spec(cfg.view_spec(), floor) == Some(p.view_spec()),
            None => profile_for_floor_spec(cfg.view_spec(), floor) is None,
        },
{
    let ghost cv = cfg.view_spec();
    let found = find_key(&cfg.dungeons, cfg.active_dungeon.as_str());
    proof {
        lemma_key_index_same_keys(str_keys(cfg.dungeons@), cv.dungeons, cv.active_dungeon);
        lemma_key_index(cv.dungeons, cv.active_dungeon);
    }
    let d = match found {
        Some(d) => d,
        None => {
            return None;
        },
    };
    let entries = &cfg.dungeons[d].1;
    let ghost fv = floors_view(entries@);
    assert(fv == cv.dungeons[d as int].1);
    assert(value_at_key(cv.dungeons, cv.active_dungeon) == Some(fv));
    assert(fv.subrange(0, fv.len() as int) =~= fv);
    let mut i: usize = 0;
    while i < entries.len()
        invariant
            i <= entries@.len(),
            cv == cfg.view_spec(),
            value_at_key(cv.dungeons, cv.active_dungeon) == Some(fv),
            fv == floors_view(entries@),
            range_profile(fv, floor) == range_profile(fv.subrange(i as int, fv.len() as int), floor),
        decreases entries@.len() - i,
    {
        let ghost rest = fv.subrange(i as int, fv.len() as int);
        assert(rest.drop_first() =~= fv.subrange(i + 1, fv.len() as int));
        assert(rest[0] == fv[i as int]);
        let e = &entries[i];
        if floor >= e.min && floor <= e.max {
            let p = find_key(&cfg.floor_profiles, e.floor_profile.as_str());
            proof {
                lemma_key_index_same_keys(str_keys(cfg.floor_profiles@), cv.floor_profiles, e.floor_profile@);
                lemma_key_index(cv.floor_profiles, e.floor_profile@);
            }
            return match p {
                Some(k) => Some(&cfg.floor_profiles[k].1),
                None => None,
            };
        }
        i = i + 1;
    }
    assert(fv.subrange(i as int, fv.len() as int).len() == 0);
    None
}

fn clone_named_pool(pool: &Vec<(String, u32)>) -> (r: Vec<(String, u32)>)
    ensures
        named_pool_view(r@) == named_pool_view(pool@),
{
    let mut out: Vec<(String, u32)> = Vec::new();
    let mut i: usize = 0;
    while i < pool.len()
        invariant
            i <= pool@.len(),
            named_pool_view(out@) == named_pool_view(pool@).subrange(0, i as int),
        decreases pool@.len() - i,
    {
        let name = pool[i].0.clone();
        let ghost before = out@;
        out.push((name, pool[i].1));
        assert(named_pool_view(out@) =~= named_pool_view(before).push((pool@[i as int].0@, pool@[i as int].1)));
        assert(named_pool_view(out@) =~= named_pool_view(pool@).subrange(0, i + 1));
        i = i + 1;
    }
    assert(named_pool_view(pool@).subrange(0, pool@.len() as int) =~= named_pool_view(pool@));
    out
}

fn clone_item_pool(pool: &Vec<(Item, u32)>) -> (r: Vec<(Item, u32)>)
    ensures
        r@ == pool@,
{
    let mut out: Vec<(Item, u32)> = Vec::new();
    let mut i: usize = 0;
    while i < pool.len()
        invariant
            i <= pool@.len(),
            out@ == pool@.subrange(0, i as int),
        decreases pool@.len() - i,
    {
        out.push(pool[i]);
        assert(out@ =~= pool@.subrange(0, i + 1));
        i = i + 1;
    }
    assert(pool@.subrange(0, pool@.len() as int) =~= pool@);
    out
}

fn clone_u8s(v: &Vec<u8>) -> (r: Vec<u8>)
    ensures
        r@ == v@,
{
    let mut out: Vec<u8> = Vec::new();
    let mut i: usize = 0;
    while i < v.len()
        invariant
            i <= v@.len(),
            out@ == v@.subrange(0, i as int),
        decreases v@.len() - i,
    {
        out.push(v[i]);
        assert(out@ =~= v@.subrange(0, i + 1));
        i = i + 1;
    }
    assert(v@.subrange(0, v@.len() as int) =~= v@);
    out
}

/// The biome palette of `floor`: the biome set of its profile, else all biomes.
pub fn biomes_for_floor(cfg: &DungeonConfig, floor: u32) -> (r: Vec<u8>)
    ensures
        r@ == match profile_for_floor_spec(cfg.view_spec(), floor) {
            Some(p) => match value_at_key(cfg.view_spec().biome_sets, p.biome_set) {
                Some(b) => b,
                None => default_biome_ids_spec(),
            },
            None => default_biome_ids_spec(),
        },
{
    match profile_for_floor(cfg, floor) {
        Some(profile) => {
            let ghost cv = cfg.view_spec();
            let found = find_key(&cfg.biome_sets, profile.biome_set.as_str());
            proof {
                lemma_key_index_same_keys(str_keys(cfg.biome_sets@), cv.biome_sets, profile.biome_set@);
                lemma_key_index(cv.biome_sets, profile.biome_set@);
            }
            match found {
                Some(k) => clone_u8s(&cfg.biome_sets[k].1),
                None => default_biome_ids(),
            }
        },
        None => default_biome_ids(),
    }
}

/// The enemy pool of `floor` (empty when no profile applies).
pub fn enemy_pool_for_floor(cfg: &DungeonConfig, floor: u32) -> (r: Vec<(String, u32)>)
    ensures
        named_pool_view(r@) == match profile_for_floor_spec(cfg.view_spec(), floor) {
            Some(p) => p.enemy_pool,
            None => Seq::empty(),
        },
{
    match profile_for_floor(cfg, floor) {
        Some(p) => clone_named_pool(&p.enemy_pool),
        None => {
            let v: Vec<(String, u32)> = Vec::new();
            assert(named_pool_view(v@) =~= Seq::empty());
            v
        },
    }
}

/// The drop pool of `floor` (empty when no profile applies).
pub fn drop_pool_for_floor(cfg: &DungeonConfig, floor: u32) -> (r: Vec<(Item, u32)>)
    ensures
        r@ == match profile_for_floor_spec(cfg.view_spec(), floor) {
            Some(p) => p.drop_pool,
            None => Seq::empty(),
        },
{
    match profile_for_floor(cfg, floor) {
        Some(p) => clone_item_pool(&p.drop_pool),
        None => Vec::new(),
    }
}

/// The structure pool of `floor` (empty when no profile applies).
pub fn structure_pool_for_floor(cfg: &DungeonConfig, floor: u32) -> (r: Vec<(String, u32)>)
    ensures
        named_pool_view(r@) == match profile_for_floor_spec(cfg.view_spec(), floor) {
            Some(p) => p.structure_pool,
            None => Seq::empty(),
        },
{
    match profile_for_floor(cfg, floor) {
        Some(p) => clone_named_pool(&p.structure_pool),
        None => {
            let v: Vec<(String, u32)> = Vec::new();
            assert(named_pool_view(v@) =~= Seq::empty());
            v
        },
    }
}

/// The map pattern of `floor` (`perlin` when no profile applies).
pub fn map_pattern_for_floor(cfg: &DungeonConfig, floor: u32) -> (r: String)
    ensures
        r@ == match profile_for_floor_spec(cfg.view_spec(), floor) {
            Some(p) => p.map_pattern,
            None => "perlin"@,
        },
{
    match profile_for_floor(cfg, floor) {
        Some(p) => p.map_pattern.clone(),
        None => text("perlin"),
    }
}

/// The terrain theme of `floor` (`surface_ruin` when no profile applies).
pub fn terrain_theme_for_floor(cfg: &DungeonConfig, floor: u32) -> (r: String)
    ensures
        r@ == match profile_for_floor_spec(cfg.view_spec(), floor) {
            Some(p) => p.terrain_theme,
            None => "surface_ruin"@,
        },
{
    match profile_for_floor(cfg, floor) {
        Some(p) => p.terrain_theme.clone(),
        None => text("surface_ruin"),
    }
}

/// The stairs mode of `floor` (`normal` when no profile applies).
pub fn stairs_mode_for_floor(cfg: &DungeonConfig, floor: u32) -> (r: String)
    ensures
        r@ == match profile_for_floor_spec(cfg.view_spec(), floor) {
            Some(p) => p.stairs_mode,
            None => "normal"@,
        },
{
    match profile_for_floor(cfg, floor) {
        Some(p) => p.stairs_mode.clone(),
        None => text("normal"),
    }
}

/// The special facility mode of `floor` (`none` when no profile applies).
pub fn special_facility_mode_for_floor(cfg: &DungeonConfig, floor: u32) -> (r: String)
    ensures
        r@ == match profile_for_floor_spec(cfg.view_spec(), floor) {
            Some(p) => p.special_facility_mode,
            None => "none"@,
        },
{
    match profile_for_floor(cfg, floor) {
        Some(p) => p.special_facility_mode.clone(),
        None => text("none"),
    }
}

// ---------------------------------------------------------------------------
// What an accepted configuration guarantees
// ---------------------------------------------------------------------------

/// No key occurs twice in `s`.
pub open spec fn keys_distinct<K, V>(s: Seq<(K, V)>) -> bool {
    forall|i: int, j: int| 0 <= i < j < s.len() ==> s[i].0 != s[j].0
}

/// A pool with distinct keys and positive weights.
pub open spec fn pool_ok<K>(p: Seq<(K, u32)>) -> bool {
    &&& keys_distinct(p)
    &&& forall|i: int| 0 <= i < p.len() ==> p[i].1 > 0
}

/// A non-empty list of distinct biome ids, each at most 15.
pub open spec fn biome_ids_ok(b: Seq<u8>) -> bool {
    &&& b.len() > 0
    &&& forall|i: int| 0 <= i < b.len() ==> b[i] <= 15
    &&& forall|i: int, j: int| 0 <= i < j < b.len() ==> b[i] != b[j]
}

/// A profile whose fields hold accepted values and whose pools are sound.
pub open spec fn profile_ok(p: FloorProfileView) -> bool {
    &&& valid_map_pattern(p.map_pattern)
    &&& valid_terrain_theme(p.terrain_theme)
    &&& valid_stairs_mode(p.stairs_mode)
    &&& valid_facility_mode(p.special_facility_mode)
    &&& pool_ok(p.enemy_pool)
    &&& pool_ok(p.drop_pool)
    &&& pool_ok(p.structure_pool)
}

/// Floor ranges that are ordered and name defined profiles.
pub open spec fn floors_ok(
    floors: Seq<(u32, u32, Seq<char>)>,
    profiles: Seq<(Seq<char>, FloorProfileView)>,
) -> bool {
    forall|j: int| #![trigger floors[j]] 0 <= j < floors.len() ==> floors[j].0 <= floors[j].1 && has_key(profiles, floors[j].2)
}

/// The shape of every configuration that the check accepts.
pub open spec fn config_well_formed(c: DungeonConfigView) -> bool {
    &&& c.biome_sets.len() > 0 && keys_distinct(c.biome_sets)
    &&& forall|i: int| 0 <= i < c.biome_sets.len() ==> biome_ids_ok(#[trigger] c.biome_sets[i].1)
    &&& c.floor_profiles.len() > 0 && keys_distinct(c.floor_profiles)
    &&& forall|i: int| 0 <= i < c.floor_profiles.len() ==> profile_ok(#[trigger] c.floor_profiles[i].1)
    &&& forall|i: int| 0 <= i < c.floor_profiles.len() ==> has_key(c.biome_sets, #[trigger] c.floor_profiles[i].1.biome_set)
    &&& c.dungeons.len() > 0 && keys_distinct(c.dungeons)
    &&& forall|i: int| 0 <= i < c.dungeons.len() ==> floors_ok(#[trigger] c.dungeons[i].1, c.floor_profiles)
    &&& has_key(c.dungeons, c.active_dungeon)
}

proof fn lemma_has_key_push<K, V>(s: Seq<(K, V)>, e: (K, V), k: K)
    ensures
        has_key(s.push(e), k) == (has_key(s, k) || e.0 == k),
{
    lemma_key_index(s, k);
    lemma_key_index(s.push(e), k);
    if has_key(s, k) {
        let i = key_index(s, k);
        lemma_key_index_is(s.push(e), k, i);
    } else if e.0 == k {
        lemma_key_index_is(s.push(e), k, s.len() as int);
    }
}

proof fn lemma_has_key_index<K, V>(s: Seq<(K, V)>, i: int)
    requires
        0 <= i < s.len(),
    ensures
        has_key(s, s[i].0),
{
    lemma_key_index(s, s[i].0);
}

proof fn lemma_distinct_push<K, V>(s: Seq<(K, V)>, e: (K, V))
    requires
        keys_distinct(s),
        !has_key(s, e.0),
    ensures
        keys_distinct(s.push(e)),
{
    lemma_key_index(s, e.0);
}

proof fn lemma_pool_add_ok<K>(p: Seq<(K, u32)>, k: K, w: u32)
    requires
        pool_ok(p),
        w > 0,
    ensures
        pool_ok(pool_add(p, k, w)),
        forall|x: K| has_key(pool_add(p, k, w), x) == (has_key(p, x) || x == k),
{
    lemma_key_index(p, k);
    let q = pool_add(p, k, w);
    if key_index(p, k) < 0 {
        lemma_distinct_push(p, (k, w));
        assert forall|x: K| has_key(q, x) == (has_key(p, x) || x == k) by {
            lemma_has_key_push(p, (k, w), x);
        }
    } else {
        let i = key_index(p, k);
        assert forall|x: K| has_key(q, x) == (has_key(p, x) || x == k) by {
            lemma_key_index(p, x);
            lemma_key_index(q, x);
            if has_key(p, x) {
                lemma_key_index_is(q, x, key_index(p, x));
            }
            if has_key(q, x) {
                lemma_key_index_is(p, x, key_index(q, x));
            }
        }
    }
}

proof fn lemma_named_pool_ok(pid: Seq<char>, kind: PoolKind, creatures: Seq<(Seq<char>, Faction)>, entries: Seq<(Seq<char>, u32)>)
    ensures
        pool_ok(fold_named_pool(pid, kind, creatures, entries).0),
    decreases entries.len(),
{
    if entries.len() > 0 {
        lemma_named_pool_ok(pid, kind, creatures, entries.drop_last());
        let prev = fold_named_pool(pid, kind, creatures, entries.drop_last());
        let e = entries.last();
        if spec_trim(e.0).len() != 0 && e.1 != 0 {
            lemma_pool_add_ok(prev.0, spec_trim(e.0), e.1);
        }
    }
}

proof fn lemma_drop_pool_ok(pid: Seq<char>, entries: Seq<(Seq<char>, u32)>)
    ensures
        pool_ok(fold_drop_pool(pid, entries).0),
    decreases entries.len(),
{
    if entries.len() > 0 {
        lemma_drop_pool_ok(pid, entries.drop_last());
        let prev = fold_drop_pool(pid, entries.drop_last());
        let e = entries.last();
        if spec_trim(e.0).len() != 0 && e.1 != 0 {
            if let Some(item) = Item::from_key_spec(spec_trim(e.0)) {
                lemma_pool_add_ok(prev.0, item, e.1);
            }
        }
    }
}

proof fn lemma_sanitize_prefix_ok(raw: Seq<u8>)
    ensures
        forall|i: int| 0 <= i < sanitize_prefix(raw).len() ==> sanitize_prefix(raw)[i] <= 15,
        forall|i: int, j: int| 0 <= i < j < sanitize_prefix(raw).len() ==> sanitize_prefix(raw)[i] != sanitize_prefix(raw)[j],
    decreases raw.len(),
{
    if raw.len() > 0 {
        lemma_sanitize_prefix_ok(raw.drop_last());
        let out = sanitize_prefix(raw.drop_last());
        let b = raw.last();
        if b <= 15 && !out.contains(b) {
            let r = out.push(b);
            assert(r == sanitize_prefix(raw));
            assert forall|i: int, j: int| 0 <= i < j < r.len() implies r[i] != r[j] by {
                if j == r.len() - 1 {
                    assert(r[j] == b);
                    assert(r[i] == out[i]);
                }
            }
        } else {
            assert(out == sanitize_prefix(raw));
        }
    }
}

proof fn lemma_sanitize_ok(raw: Seq<u8>)
    ensures
        biome_ids_ok(sanitize_spec(raw)),
{
    lemma_sanitize_prefix_ok(raw);
}

proof fn lemma_biome_sets_ok(raws: Seq<(Seq<char>, Seq<u8>)>)
    ensures
        keys_distinct(fold_biome_sets(raws).0),
        forall|i: int| 0 <= i < fold_biome_sets(raws).0.len() ==> biome_ids_ok(#[trigger] fold_biome_sets(raws).0[i].1),
    decreases raws.len(),
{
    if raws.len() > 0 {
        lemma_biome_sets_ok(raws.drop_last());
        let prev = fold_biome_sets(raws.drop_last());
        let id = spec_trim(raws.last().0);
        if id.len() != 0 && !has_key(prev.0, id) {
            lemma_distinct_push(prev.0, (id, sanitize_spec(raws.last().1)));
            lemma_sanitize_ok(raws.last().1);
        }
    }
}

proof fn lemma_profiles_ok(raws: Seq<FloorProfileRawView>, creatures: Seq<(Seq<char>, Faction)>)
    ensures
        keys_distinct(fold_profiles(raws, creatures).0),
        forall|i: int| 0 <= i < fold_profiles(raws, creatures).0.len() ==> profile_ok(#[trigger] fold_profiles(raws, creatures).0[i].1),
    decreases raws.len(),
{
    if raws.len() > 0 {
        lemma_profiles_ok(raws.drop_last(), creatures);
        let prev = fold_profiles(raws.drop_last(), creatures);
        let p = raws.last();
        let id = spec_trim(p.id);
        let step = profile_step(prev.0, p, creatures);
        if step.0.len() != prev.0.len() {
            lemma_named_pool_ok(id, PoolKind::Enemy, creatures, p.enemy_pool);
            lemma_drop_pool_ok(id, p.drop_pool);
            lemma_named_pool_ok(id, PoolKind::Structure, creatures, p.structure_pool);
            lemma_distinct_push(prev.0, step.0.last());
            assert(step.0 == prev.0.push(step.0.last()));
        } else {
            assert(step.0 == prev.0);
        }
    }
}

proof fn lemma_unknown_biome_sets_empty(profiles: Seq<(Seq<char>, FloorProfileView)>, sets: Seq<(Seq<char>, Seq<u8>)>)
    requires
        unknown_biome_set_errors(profiles, sets).len() == 0,
    ensures
        forall|i: int| 0 <= i < profiles.len() ==> has_key(sets, #[trigger] profiles[i].1.biome_set),
    decreases profiles.len(),
{
    if profiles.len() > 0 {
        let prev = unknown_biome_set_errors(profiles.drop_last(), sets);
        assert(prev.len() <= unknown_biome_set_errors(profiles, sets).len());
        lemma_unknown_biome_sets_empty(profiles.drop_last(), sets);
        assert forall|i: int| 0 <= i < profiles.len() implies has_key(sets, #[trigger] profiles[i].1.biome_set) by {
            if i < profiles.len() - 1 {
                assert(profiles[i] == profiles.drop_last()[i]);
            }
        }
    }
}

proof fn lemma_floor_errors_empty(did: Seq<char>, floors: Seq<(u32, u32, Seq<char>)>, profiles: Seq<(Seq<char>, FloorProfileView)>)
    requires
        floor_errors(did, floors, profiles).len() == 0,
    ensures
        floors_ok(floors, profiles),
    decreases floors.len(),
{
    if floors.len() > 0 {
        let prev = floor_errors(did, floors.drop_last(), profiles);
        let f = floors.last();
        assert(prev.len() == 0);
        assert(f.0 <= f.1);
        assert(has_key(profiles, f.2));
        lemma_floor_errors_empty(did, floors.drop_last(), profiles);
        assert forall|j: int| #![trigger floors[j]] 0 <= j < floors.len() implies floors[j].0 <= floors[j].1 && has_key(profiles, floors[j].2) by {
            if j < floors.len() - 1 {
                assert(floors[j] == floors.drop_last()[j]);
                assert(floors.drop_last()[j].0 <= floors.drop_last()[j].1 && has_key(profiles, floors.drop_last()[j].2));
            }
        }
    }
}

proof fn lemma_dungeons_nonempty(raws: Seq<(Seq<char>, Seq<(u32, u32, Seq<char>)>)>, profiles: Seq<(Seq<char>, FloorProfileView)>)
    requires
        raws.len() > 0,
        fold_dungeons(raws, profiles).1.len() == 0,
    ensures
        fold_dungeons(raws, profiles).0.len() > 0,
{
    let prev = fold_dungeons(raws.drop_last(), profiles);
    let id = spec_trim(raws.last().0);
    if id.len() == 0 || has_key(prev.0, id) {
        assert(fold_dungeons(raws, profiles).1.len() == prev.1.len() + 1);
    }
}

proof fn lemma_dungeons_ok(raws: Seq<(Seq<char>, Seq<(u32, u32, Seq<char>)>)>, profiles: Seq<(Seq<char>, FloorProfileView)>)
    requires
        fold_dungeons(raws, profiles).1.len() == 0,
    ensures
        keys_distinct(fold_dungeons(raws, profiles).0),
        forall|i: int| 0 <= i < fold_dungeons(raws, profiles).0.len() ==> floors_ok(#[trigger] fold_dungeons(raws, profiles).0[i].1, profiles),
    decreases raws.len(),
{
    if raws.len() > 0 {
        let prev = fold_dungeons(raws.drop_last(), profiles);
        let d = raws.last();
        let id = spec_trim(d.0);
        assert(prev.1.len() <= fold_dungeons(raws, profiles).1.len());
        lemma_dungeons_ok(raws.drop_last(), profiles);
        if id.len() != 0 && !has_key(prev.0, id) {
            lemma_distinct_push(prev.0, (id, d.1));
            lemma_floor_errors_empty(id, d.1, profiles);
        }
    }
}

/// Law: a configuration that the check accepts is well formed. Every list has
/// distinct keys and is non-empty; biome sets hold distinct ids up to 15;
/// profiles hold accepted field values and pools with distinct entries and
/// positive weights; every profile names a defined biome set; every floor range
/// is ordered and names a defined profile; the active dungeon is defined.
/// When the dungeons file defines no dungeon, the fallback dungeon names the
/// profile `default`, which the check does not look up: the law then holds
/// when the accepted profiles include `default`.
pub proof fn lemma_accepted_config_well_formed(
    biomes: Seq<(Seq<char>, Seq<u8>)>,
    profiles: Seq<FloorProfileRawView>,
    active: Option<Seq<char>>,
    dungeons: Seq<(Seq<char>, Seq<(u32, u32, Seq<char>)>)>,
    creatures: Seq<(Seq<char>, Faction)>,
    cfg: DungeonConfigView,
)
    requires
        validate_spec(biomes, profiles, active, dungeons, creatures) == Ok::<DungeonConfigView, Seq<Seq<char>>>(cfg),
        dungeons.len() > 0 || has_key(cfg.floor_profiles, "default"@),
    ensures
        config_well_formed(cfg),
{
    let b = biome_sets_spec(biomes);
    let p = fold_profiles(profiles, creatures);
    let pf = profiles_final(p.0);
    let ub = unknown_biome_set_errors(pf, b.0);
    let d = fold_dungeons(dungeons, pf);
    let df = dungeons_final(d.0);
    let ae = active_errors(active, df);
    let errs = b.1 + p.1 + ub + d.1 + ae;
    assert(errs.len() == 0);
    assert(ub.len() == 0 && d.1.len() == 0);
    assert(cfg.biome_sets == b.0 && cfg.floor_profiles == pf && cfg.dungeons == df);
    assert(cfg.active_dungeon == active_choice(active, df));
    lemma_biome_sets_ok(biomes);
    lemma_profiles_ok(profiles, creatures);
    lemma_unknown_biome_sets_empty(pf, b.0);
    lemma_dungeons_ok(dungeons, pf);
    if fold_biome_sets(biomes).0.len() == 0 {
        assert(biome_ids_ok(default_biome_ids_spec()));
    }
    if p.0.len() == 0 {
        reveal_strlit("perlin");
        reveal_strlit("surface_ruin");
        reveal_strlit("normal");
        reveal_strlit("none");
        assert(profile_ok(default_profile_view()));
    }
    if dungeons.len() > 0 {
        lemma_dungeons_nonempty(dungeons, pf);
    } else {
        let floors = seq![(1u32, u32::MAX, "default"@)];
        assert(df == seq![("default"@, floors)]);
        assert(floors_ok(floors, pf)) by {
            assert forall|j: int| #![trigger floors[j]] 0 <= j < floors.len() implies floors[j].0 <= floors[j].1 && has_key(pf, floors[j].2) by {
                assert(floors[j] == (1u32, u32::MAX, "default"@));
            }
        }
        assert forall|i: int| 0 <= i < df.len() implies floors_ok(#[trigger] df[i].1, pf) by {
            assert(df[i] == ("default"@, floors));
        }
        assert(keys_distinct(df));
    }
    lemma_has_key_index(df, 0);
}


// ---------------------------------------------------------------------------
// Merged pools
// ---------------------------------------------------------------------------

/// Entries `keys[0..n]` with weights `ws` merged into a pool, in order.
pub open spec fn pool_fold<K>(keys: Seq<K>, ws: Seq<u32>, n: nat) -> Seq<(K, u32)>
    decreases n,
{
    if n == 0 {
        Seq::empty()
    } else {
        pool_add(pool_fold(keys, ws, (n - 1) as nat), keys[n - 1], ws[n - 1])
    }
}

/// The saturating sum of the weights of the first `n` entries with key `x`.
pub open spec fn key_weight<K>(keys: Seq<K>, ws: Seq<u32>, x: K, n: nat) -> u32
    decreases n,
{
    if n == 0 {
        0
    } else if keys[n - 1] == x {
        key_weight(keys, ws, x, (n - 1) as nat).saturating_add(ws[n - 1])
    } else {
        key_weight(keys, ws, x, (n - 1) as nat)
    }
}

proof fn lemma_pool_add_value<K>(p: Seq<(K, u32)>, k: K, w: u32, x: K)
    ensures
        value_at_key(pool_add(p, k, w), x) == (if x == k {
            Some(
                match value_at_key(p, k) {
                    Some(v) => v.saturating_add(w),
                    None => w,
                },
            )
        } else {
            value_at_key(p, x)
        }),
{
    lemma_key_index(p, k);
    lemma_key_index(p, x);
    let q = pool_add(p, k, w);
    let i = key_index(p, k);
    if i >= 0 {
        if x == k {
            lemma_key_index_is(q, x, i);
        } else {
            let ix = key_index(p, x);
            if ix >= 0 {
                lemma_key_index_is(q, x, ix);
            } else {
                lemma_key_index_is(q, x, q.len() as int);
            }
        }
    } else {
        if x == k {
            lemma_key_index_is(q, x, p.len() as int);
        } else {
            let ix = key_index(p, x);
            if ix >= 0 {
                lemma_key_index_is(q, x, ix);
            } else {
                lemma_key_index_is(q, x, q.len() as int);
            }
        }
    }
}

/// Merging entries keeps one entry per key, carrying the saturating sum of
/// that key's weights.
proof fn lemma_pool_fold_value<K>(keys: Seq<K>, ws: Seq<u32>, n: nat, x: K)
    requires
        n <= keys.len(),
        n <= ws.len(),
    ensures
        value_at_key(pool_fold(keys, ws, n), x) == (if exists|j: int| 0 <= j < n && keys[j] == x {
            Some(key_weight(keys, ws, x, n))
        } else {
            None
        }),
    decreases n,
{
    if n > 0 {
        let m = (n - 1) as nat;
        lemma_pool_fold_value(keys, ws, m, x);
        lemma_pool_fold_value(keys, ws, m, keys[m as int]);
        lemma_pool_add_value(pool_fold(keys, ws, m), keys[m as int], ws[m as int], x);
        if keys[m as int] == x {
            assert(exists|j: int| 0 <= j < n && keys[j] == x) by {
                assert(keys[m as int] == x);
            }
            if !(exists|j: int| 0 <= j < m && keys[j] == x) {
                lemma_key_weight_absent(keys, ws, x, m);
            }
        } else {
            if exists|j: int| 0 <= j < n && keys[j] == x {
                let j = choose|j: int| 0 <= j < n && keys[j] == x;
                assert(j < m);
            }
            if exists|j: int| 0 <= j < m && keys[j] == x {
                let j = choose|j: int| 0 <= j < m && keys[j] == x;
                assert(0 <= j < n && keys[j] == x);
            }
        }
    }
}

proof fn lemma_key_weight_absent<K>(keys: Seq<K>, ws: Seq<u32>, x: K, n: nat)
    requires
        !(exists|j: int| 0 <= j < n && keys[j] == x),
    ensures
        key_weight(keys, ws, x, n) == 0,
    decreases n,
{
    if n > 0 {
        assert(keys[n - 1] != x);
        lemma_key_weight_absent(keys, ws, x, (n - 1) as nat);
    }
}

/// The trimmed ids of a pool's entries.
pub open spec fn entry_ids(entries: Seq<(Seq<char>, u32)>) -> Seq<Seq<char>> {
    Seq::new(entries.len(), |j: int| spec_trim(entries[j].0))
}

/// The weights of a pool's entries.
pub open spec fn entry_weights(entries: Seq<(Seq<char>, u32)>) -> Seq<u32> {
    Seq::new(entries.len(), |j: int| entries[j].1)
}

proof fn lemma_named_pool_is_fold(
    pid: Seq<char>,
    kind: PoolKind,
    creatures: Seq<(Seq<char>, Faction)>,
    entries: Seq<(Seq<char>, u32)>,
    n: nat,
)
    requires
        n <= entries.len(),
        fold_named_pool(pid, kind, creatures, entries.take(n as int)).1.len() == 0,
    ensures
        fold_named_pool(pid, kind, creatures, entries.take(n as int)).0 == pool_fold(
            entry_ids(entries),
            entry_weights(entries),
            n,
        ),
    decreases n,
{
    if n > 0 {
        let t = entries.take(n as int);
        assert(t.drop_last() =~= entries.take(n - 1));
        let prev = fold_named_pool(pid, kind, creatures, t.drop_last());
        let id = spec_trim(t.last().0);
        if id.len() == 0 || t.last().1 == 0 {
            assert(fold_named_pool(pid, kind, creatures, t).1.len() == prev.1.len() + 1);
        } else {
            lemma_named_pool_is_fold(pid, kind, creatures, entries, (n - 1) as nat);
            assert(entry_ids(entries)[n - 1] == id);
        }
    }
}

/// Law: a pool the check accepts holds one entry per distinct id (after
/// trimming), carrying the saturating sum of that id's weights.
pub proof fn lemma_named_pool_merges(
    pid: Seq<char>,
    kind: PoolKind,
    creatures: Seq<(Seq<char>, Faction)>,
    entries: Seq<(Seq<char>, u32)>,
    x: Seq<char>,
)
    requires
        fold_named_pool(pid, kind, creatures, entries).1.len() == 0,
    ensures
        value_at_key(fold_named_pool(pid, kind, creatures, entries).0, x) == (if exists|j: int|
            0 <= j < entries.len() && spec_trim(entries[j].0) == x {
            Some(key_weight(entry_ids(entries), entry_weights(entries), x, entries.len()))
        } else {
            None
        }),
{
    assert(entries.take(entries.len() as int) =~= entries);
    lemma_named_pool_is_fold(pid, kind, creatures, entries, entries.len());
    lemma_pool_fold_value(entry_ids(entries), entry_weights(entries), entries.len(), x);
    let ids = entry_ids(entries);
    if exists|j: int| 0 <= j < entries.len() && spec_trim(entries[j].0) == x {
        let j = choose|j: int| 0 <= j < entries.len() && spec_trim(entries[j].0) == x;
        assert(ids[j] == x);
    }
    if exists|j: int| 0 <= j < entries.len() && ids[j] == x {
        let j = choose|j: int| 0 <= j < entries.len() && ids[j] == x;
        assert(spec_trim(entries[j].0) == x);
    }
}

/// The items a drop pool's entries name (every entry names one in a pool
/// the check accepts).
pub open spec fn entry_items(entries: Seq<(Seq<char>, u32)>) -> Seq<Item> {
    Seq::new(entries.len(), |j: int| Item::from_key_spec(spec_trim(entries[j].0))->0)
}

proof fn lemma_drop_pool_is_fold(pid: Seq<char>, entries: Seq<(Seq<char>, u32)>, n: nat)
    requires
        n <= entries.len(),
        fold_drop_pool(pid, entries.take(n as int)).1.len() == 0,
    ensures
        fold_drop_pool(pid, entries.take(n as int)).0 == pool_fold(entry_items(entries), entry_weights(entries), n),
        forall|j: int| 0 <= j < n ==> (#[trigger] Item::from_key_spec(spec_trim(entries[j].0))) is Some,
    decreases n,
{
    if n > 0 {
        let t = entries.take(n as int);
        assert(t.drop_last() =~= entries.take(n - 1));
        let prev = fold_drop_pool(pid, t.drop_last());
        let id = spec_trim(t.last().0);
        if id.len() == 0 || t.last().1 == 0 || Item::from_key_spec(id) is None {
            assert(fold_drop_pool(pid, t).1.len() == prev.1.len() + 1);
        } else {
            lemma_drop_pool_is_fold(pid, entries, (n - 1) as nat);
            assert(entry_items(entries)[n - 1] == Item::from_key_spec(id)->0);
            assert(t.last() == entries[n - 1]);
        }
    }
}

/// Law: a drop pool the check accepts holds one entry per item named
/// (entries whose keys name the same item merge), carrying the saturating
/// sum of that item's weights.
pub proof fn lemma_drop_pool_merges(pid: Seq<char>, entries: Seq<(Seq<char>, u32)>, x: Item)
    requires
        fold_drop_pool(pid, entries).1.len() == 0,
    ensures
        value_at_key(fold_drop_pool(pid, entries).0, x) == (if exists|j: int|
            0 <= j < entries.len() && Item::from_key_spec(spec_trim(entries[j].0)) == Some(x) {
            Some(key_weight(entry_items(entries), entry_weights(entries), x, entries.len()))
        } else {
            None
        }),
{
    assert(entries.take(entries.len() as int) =~= entries);
    lemma_drop_pool_is_fold(pid, entries, entries.len());
    lemma_pool_fold_value(entry_items(entries), entry_weights(entries), entries.len(), x);
    let items = entry_items(entries);
    if exists|j: int| 0 <= j < entries.len() && Item::from_key_spec(spec_trim(entries[j].0)) == Some(x) {
        let j = choose|j: int| 0 <= j < entries.len() && Item::from_key_spec(spec_trim(entries[j].0)) == Some(x);
        assert(items[j] == x);
    }
    if exists|j: int| 0 <= j < entries.len() && items[j] == x {
        let j = choose|j: int| 0 <= j < entries.len() && items[j] == x;
        assert(Item::from_key_spec(spec_trim(entries[j].0)) is Some);
        assert(Item::from_key_spec(spec_trim(entries[j].0)) == Some(x));
    }
}

// ---------------------------------------------------------------------------
// What an accepted configuration keeps of the files
// ---------------------------------------------------------------------------

/// Profile `pv`, stored under `id`, is what the check makes of raw profile
/// `p`: the id and biome set trimmed, the four modes trimmed and in lower
/// case, and each pool merged without error.
pub open spec fn profile_from_raw(
    id: Seq<char>,
    pv: FloorProfileView,
    p: FloorProfileRawView,
    creatures: Seq<(Seq<char>, Faction)>,
) -> bool {
    &&& id == spec_trim(p.id)
    &&& pv.biome_set == spec_trim(p.biome_set)
    &&& pv.map_pattern == spec_lower(spec_trim(p.map_pattern))
    &&& pv.terrain_theme == spec_lower(spec_trim(p.terrain_theme))
    &&& pv.stairs_mode == spec_lower(spec_trim(p.stairs_mode))
    &&& pv.special_facility_mode == spec_lower(spec_trim(p.special_facility_mode))
    &&& fold_named_pool(id, PoolKind::Enemy, creatures, p.enemy_pool) == (pv.enemy_pool, Seq::<Seq<char>>::empty())
    &&& fold_drop_pool(id, p.drop_pool) == (pv.drop_pool, Seq::<Seq<char>>::empty())
    &&& fold_named_pool(id, PoolKind::Structure, creatures, p.structure_pool) == (
        pv.structure_pool,
        Seq::<Seq<char>>::empty(),
    )
}

proof fn lemma_fold_profiles_from_raw(raws: Seq<FloorProfileRawView>, creatures: Seq<(Seq<char>, Faction)>)
    requires
        fold_profiles(raws, creatures).1.len() == 0,
    ensures
        forall|i: int|
            0 <= i < fold_profiles(raws, creatures).0.len() ==> exists|r: int|
                0 <= r < raws.len() && profile_from_raw(
                    (#[trigger] fold_profiles(raws, creatures).0[i]).0,
                    fold_profiles(raws, creatures).0[i].1,
                    raws[r],
                    creatures,
                ),
    decreases raws.len(),
{
    if raws.len() > 0 {
        let init = raws.drop_last();
        let prev = fold_profiles(init, creatures);
        let p = raws.last();
        let step = profile_step(prev.0, p, creatures);
        let cur = fold_profiles(raws, creatures);
        assert(cur.1 == prev.1 + step.1);
        assert(prev.1.len() == 0 && step.1.len() == 0);
        lemma_fold_profiles_from_raw(init, creatures);
        assert forall|i: int| 0 <= i < cur.0.len() implies exists|r: int|
            0 <= r < raws.len() && profile_from_raw((#[trigger] cur.0[i]).0, cur.0[i].1, raws[r], creatures) by {
            if i < prev.0.len() {
                assert(cur.0[i] == prev.0[i]);
                let r = choose|r: int| 0 <= r < init.len() && profile_from_raw(prev.0[i].0, prev.0[i].1, init[r], creatures);
                assert(raws[r] == init[r]);
            } else {
                let id = spec_trim(p.id);
                let en = fold_named_pool(id, PoolKind::Enemy, creatures, p.enemy_pool);
                let dr = fold_drop_pool(id, p.drop_pool);
                let st = fold_named_pool(id, PoolKind::Structure, creatures, p.structure_pool);
                assert(step.1 == en.1 + dr.1 + st.1);
                assert(en.1.len() == 0 && dr.1.len() == 0 && st.1.len() == 0);
                assert(en.1 =~= Seq::<Seq<char>>::empty());
                assert(dr.1 =~= Seq::<Seq<char>>::empty());
                assert(st.1 =~= Seq::<Seq<char>>::empty());
                assert(raws[raws.len() - 1] == p);
                assert(profile_from_raw(cur.0[i].0, cur.0[i].1, raws[raws.len() - 1], creatures));
            }
        }
    }
}

proof fn lemma_fold_biome_sets_from_raw(raws: Seq<(Seq<char>, Seq<u8>)>)
    ensures
        forall|i: int|
            0 <= i < fold_biome_sets(raws).0.len() ==> exists|r: int|
                0 <= r < raws.len() && (#[trigger] fold_biome_sets(raws).0[i]) == (
                    spec_trim(raws[r].0),
                    sanitize_spec(raws[r].1),
                ),
    decreases raws.len(),
{
    if raws.len() > 0 {
        let init = raws.drop_last();
        lemma_fold_biome_sets_from_raw(init);
        let prev = fold_biome_sets(init);
        let cur = fold_biome_sets(raws);
        assert forall|i: int| 0 <= i < cur.0.len() implies exists|r: int|
            0 <= r < raws.len() && (#[trigger] cur.0[i]) == (spec_trim(raws[r].0), sanitize_spec(raws[r].1)) by {
            if i < prev.0.len() {
                assert(cur.0[i] == prev.0[i]);
                let r = choose|r: int| 0 <= r < init.len() && prev.0[i] == (spec_trim(init[r].0), sanitize_spec(init[r].1));
                assert(raws[r] == init[r]);
            } else {
                assert(raws[raws.len() - 1] == raws.last());
            }
        }
    }
}

proof fn lemma_fold_dungeons_from_raw(
    raws: Seq<(Seq<char>, Seq<(u32, u32, Seq<char>)>)>,
    profiles: Seq<(Seq<char>, FloorProfileView)>,
)
    ensures
        forall|i: int|
            0 <= i < fold_dungeons(raws, profiles).0.len() ==> exists|r: int|
                0 <= r < raws.len() && (#[trigger] fold_dungeons(raws, profiles).0[i]) == (spec_trim(raws[r].0), raws[r].1),
    decreases raws.len(),
{
    if raws.len() > 0 {
        let init = raws.drop_last();
        lemma_fold_dungeons_from_raw(init, profiles);
        let prev = fold_dungeons(init, profiles);
        let cur = fold_dungeons(raws, profiles);
        assert forall|i: int| 0 <= i < cur.0.len() implies exists|r: int|
            0 <= r < raws.len() && (#[trigger] cur.0[i]) == (spec_trim(raws[r].0), raws[r].1) by {
            if i < prev.0.len() {
                assert(cur.0[i] == prev.0[i]);
                let r = choose|r: int| 0 <= r < init.len() && prev.0[i] == (spec_trim(init[r].0), init[r].1);
                assert(raws[r] == init[r]);
            } else {
                assert(raws[raws.len() - 1] == raws.last());
            }
        }
    }
}

/// Law: an accepted configuration holds what the files say, as the check
/// reads them. Each biome set is a set of the file under its trimmed id,
/// holding its distinct ids up to 15 (or all ids); each floor profile is
/// what the check makes of a profile of the file (see `profile_from_raw`),
/// or the default profile when the file gives none; each dungeon is one of
/// the file's under its trimmed id, or the default dungeon when the file
/// gives none; and the active dungeon is the one named when it is defined,
/// else the first.
pub proof fn lemma_accepted_config_from_raw(
    biomes: Seq<(Seq<char>, Seq<u8>)>,
    profiles: Seq<FloorProfileRawView>,
    active: Option<Seq<char>>,
    dungeons: Seq<(Seq<char>, Seq<(u32, u32, Seq<char>)>)>,
    creatures: Seq<(Seq<char>, Faction)>,
    cfg: DungeonConfigView,
)
    requires
        validate_spec(biomes, profiles, active, dungeons, creatures) == Ok::<DungeonConfigView, Seq<Seq<char>>>(cfg),
    ensures
        forall|i: int|
            0 <= i < cfg.biome_sets.len() ==> (#[trigger] cfg.biome_sets[i] == ("all"@, default_biome_ids_spec())
                && fold_biome_sets(biomes).0.len() == 0) || exists|r: int|
                0 <= r < biomes.len() && cfg.biome_sets[i] == (spec_trim(biomes[r].0), sanitize_spec(biomes[r].1)),
        forall|i: int|
            0 <= i < cfg.floor_profiles.len() ==> (#[trigger] cfg.floor_profiles[i] == ("default"@, default_profile_view())
                && fold_profiles(profiles, creatures).0.len() == 0) || exists|r: int|
                0 <= r < profiles.len() && profile_from_raw(
                    cfg.floor_profiles[i].0,
                    cfg.floor_profiles[i].1,
                    profiles[r],
                    creatures,
                ),
        forall|i: int|
            0 <= i < cfg.dungeons.len() ==> (#[trigger] cfg.dungeons[i] == ("default"@, seq![(1u32, u32::MAX, "default"@)])
                && dungeons.len() == 0) || exists|r: int|
                0 <= r < dungeons.len() && cfg.dungeons[i] == (spec_trim(dungeons[r].0), dungeons[r].1),
        cfg.active_dungeon == (match active {
            Some(a) => if has_key(cfg.dungeons, a) {
                a
            } else {
                cfg.dungeons[0].0
            },
            None => cfg.dungeons[0].0,
        }),
{
    let b = biome_sets_spec(biomes);
    let p = fold_profiles(profiles, creatures);
    let pf = profiles_final(p.0);
    let ub = unknown_biome_set_errors(pf, b.0);
    let d = fold_dungeons(dungeons, pf);
    let df = dungeons_final(d.0);
    let ae = active_errors(active, df);
    let errs = b.1 + p.1 + ub + d.1 + ae;
    assert(errs.len() == 0);
    assert(p.1.len() == 0);
    assert(cfg.biome_sets == b.0 && cfg.floor_profiles == pf && cfg.dungeons == df);
    lemma_fold_biome_sets_from_raw(biomes);
    lemma_fold_profiles_from_raw(profiles, creatures);
    lemma_fold_dungeons_from_raw(dungeons, pf);
    if d.0.len() == 0 && dungeons.len() > 0 {
        lemma_dungeons_nonempty(dungeons, pf);
    }
}

/// Law: the pools of a profile made from a raw profile merge its entries:
/// one entry per trimmed id (per item for drops), carrying the saturating
/// sum of the weights given to it.
pub proof fn lemma_profile_pools_merge(
    id: Seq<char>,
    pv: FloorProfileView,
    p: FloorProfileRawView,
    creatures: Seq<(Seq<char>, Faction)>,
    x: Seq<char>,
    item: Item,
)
    requires
        profile_from_raw(id, pv, p, creatures),
    ensures
        value_at_key(pv.enemy_pool, x) == (if exists|j: int| 0 <= j < p.enemy_pool.len() && spec_trim(p.enemy_pool[j].0) == x {
            Some(key_weight(entry_ids(p.enemy_pool), entry_weights(p.enemy_pool), x, p.enemy_pool.len()))
        } else {
            None
        }),
        value_at_key(pv.structure_pool, x) == (if exists|j: int|
            0 <= j < p.structure_pool.len() && spec_trim(p.structure_pool[j].0) == x {
            Some(key_weight(entry_ids(p.structure_pool), entry_weights(p.structure_pool), x, p.structure_pool.len()))
        } else {
            None
        }),
        value_at_key(pv.drop_pool, item) == (if exists|j: int|
            0 <= j < p.drop_pool.len() && Item::from_key_spec(spec_trim(p.drop_pool[j].0)) == Some(item) {
            Some(key_weight(entry_items(p.drop_pool), entry_weights(p.drop_pool), item, p.drop_pool.len()))
        } else {
            None
        }),
{
    lemma_named_pool_merges(id, PoolKind::Enemy, creatures, p.enemy_pool, x);
    lemma_named_pool_merges(id, PoolKind::Structure, creatures, p.structure_pool, x);
    lemma_drop_pool_merges(id, p.drop_pool, item);
}

} // verus!
