//! Restoring a saved game: chunks, entity ids, the bag and equipment, and
//! the player's pools, each brought back within the ranges the game keeps.
use vstd::prelude::*;

use crate::combat::clamp_ritual;
use crate::inventory::{
    FORGE_SCROLL_ATK_BONUS_MAX, Inventory, InventoryItem, name_view, same_identity_spec,
};
use crate::items::Tile;
use crate::worldgen::{BiomeId, CHUNK_AREA, Chunk};

verus! {

// ---------------------------------------------------------------------------
// Chunks
// ---------------------------------------------------------------------------

/// A saved chunk, when it holds exactly one tile per cell.
pub fn restore_chunk(tiles: &Vec<Tile>, biome: u8) -> (c: Option<Chunk>)
    ensures
        tiles@.len() != CHUNK_AREA ==> c is None,
        tiles@.len() == CHUNK_AREA ==> (c matches Some(ch) && ch.tiles@ == tiles@ && ch.biome.0 == (
        if biome < 15 {
            biome
        } else {
            15
        })),
{
    if tiles.len() != CHUNK_AREA {
        return None;
    }
    let mut ch = Chunk::new(Tile::Abyss, BiomeId::new(biome));
    let mut i: usize = 0;
    while i < CHUNK_AREA
        invariant
            i <= CHUNK_AREA,
            tiles@.len() == CHUNK_AREA,
            ch.tiles@.len() == CHUNK_AREA,
            ch.biome.0 == (if biome < 15 {
                biome
            } else {
                15
            }),
            forall|j: int| 0 <= j < i ==> ch.tiles@[j] == tiles@[j],
        decreases CHUNK_AREA - i,
    {
        ch.tiles[i] = tiles[i];
        i = i + 1;
    }
    assert(ch.tiles@ =~= tiles@);
    Some(ch)
}

// ---------------------------------------------------------------------------
// Entity ids
// ---------------------------------------------------------------------------

pub open spec fn max_u64(a: u64, b: u64) -> u64 {
    if a >= b {
        a
    } else {
        b
    }
}

/// The first id handed to a saved creature without one: past the player's
/// id and past every saved creature id.
pub open spec fn next_enemy_id_spec(player_id: u64, ids: Seq<u64>) -> u64
    decreases ids.len(),
{
    if ids.len() == 0 {
        max_u64(player_id.saturating_add(1), 1)
    } else {
        let prev = next_enemy_id_spec(player_id, ids.drop_last());
        let id = ids.last();
        if id > 0 && id >= prev {
            id.saturating_add(1)
        } else {
            prev
        }
    }
}

/// The first id handed to a saved creature without one.
pub fn next_enemy_id(player_id: u64, ids: &Vec<u64>) -> (n: u64)
    ensures
        n == next_enemy_id_spec(player_id, ids@),
{
    let mut next = player_id.saturating_add(1);
    if next < 1 {
        next = 1;
    }
    let mut i: usize = 0;
    while i < ids.len()
        invariant
            i <= ids@.len(),
            next == next_enemy_id_spec(player_id, ids@.subrange(0, i as int)),
        decreases ids@.len() - i,
    {
        assert(ids@.subrange(0, i + 1).drop_last() =~= ids@.subrange(0, i as int));
        if ids[i] > 0 && ids[i] >= next {
            next = ids[i].saturating_add(1);
        }
        i = i + 1;
    }
    assert(ids@.subrange(0, ids@.len() as int) =~= ids@);
    next
}

/// Saved creature ids with the missing ones (zero) handed out in order from
/// `next`; gives the ids and the counter after them.
pub open spec fn assign_ids_spec(ids: Seq<u64>, next: u64) -> (Seq<u64>, u64)
    decreases ids.len(),
{
    if ids.len() == 0 {
        (Seq::empty(), next)
    } else {
        let prev = assign_ids_spec(ids.drop_last(), next);
        if ids.last() == 0 {
            (prev.0.push(prev.1), prev.1.saturating_add(1))
        } else {
            (prev.0.push(ids.last()), prev.1)
        }
    }
}

/// Hands out ids to saved creatures that have none.
pub fn assign_enemy_ids(ids: &Vec<u64>, next: &mut u64) -> (out: Vec<u64>)
    ensures
        out@ == assign_ids_spec(ids@, *old(next)).0,
        *final(next) == assign_ids_spec(ids@, *old(next)).1,
{
    let ghost start = *next;
    let mut out: Vec<u64> = Vec::new();
    let mut i: usize = 0;
    while i < ids.len()
        invariant
            i <= ids@.len(),
            out@ == assign_ids_spec(ids@.subrange(0, i as int), start).0,
            *next == assign_ids_spec(ids@.subrange(0, i as int), start).1,
        decreases ids@.len() - i,
    {
        assert(ids@.subrange(0, i + 1).drop_last() =~= ids@.subrange(0, i as int));
        if ids[i] == 0 {
            out.push(*next);
            *next = next.saturating_add(1);
        } else {
            out.push(ids[i]);
        }
        i = i + 1;
    }
    assert(ids@.subrange(0, ids@.len() as int) =~= ids@);
    out
}

// ---------------------------------------------------------------------------
// The bag and equipment
// ---------------------------------------------------------------------------

/// A ritual bonus kept within `0..=6`.
pub fn clamp_weapon_bonus(b: i32) -> (r: i32)
    ensures
        r == clamp_ritual(b),
{
    if b < 0 {
        0
    } else if b > FORGE_SCROLL_ATK_BONUS_MAX {
        FORGE_SCROLL_ATK_BONUS_MAX
    } else {
        b
    }
}

/// One saved entry brought back: its ritual bonus clamped, a missing uid
/// drawn from the counter, and the counter kept past every uid seen.
pub open spec fn restore_item_step(it: InventoryItem, next: u64) -> (InventoryItem, u64) {
    let it2 = InventoryItem {
        weapon_bonus: clamp_ritual(it.weapon_bonus) as i32,
        uid: if it.uid == 0 { next } else { it.uid },
        ..it
    };
    let next2 = if it.uid == 0 {
        next.saturating_add(1)
    } else if it.uid >= next {
        it.uid.saturating_add(1)
    } else {
        next
    };
    (it2, next2)
}

/// The saved entries brought back in order (see `restore_item_step`).
pub open spec fn restore_items_spec(items: Seq<InventoryItem>, next: u64) -> (Seq<InventoryItem>, u64)
    decreases items.len(),
{
    if items.len() == 0 {
        (Seq::empty(), next)
    } else {
        let prev = restore_items_spec(items.drop_last(), next);
        let step = restore_item_step(items.last(), prev.1);
        (prev.0.push(step.0), step.1)
    }
}

/// Law: entries saved from a sound bag (every uid set and below the id
/// counter, every ritual bonus within range) come back unchanged, and the
/// counter with them.
pub proof fn lemma_restore_items_round_trip(items: Seq<InventoryItem>, next: u64)
    requires
        forall|i: int|
            0 <= i < items.len() ==> (#[trigger] items[i]).uid != 0 && items[i].uid < next && 0 <= items[i].weapon_bonus
                <= FORGE_SCROLL_ATK_BONUS_MAX,
    ensures
        restore_items_spec(items, next) == (items, next),
    decreases items.len(),
{
    if items.len() > 0 {
        let init = items.drop_last();
        assert forall|i: int| 0 <= i < init.len() implies (#[trigger] init[i]).uid != 0 && init[i].uid < next
            && 0 <= init[i].weapon_bonus <= FORGE_SCROLL_ATK_BONUS_MAX by {
            assert(init[i] == items[i]);
        }
        lemma_restore_items_round_trip(init, next);
        let last = items.last();
        assert(last == items[items.len() - 1]);
        assert(restore_item_step(last, next) == (last, next));
        assert(init.push(last) =~= items);
    }
}

/// Brings back the saved bag entries (see `restore_items_spec`).
pub fn restore_inventory_items(items: &mut Vec<InventoryItem>, next_entity_id: &mut u64)
    ensures
        final(items)@ == restore_items_spec(old(items)@, *old(next_entity_id)).0,
        *final(next_entity_id) == restore_items_spec(old(items)@, *old(next_entity_id)).1,
{
    let ghost orig = items@;
    let ghost start = *next_entity_id;
    let mut i: usize = 0;
    while i < items.len()
        invariant
            i <= items@.len(),
            items@.len() == orig.len(),
            items@.subrange(0, i as int) == restore_items_spec(orig.subrange(0, i as int), start).0,
            *next_entity_id == restore_items_spec(orig.subrange(0, i as int), start).1,
            forall|j: int| i <= j < orig.len() ==> items@[j] == orig[j],
        decreases items@.len() - i,
    {
        assert(orig.subrange(0, i + 1).drop_last() =~= orig.subrange(0, i as int));
        let mut it = items[i].clone();
        it.weapon_bonus = clamp_weapon_bonus(it.weapon_bonus);
        if it.uid == 0 {
            it.uid = *next_entity_id;
            *next_entity_id = next_entity_id.saturating_add(1);
        } else if it.uid >= *next_entity_id {
            *next_entity_id = it.uid.saturating_add(1);
        }
        let ghost before = items@;
        items.set(i, it);
        assert(items@.subrange(0, i + 1) =~= before.subrange(0, i as int).push(it));
        i = i + 1;
    }
    assert(items@.subrange(0, items@.len() as int) =~= items@);
    assert(orig.subrange(0, orig.len() as int) =~= orig);
}

/// The first entry of the same kind and name as `e`.
pub open spec fn first_same_kind_name(items: Seq<InventoryItem>, e: InventoryItem) -> Option<int> {
    if exists|i: int|
        0 <= i < items.len() && #[trigger] items[i].kind == e.kind && name_view(items[i].custom_name)
            == name_view(e.custom_name) {
        Some(
            choose|i: int|
                0 <= i < items.len() && #[trigger] items[i].kind == e.kind && name_view(
                    items[i].custom_name,
                ) == name_view(e.custom_name) && forall|j: int|
                    0 <= j < i ==> !(#[trigger] items[j].kind == e.kind && name_view(
                        items[j].custom_name,
                    ) == name_view(e.custom_name)),
        )
    } else {
        None
    }
}

/// A saved equipment slot brought back: its ritual bonus clamped; a missing
/// uid taken from the bag entry of the same kind and name, or else drawn
/// from the counter; the counter kept past its uid.
pub open spec fn restore_slot_spec(slot: Option<InventoryItem>, items: Seq<InventoryItem>, next: u64) -> (Option<InventoryItem>, u64) {
    match slot {
        None => (None, next),
        Some(eq) => {
            let b = clamp_ritual(eq.weapon_bonus) as i32;
            if eq.uid == 0 {
                match first_same_kind_name(items, eq) {
                    Some(i) => (Some(InventoryItem { weapon_bonus: b, uid: items[i].uid, ..eq }), next),
                    None => (Some(InventoryItem { weapon_bonus: b, uid: next, ..eq }), next.saturating_add(1)),
                }
            } else {
                (
                    Some(InventoryItem { weapon_bonus: b, ..eq }),
                    if eq.uid >= next { eq.uid.saturating_add(1) } else { next },
                )
            }
        },
    }
}

fn same_kind_and_name(a: &InventoryItem, b: &InventoryItem) -> (r: bool)
    ensures
        r == (a.kind == b.kind && name_view(a.custom_name) == name_view(b.custom_name)),
{
    if a.kind != b.kind {
        return false;
    }
    match (&a.custom_name, &b.custom_name) {
        (Some(x), Some(y)) => crate::strings::str_eq(x.as_str(), y.as_str()),
        (None, None) => true,
        _ => false,
    }
}

proof fn lemma_first_kind_name_is(items: Seq<InventoryItem>, e: InventoryItem, i: int)
    requires
        0 <= i < items.len(),
        items[i].kind == e.kind && name_view(items[i].custom_name) == name_view(e.custom_name),
        forall|j: int|
            0 <= j < i ==> !(#[trigger] items[j].kind == e.kind && name_view(items[j].custom_name)
                == name_view(e.custom_name)),
    ensures
        first_same_kind_name(items, e) == Some(i),
{
    let k = choose|k: int|
        0 <= k < items.len() && #[trigger] items[k].kind == e.kind && name_view(items[k].custom_name)
            == name_view(e.custom_name) && forall|j: int|
            0 <= j < k ==> !(#[trigger] items[j].kind == e.kind && name_view(items[j].custom_name)
                == name_view(e.custom_name));
    assert(k == i) by {
        if k < i {
        } else if k > i {
            assert(!(items[i].kind == e.kind && name_view(items[i].custom_name) == name_view(
                e.custom_name,
            )));
        }
    }
}

fn find_same_kind_name(items: &Vec<InventoryItem>, e: &InventoryItem) -> (r: Option<usize>)
    ensures
        r matches Some(k) ==> k < items@.len() && first_same_kind_name(items@, *e) == Some(k as int),
        r is None ==> first_same_kind_name(items@, *e) is None,
{
    let mut i: usize = 0;
    while i < items.len()
        invariant
            i <= items@.len(),
            forall|j: int|
                0 <= j < i ==> !(#[trigger] items@[j].kind == e.kind && name_view(
                    items@[j].custom_name,
                ) == name_view(e.custom_name)),
        decreases items@.len() - i,
    {
        if same_kind_and_name(&items[i], e) {
            proof {
                lemma_first_kind_name_is(items@, *e, i as int);
            }
            return Some(i);
        }
        i = i + 1;
    }
    None
}

/// Brings back a saved equipment slot (see `restore_slot_spec`).
pub fn restore_equipped_slot(slot: &mut Option<InventoryItem>, items: &Vec<InventoryItem>, next_entity_id: &mut u64)
    ensures
        (*final(slot), *final(next_entity_id)) == restore_slot_spec(*old(slot), items@, *old(next_entity_id)),
{
    let mut eq = match slot.take() {
        Some(e) => e,
        None => {
            return;
        },
    };
    eq.weapon_bonus = clamp_weapon_bonus(eq.weapon_bonus);
    if eq.uid == 0 {
        match find_same_kind_name(items, &eq) {
            Some(k) => {
                eq.uid = items[k].uid;
            },
            None => {
                eq.uid = *next_entity_id;
                *next_entity_id = next_entity_id.saturating_add(1);
            },
        }
    } else if eq.uid >= *next_entity_id {
        *next_entity_id = eq.uid.saturating_add(1);
    }
    *slot = Some(eq);
}

pub open spec fn max_i32(a: int, b: int) -> int {
    if a >= b {
        a
    } else {
        b
    }
}

/// The bonus older saves kept outside the weapon, merged into the equipped
/// weapon (and its bag entry) when positive.
pub open spec fn legacy_sword_spec(sword: Option<InventoryItem>, legacy: int) -> Option<InventoryItem> {
    match sword {
        Some(eq) => if legacy > 0 {
            Some(InventoryItem { weapon_bonus: max_i32(eq.weapon_bonus as int, legacy) as i32, ..eq })
        } else {
            sword
        },
        None => None,
    }
}

/// The first bag entry that is the same object as `e`.
pub open spec fn first_identity(items: Seq<InventoryItem>, e: InventoryItem) -> Option<int> {
    crate::player::first_same(items, e)
}

/// The bag entries after merging the legacy bonus: the entry holding the
/// equipped weapon keeps the larger of its bonus and the weapon's.
pub open spec fn legacy_items_spec(items: Seq<InventoryItem>, sword: Option<InventoryItem>, legacy: int) -> Seq<InventoryItem> {
    if legacy > 0 && sword is Some {
        let eq = legacy_sword_spec(sword, legacy)->0;
        match first_identity(items, sword->0) {
            Some(i) => items.update(
                i,
                InventoryItem {
                    weapon_bonus: max_i32(items[i].weapon_bonus as int, eq.weapon_bonus as int) as i32,
                    ..items[i]
                },
            ),
            None => items,
        }
    } else {
        items
    }
}

/// Merges the bonus older saves kept outside the weapon.
pub fn apply_legacy_bonus(bag: &mut Inventory, legacy_bonus: i32)
    ensures
        final(bag).equipped_sword == legacy_sword_spec(old(bag).equipped_sword, clamp_ritual(legacy_bonus)),
        final(bag).equipped_shield == old(bag).equipped_shield,
        final(bag).equipped_accessory == old(bag).equipped_accessory,
        final(bag).items@ == legacy_items_spec(old(bag).items@, old(bag).equipped_sword, clamp_ritual(legacy_bonus)),
{
    let legacy = clamp_weapon_bonus(legacy_bonus);
    if legacy <= 0 {
        return;
    }
    let found = match &bag.equipped_sword {
        Some(eq) => crate::player::first_same_index(&bag.items, eq),
        None => {
            return;
        },
    };
    let mut eq = match bag.equipped_sword.take() {
        Some(e) => e,
        None => {
            return;
        },
    };
    if legacy > eq.weapon_bonus {
        eq.weapon_bonus = legacy;
    }
    let merged = eq.weapon_bonus;
    bag.equipped_sword = Some(eq);
    if let Some(i) = found {
        let mut entry = bag.items[i].clone();
        if merged > entry.weapon_bonus {
            entry.weapon_bonus = merged;
        }
        bag.items.set(i, entry);
    }
}

/// Brings back a saved bag: entries first, then the weapon, shield and
/// accessory slots in that order, then the legacy bonus.
pub fn restore_bag(bag: &mut Inventory, legacy_bonus: i32, next_entity_id: &mut u64)
    ensures
        ({
            let r = restore_items_spec(old(bag).items@, *old(next_entity_id));
            let s1 = restore_slot_spec(old(bag).equipped_sword, r.0, r.1);
            let s2 = restore_slot_spec(old(bag).equipped_shield, r.0, s1.1);
            let s3 = restore_slot_spec(old(bag).equipped_accessory, r.0, s2.1);
            let legacy = clamp_ritual(legacy_bonus);
            &&& final(bag).items@ == legacy_items_spec(r.0, s1.0, legacy)
            &&& final(bag).equipped_sword == legacy_sword_spec(s1.0, legacy)
            &&& final(bag).equipped_shield == s2.0
            &&& final(bag).equipped_accessory == s3.0
            &&& *final(next_entity_id) == s3.1
        }),
{
    restore_inventory_items(&mut bag.items, next_entity_id);
    restore_equipped_slot(&mut bag.equipped_sword, &bag.items, next_entity_id);
    restore_equipped_slot(&mut bag.equipped_shield, &bag.items, next_entity_id);
    restore_equipped_slot(&mut bag.equipped_accessory, &bag.items, next_entity_id);
    apply_legacy_bonus(bag, legacy_bonus);
}

/// `v` kept within `lo..=hi` (for `lo <= hi`).
pub open spec fn clamp_int(v: int, lo: int, hi: int) -> int {
    if v < lo {
        lo
    } else if v > hi {
        hi
    } else {
        v
    }
}

impl crate::player::Vitals {
    /// Brings saved pools back within range: max MP and max hunger at least
    /// one, MP and hunger within `0..=max`, the ancient charge at most 9, the
    /// level, next level's cost and floor at least one.
    pub fn normalize_restored(&mut self)
        ensures
            final(self).progress.player_max_mp == max_i32(old(self).progress.player_max_mp as int, 1),
            final(self).progress.player_mp == clamp_int(
                old(self).progress.player_mp as int,
                0,
                max_i32(old(self).progress.player_max_mp as int, 1),
            ),
            final(self).max_hunger == max_i32(old(self).max_hunger as int, 1),
            final(self).hunger == clamp_int(old(self).hunger as int, 0, max_i32(old(self).max_hunger as int, 1)),
            final(self).ancient_charge == (if old(self).ancient_charge < 9 { old(self).ancient_charge } else { 9 }),
            final(self).progress.level == (if old(self).progress.level < 1 { 1 } else { old(self).progress.level }),
            final(self).progress.next_exp == (if old(self).progress.next_exp < 1 { 1 } else { old(self).progress.next_exp }),
            final(self).floor == (if old(self).floor < 1 { 1 } else { old(self).floor }),
            final(self).hp == old(self).hp,
            final(self).status == old(self).status,
            final(self).turn == old(self).turn,
            final(self).invincible == old(self).invincible,
            final(self).damage_taken == old(self).damage_taken,
            final(self).progress.exp == old(self).progress.exp,
            final(self).progress.player_max_hp == old(self).progress.player_max_hp,
            final(self).progress.stat_total_exp == old(self).progress.stat_total_exp,
    {
        let max_mp = if self.progress.player_max_mp < 1 {
            1
        } else {
            self.progress.player_max_mp
        };
        self.progress.player_max_mp = max_mp;
        self.progress.player_mp = if self.progress.player_mp < 0 {
            0
        } else if self.progress.player_mp > max_mp {
            max_mp
        } else {
            self.progress.player_mp
        };
        let max_hunger = if self.max_hunger < 1 {
            1
        } else {
            self.max_hunger
        };
        self.max_hunger = max_hunger;
        self.hunger = if self.hunger < 0 {
            0
        } else if self.hunger > max_hunger {
            max_hunger
        } else {
            self.hunger
        };
        if self.ancient_charge > 9 {
            self.ancient_charge = 9;
        }
        if self.progress.level < 1 {
            self.progress.level = 1;
        }
        if self.progress.next_exp < 1 {
            self.progress.next_exp = 1;
        }
        if self.floor < 1 {
            self.floor = 1;
        }
    }
}

// ---------------------------------------------------------------------------
// Values older saves may lack
// ---------------------------------------------------------------------------

/// MP (and max MP) a new player starts with.
pub const PLAYER_BASE_MP: i32 = 10;

/// Hunger (and max hunger) a new player starts with.
pub const PLAYER_BASE_HUNGER: i32 = 100;

/// Level of a save that records none.
pub fn default_level() -> (v: u32)
    ensures
        v == 1,
{
    1
}

/// Floor of a save that records none.
pub fn default_floor() -> (v: u32)
    ensures
        v == 1,
{
    1
}

/// Experience to the next level of a save that records none: the first
/// level's cost.
pub fn default_next_exp() -> (v: u32)
    ensures
        v == crate::progression::exp_needed_spec(1),
{
    crate::progression::exp_needed_for_level(1)
}

/// Player id of a save that records none.
pub fn default_player_id() -> (v: u64)
    ensures
        v == 0,
{
    0
}

/// MP of a save that records none.
pub fn default_player_mp() -> (v: i32)
    ensures
        v == PLAYER_BASE_MP,
{
    PLAYER_BASE_MP
}

/// Max MP of a save that records none.
pub fn default_player_max_mp() -> (v: i32)
    ensures
        v == PLAYER_BASE_MP,
{
    PLAYER_BASE_MP
}

/// Hunger of a save that records none.
pub fn default_player_hunger() -> (v: i32)
    ensures
        v == PLAYER_BASE_HUNGER,
{
    PLAYER_BASE_HUNGER
}

/// Max hunger of a save that records none.
pub fn default_player_max_hunger() -> (v: i32)
    ensures
        v == PLAYER_BASE_HUNGER,
{
    PLAYER_BASE_HUNGER
}

/// Entity counter of a save that records none.
pub fn default_next_entity_id() -> (v: u64)
    ensures
        v == 1,
{
    1
}

/// Language of a save that records none.
pub fn default_lang_code() -> (s: String)
    ensures
        s@ == "en"@,
{
    "en".to_owned()
}

// ---------------------------------------------------------------------------
// Laws
// ---------------------------------------------------------------------------

/// Every entry has a uid, below the counter, and a ritual bonus in `0..=6`.
pub open spec fn items_well_numbered(items: Seq<InventoryItem>, next: u64) -> bool {
    forall|i: int|
        0 <= i < items.len() ==> #[trigger] items[i].uid != 0 && items[i].uid < next && 0
            <= items[i].weapon_bonus <= FORGE_SCROLL_ATK_BONUS_MAX
}

proof fn lemma_restore_items_counter(items: Seq<InventoryItem>, next: u64)
    requires
        next >= 1,
        next + items.len() < u64::MAX,
        forall|i: int| 0 <= i < items.len() ==> #[trigger] items[i].uid < u64::MAX - items.len(),
    ensures
        restore_items_spec(items, next).1 >= next,
        restore_items_spec(items, next).1 <= max_u64(next, max_uid(items)) + items.len(),
        restore_items_spec(items, next).0.len() == items.len(),
        items_well_numbered(restore_items_spec(items, next).0, restore_items_spec(items, next).1),
    decreases items.len(),
{
    if items.len() > 0 {
        let init = items.drop_last();
        assert forall|i: int| 0 <= i < init.len() implies #[trigger] init[i].uid < u64::MAX - init.len() by {
            assert(init[i] == items[i]);
        }
        lemma_restore_items_counter(init, next);
        lemma_max_uid_bound(items);
        let prev = restore_items_spec(init, next);
        let step = restore_item_step(items.last(), prev.1);
        assert(restore_items_spec(items, next).0 == prev.0.push(step.0));
        assert(items_well_numbered(prev.0, prev.1));
        assert(max_uid(init) < u64::MAX - items.len()) by {
            lemma_max_uid_below(init, (u64::MAX - items.len()) as int);
        }
        assert(prev.1 < u64::MAX - 1);
        assert(step.1 >= prev.1);
        assert(step.0.uid != 0 && step.0.uid < step.1);
        assert(0 <= step.0.weapon_bonus <= FORGE_SCROLL_ATK_BONUS_MAX);
        assert forall|i: int| 0 <= i < prev.0.len() + 1 implies #[trigger] prev.0.push(step.0)[i].uid != 0
            && prev.0.push(step.0)[i].uid < step.1 && 0 <= prev.0.push(step.0)[i].weapon_bonus
            <= FORGE_SCROLL_ATK_BONUS_MAX by {
            if i < prev.0.len() {
                assert(prev.0.push(step.0)[i] == prev.0[i]);
            }
        }
    }
}

/// Largest uid among the entries.
pub open spec fn max_uid(items: Seq<InventoryItem>) -> u64
    decreases items.len(),
{
    if items.len() == 0 {
        0
    } else {
        max_u64(max_uid(items.drop_last()), items.last().uid)
    }
}

proof fn lemma_max_uid_bound(items: Seq<InventoryItem>)
    ensures
        forall|i: int| 0 <= i < items.len() ==> #[trigger] items[i].uid <= max_uid(items),
        items.len() > 0 ==> max_uid(items.drop_last()) <= max_uid(items),
    decreases items.len(),
{
    if items.len() > 0 {
        lemma_max_uid_bound(items.drop_last());
        assert forall|i: int| 0 <= i < items.len() implies #[trigger] items[i].uid <= max_uid(items) by {
            if i < items.len() - 1 {
                assert(items[i] == items.drop_last()[i]);
            }
        }
    }
}

proof fn lemma_max_uid_below(items: Seq<InventoryItem>, bound: int)
    requires
        bound > 0,
        forall|i: int| 0 <= i < items.len() ==> #[trigger] items[i].uid < bound,
    ensures
        max_uid(items) < bound,
    decreases items.len(),
{
    if items.len() > 0 {
        let init = items.drop_last();
        assert forall|i: int| 0 <= i < init.len() implies #[trigger] init[i].uid < bound by {
            assert(init[i] == items[i]);
        }
        lemma_max_uid_below(init, bound);
    }
}

/// Law: after a saved bag is brought back, every entry carries a uid of its
/// own making below the entity counter, and every ritual bonus lies in
/// `0..=6` — for counters and uids far enough from the top of the range that
/// adding one cannot saturate.
pub proof fn lemma_restored_items_well_numbered(items: Seq<InventoryItem>, next: u64)
    requires
        next >= 1,
        next + items.len() < u64::MAX,
        forall|i: int| 0 <= i < items.len() ==> #[trigger] items[i].uid < u64::MAX - items.len(),
    ensures
        items_well_numbered(restore_items_spec(items, next).0, restore_items_spec(items, next).1),
        restore_items_spec(items, next).1 >= next,
{
    lemma_restore_items_counter(items, next);
}

} // verus!
