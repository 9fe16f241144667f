//! The player's inventory: stacking of materials, capacity, taking single
//! items, reordering, and keeping equipped items in step with the bag.
use vstd::prelude::*;

use crate::items::Item;
use crate::strings::{chars_of, spec_trim, string_from_chars, trim_chars};

verus! {

/// Most entries the inventory holds.
pub const MAX_INVENTORY: usize = 20;

/// Most units in one stack of a material.
pub const MAX_STACK_QTY: u16 = 10;

/// Largest ritual bonus a weapon can carry.
pub const FORGE_SCROLL_ATK_BONUS_MAX: i32 = 6;

/// One inventory entry.
pub struct InventoryItem {
    pub uid: u64,
    pub kind: Item,
    pub custom_name: Option<String>,
    pub weapon_bonus: i32,
    pub qty: u16,
}

impl Clone for InventoryItem {
    fn clone(&self) -> (r: Self)
        ensures
            r == *self,
    {
        let custom_name = match &self.custom_name {
            Some(n) => Some(n.clone()),
            None => None,
        };
        InventoryItem {
            uid: self.uid,
            kind: self.kind,
            custom_name,
            weapon_bonus: self.weapon_bonus,
            qty: self.qty,
        }
    }
}

/// Materials that stack.
pub open spec fn is_stackable_material_spec(kind: Item) -> bool {
    kind == Item::Wood || kind == Item::Stone || kind == Item::StringFiber || kind
        == Item::IronIngot || kind == Item::Hide
}

/// An entry stacks when it is an unnamed material.
pub open spec fn can_stack_spec(item: InventoryItem) -> bool {
    is_stackable_material_spec(item.kind) && item.custom_name is None
}

/// The custom name `new_name` gives: the text trimmed, or none when that
/// leaves nothing.
pub open spec fn rename_spec(new_name: Seq<char>) -> Option<Seq<char>> {
    if spec_trim(new_name).len() == 0 {
        None
    } else {
        Some(spec_trim(new_name))
    }
}

/// A custom name as plain characters.
pub open spec fn name_view(n: Option<String>) -> Option<Seq<char>> {
    match n {
        Some(s) => Some(s@),
        None => None,
    }
}

/// Two entries are the same object: equal non-zero uids, or (when a uid is
/// missing) equal kind and name.
pub open spec fn same_identity_spec(a: InventoryItem, b: InventoryItem) -> bool {
    if a.uid != 0 && b.uid != 0 {
        a.uid == b.uid
    } else {
        a.kind == b.kind && name_view(a.custom_name) == name_view(b.custom_name)
    }
}

/// Whether `kind` is a stackable material.
pub fn is_stackable_material(kind: Item) -> (b: bool)
    ensures
        b == is_stackable_material_spec(kind),
{
    match kind {
        Item::Wood | Item::Stone | Item::StringFiber | Item::IronIngot | Item::Hide => true,
        _ => false,
    }
}

/// Whether `item` stacks with entries of its kind.
pub fn can_stack(item: &InventoryItem) -> (b: bool)
    ensures
        b == can_stack_spec(*item),
{
    is_stackable_material(item.kind) && item.custom_name.is_none()
}

fn option_string_eq(a: &Option<String>, b: &Option<String>) -> (r: bool)
    ensures
        r == (name_view(*a) == name_view(*b)),
{
    match (a, b) {
        (Some(x), Some(y)) => crate::strings::str_eq(x.as_str(), y.as_str()),
        (None, None) => true,
        _ => false,
    }
}

impl InventoryItem {
    /// Whether `self` and `other` are the same object.
    pub fn same_identity(&self, other: &InventoryItem) -> (r: bool)
        ensures
            r == same_identity_spec(*self, *other),
    {
        if self.uid != 0 && other.uid != 0 {
            self.uid == other.uid
        } else {
            self.kind == other.kind && option_string_eq(&self.custom_name, &other.custom_name)
        }
    }
}

/// The next entity id: the counter, or 1 when it is zero.
pub open spec fn alloc_id_spec(next: u64) -> u64 {
    if next == 0 {
        1
    } else {
        next
    }
}

/// Hands out the next entity id and advances the counter past it.
pub fn alloc_entity_id(next_entity_id: &mut u64) -> (id: u64)
    ensures
        id == alloc_id_spec(*old(next_entity_id)),
        *final(next_entity_id) == id.saturating_add(1),
{
    let id = if *next_entity_id == 0 {
        1
    } else {
        *next_entity_id
    };
    *next_entity_id = id.saturating_add(1);
    id
}

/// The player's bag and equipment slots.
pub struct Inventory {
    pub items: Vec<InventoryItem>,
    pub equipped_sword: Option<InventoryItem>,
    pub equipped_shield: Option<InventoryItem>,
    pub equipped_accessory: Option<InventoryItem>,
}

/// A fresh unnamed stack.
pub open spec fn new_stack(uid: u64, kind: Item, qty: u16) -> InventoryItem {
    InventoryItem { uid, kind, custom_name: None, weapon_bonus: 0, qty }
}

pub open spec fn min_u16(a: u16, b: u16) -> u16 {
    if a < b {
        a
    } else {
        b
    }
}

/// Topping up, in order, the existing stacks of `kind` from `rem` units: the
/// entries afterwards and the units left over.
pub open spec fn top_up(items: Seq<InventoryItem>, kind: Item, rem: u16) -> (Seq<InventoryItem>, u16)
    decreases items.len(),
{
    if items.len() == 0 {
        (items, rem)
    } else {
        let prev = top_up(items.drop_last(), kind, rem);
        let it = items.last();
        let r = prev.1;
        if r > 0 && can_stack_spec(it) && it.kind == kind && it.qty < MAX_STACK_QTY {
            let add = min_u16((MAX_STACK_QTY - it.qty) as u16, r);
            (prev.0.push(InventoryItem { qty: (it.qty + add) as u16, ..it }), (r - add) as u16)
        } else {
            (prev.0.push(it), r)
        }
    }
}

/// Appending new stacks of at most `MAX_STACK_QTY` units for `rem` units while
/// there is room: entries, id counter, and whether every unit found a place.
pub open spec fn push_stacks(items: Seq<InventoryItem>, kind: Item, rem: u16, next: u64) -> (Seq<InventoryItem>, u64, bool)
    decreases rem,
{
    if rem == 0 {
        (items, next, true)
    } else if items.len() >= MAX_INVENTORY {
        (items, next, false)
    } else {
        let add = min_u16(rem, MAX_STACK_QTY);
        let id = alloc_id_spec(next);
        push_stacks(items.push(new_stack(id, kind, add)), kind, (rem - add) as u16, id.saturating_add(1))
    }
}

/// Adding `item` to `items`: entries afterwards, id counter, and success.
/// Materials first fill existing stacks, then open new ones; when the bag runs
/// out of room the stacks already filled stay filled. Other items take one
/// entry of quantity one, with a fresh uid if they had none.
pub open spec fn add_item_spec(items: Seq<InventoryItem>, item: InventoryItem, next: u64) -> (Seq<InventoryItem>, u64, bool) {
    let q: u16 = if item.qty == 0 { 1 } else { item.qty };
    if can_stack_spec(item) {
        let t = top_up(items, item.kind, q);
        push_stacks(t.0, item.kind, t.1, next)
    } else {
        let uid = if item.uid == 0 { alloc_id_spec(next) } else { item.uid };
        let next2 = if item.uid == 0 { uid.saturating_add(1) } else { next };
        if items.len() >= MAX_INVENTORY {
            (items, next2, false)
        } else {
            (items.push(InventoryItem { qty: 1, uid, ..item }), next2, true)
        }
    }
}

/// Units of `kind` held in stackable entries.
pub open spec fn stacked_units(items: Seq<InventoryItem>, kind: Item) -> nat
    decreases items.len(),
{
    if items.len() == 0 {
        0
    } else {
        let it = items.last();
        stacked_units(items.drop_last(), kind) + if can_stack_spec(it) && it.kind == kind {
            it.qty as nat
        } else {
            0
        }
    }
}

/// Some entry of `items` is the same object as `e`.
pub open spec fn holds_identity(items: Seq<InventoryItem>, e: InventoryItem) -> bool {
    exists|i: int| 0 <= i < items.len() && same_identity_spec(#[trigger] items[i], e)
}

/// An equipment slot after checking it against the bag: emptied when the bag
/// no longer holds its item.
pub open spec fn synced_slot(items: Seq<InventoryItem>, slot: Option<InventoryItem>) -> Option<InventoryItem> {
    match slot {
        Some(e) => if holds_identity(items, e) {
            Some(e)
        } else {
            None
        },
        None => None,
    }
}

fn holds_identity_exec(items: &Vec<InventoryItem>, e: &InventoryItem) -> (r: bool)
    ensures
        r == holds_identity(items@, *e),
{
    let mut i: usize = 0;
    while i < items.len()
        invariant
            i <= items@.len(),
            forall|j: int| 0 <= j < i ==> !same_identity_spec(#[trigger] items@[j], *e),
        decreases items@.len() - i,
    {
        if items[i].same_identity(e) {
            return true;
        }
        i = i + 1;
    }
    false
}

fn synced(items: &Vec<InventoryItem>, slot: Option<InventoryItem>) -> (r: Option<InventoryItem>)
    ensures
        r == synced_slot(items@, slot),
{
    match slot {
        Some(e) => if holds_identity_exec(items, &e) {
            Some(e)
        } else {
            None
        },
        None => None,
    }
}

/// `items` with one unit taken from entry `idx`: the entry loses one unit, or
/// goes when it held one. Also gives the unit taken.
pub open spec fn take_one_spec(items: Seq<InventoryItem>, idx: int) -> (Seq<InventoryItem>, InventoryItem) {
    let it = items[idx];
    if it.qty > 1 {
        (items.update(idx, InventoryItem { qty: (it.qty - 1) as u16, ..it }), InventoryItem { qty: 1, ..it })
    } else {
        (items.remove(idx), it)
    }
}

impl Inventory {
    /// Whether the bag has no free entry.
    pub fn inventory_full(&self) -> (b: bool)
        ensures
            b == (self.items@.len() >= MAX_INVENTORY),
    {
        self.items.len() >= MAX_INVENTORY
    }

    /// Number of entries.
    pub fn inventory_len(&self) -> (n: usize)
        ensures
            n == self.items@.len(),
    {
        self.items.len()
    }

    /// Empties each equipment slot whose item the bag no longer holds.
    pub fn sync_equipped_with_inventory(&mut self)
        ensures
            final(self).items@ == old(self).items@,
            final(self).equipped_sword == synced_slot(old(self).items@, old(self).equipped_sword),
            final(self).equipped_shield == synced_slot(old(self).items@, old(self).equipped_shield),
            final(self).equipped_accessory == synced_slot(
                old(self).items@,
                old(self).equipped_accessory,
            ),
    {
        let sword = self.equipped_sword.take();
        self.equipped_sword = synced(&self.items, sword);
        let shield = self.equipped_shield.take();
        self.equipped_shield = synced(&self.items, shield);
        let accessory = self.equipped_accessory.take();
        self.equipped_accessory = synced(&self.items, accessory);
    }

    /// Takes one unit out of entry `idx`, then clears equipment that left the bag.
    pub fn take_inventory_one(&mut self, idx: usize) -> (r: Option<InventoryItem>)
        ensures
            idx >= old(self).items@.len() ==> r is None && *final(self) == *old(self),
            idx < old(self).items@.len() ==> {
                let t = take_one_spec(old(self).items@, idx as int);
                &&& r == Some(t.1)
                &&& final(self).items@ == t.0
                &&& final(self).equipped_sword == synced_slot(t.0, old(self).equipped_sword)
                &&& final(self).equipped_shield == synced_slot(t.0, old(self).equipped_shield)
                &&& final(self).equipped_accessory == synced_slot(t.0, old(self).equipped_accessory)
            },
    {
        if idx >= self.items.len() {
            return None;
        }
        let taken = if self.items[idx].qty > 1 {
            let mut rest = self.items[idx].clone();
            rest.qty = rest.qty - 1;
            let mut one = self.items[idx].clone();
            one.qty = 1;
            self.items.set(idx, rest);
            one
        } else {
            self.items.remove(idx)
        };
        self.sync_equipped_with_inventory();
        Some(taken)
    }

    /// Gives entry `idx` the name `new_name`, trimmed; a name that trims to
    /// nothing removes the custom name. Returns whether there is such an
    /// entry; nothing else changes.
    pub fn rename_inventory_item(&mut self, idx: usize, new_name: &str) -> (r: bool)
        ensures
            r == (idx < old(self).items@.len()),
            final(self).items@.len() == old(self).items@.len(),
            forall|j: int| 0 <= j < old(self).items@.len() && j != idx ==> final(self).items@[j] == old(self).items@[j],
            r ==> ({
                let before = old(self).items@[idx as int];
                let after = final(self).items@[idx as int];
                &&& after.uid == before.uid
                &&& after.kind == before.kind
                &&& after.weapon_bonus == before.weapon_bonus
                &&& after.qty == before.qty
                &&& name_view(after.custom_name) == rename_spec(new_name@)
            }),
            final(self).equipped_sword == old(self).equipped_sword,
            final(self).equipped_shield == old(self).equipped_shield,
            final(self).equipped_accessory == old(self).equipped_accessory,
    {
        if idx >= self.items.len() {
            return false;
        }
        let chars = chars_of(new_name);
        let trimmed = trim_chars(&chars);
        let name = if trimmed.len() == 0 {
            None
        } else {
            Some(string_from_chars(&trimmed))
        };
        let entry = InventoryItem {
            uid: self.items[idx].uid,
            kind: self.items[idx].kind,
            custom_name: name,
            weapon_bonus: self.items[idx].weapon_bonus,
            qty: self.items[idx].qty,
        };
        self.items.set(idx, entry);
        true
    }

    /// Swaps one unit of entry `idx` with the item `ground` lying under the
    /// player: the unit leaves the bag and the ground item joins it (see
    /// `add_item_spec`). When the ground item does not fit, the unit goes
    /// back into the bag and nothing is swapped. Returns the kind of the
    /// unit now to lie on the ground.
    pub fn swap_ground_item(&mut self, idx: usize, ground: Item, next_entity_id: &mut u64) -> (r: Option<Item>)
        ensures
            idx >= old(self).items@.len() ==> r is None && *final(self) == *old(self) && *final(next_entity_id)
                == *old(next_entity_id),
            idx < old(self).items@.len() ==> {
                let t = take_one_spec(old(self).items@, idx as int);
                let a = add_item_spec(t.0, new_stack(0, ground, 1), *old(next_entity_id));
                if a.2 {
                    &&& r == Some(t.1.kind)
                    &&& final(self).items@ == a.0
                    &&& *final(next_entity_id) == a.1
                } else {
                    let back = add_item_spec(a.0, t.1, a.1);
                    &&& r is None
                    &&& final(self).items@ == back.0
                    &&& *final(next_entity_id) == back.1
                }
            },
    {
        if idx >= self.items.len() {
            return None;
        }
        let taken = match self.take_inventory_one(idx) {
            Some(t) => t,
            None => return None,
        };
        if !self.add_item_kind_to_inventory(ground, next_entity_id) {
            let back = taken.clone();
            let _ = self.add_item_to_inventory(back, next_entity_id);
            return None;
        }
        Some(taken.kind)
    }

    /// Moves entry `from` to position `to`; refuses out-of-range or equal positions.
    pub fn move_inventory_item(&mut self, from: usize, to: usize) -> (moved: bool)
        ensures
            moved == (from < old(self).items@.len() && to < old(self).items@.len() && from != to),
            moved ==> final(self).items@ == old(self).items@.remove(from as int).insert(
                to as int,
                old(self).items@[from as int],
            ),
            !moved ==> final(self).items@ == old(self).items@,
            final(self).equipped_sword == old(self).equipped_sword,
            final(self).equipped_shield == old(self).equipped_shield,
            final(self).equipped_accessory == old(self).equipped_accessory,
    {
        if from >= self.items.len() || to >= self.items.len() || from == to {
            return false;
        }
        let item = self.items.remove(from);
        self.items.insert(to, item);
        true
    }

    /// Position of the first entry of `kind`.
    pub fn first_inventory_index_of_kind(&self, kind: Item) -> (r: Option<usize>)
        ensures
            match r {
                Some(i) => i < self.items@.len() && self.items@[i as int].kind == kind && forall|j: int|
                    0 <= j < i ==> self.items@[j].kind != kind,
                None => forall|j: int| 0 <= j < self.items@.len() ==> self.items@[j].kind != kind,
            },
    {
        let mut i: usize = 0;
        while i < self.items.len()
            invariant
                i <= self.items@.len(),
                forall|j: int| 0 <= j < i ==> self.items@[j].kind != kind,
            decreases self.items@.len() - i,
        {
            if self.items[i].kind == kind {
                return Some(i);
            }
            i = i + 1;
        }
        None
    }

    /// Adds `item` to the bag (see `add_item_spec`), drawing new uids from
    /// `next_entity_id`. Reports whether everything fitted.
    pub fn add_item_to_inventory(&mut self, item: InventoryItem, next_entity_id: &mut u64) -> (ok: bool)
        ensures
            ({
                let s = add_item_spec(old(self).items@, item, *old(next_entity_id));
                &&& final(self).items@ == s.0
                &&& *final(next_entity_id) == s.1
                &&& ok == s.2
            }),
            final(self).equipped_sword == old(self).equipped_sword,
            final(self).equipped_shield == old(self).equipped_shield,
            final(self).equipped_accessory == old(self).equipped_accessory,
    {
        let ghost expected = add_item_spec(old(self).items@, item, *old(next_entity_id));
        let mut entry = item;
        if entry.qty == 0 {
            entry.qty = 1;
        }
        if can_stack(&entry) {
            let ghost orig = self.items@;
            let ghost target = top_up(orig, entry.kind, entry.qty);
            let mut remaining: u16 = entry.qty;
            let mut i: usize = 0;
            while i < self.items.len()
                invariant
                    i <= self.items@.len(),
                    self.items@.len() == orig.len(),
                    target == top_up(orig, entry.kind, entry.qty),
                    self.items@ == top_up(orig.subrange(0, i as int), entry.kind, entry.qty).0 + orig.subrange(i as int, orig.len() as int),
                    remaining == top_up(orig.subrange(0, i as int), entry.kind, entry.qty).1,
                    top_up(orig.subrange(0, i as int), entry.kind, entry.qty).0.len() == i,
                    self.equipped_sword == old(self).equipped_sword,
                    self.equipped_shield == old(self).equipped_shield,
                    self.equipped_accessory == old(self).equipped_accessory,
                decreases orig.len() - i,
            {
                let ghost pre = orig.subrange(0, i as int);
                assert(orig.subrange(0, i + 1).drop_last() =~= pre);
                assert(orig.subrange(0, i + 1).last() == orig[i as int]);
                assert(self.items@[i as int] == orig[i as int]);
                let ghost cur = self.items@;
                if remaining > 0 && can_stack(&self.items[i]) && self.items[i].kind == entry.kind
                    && self.items[i].qty < MAX_STACK_QTY {
                    let space = MAX_STACK_QTY - self.items[i].qty;
                    let add = if space < remaining {
                        space
                    } else {
                        remaining
                    };
                    let mut e = self.items[i].clone();
                    e.qty = e.qty + add;
                    self.items.set(i, e);
                    remaining = remaining - add;
                } else {
                }
                proof {
                    let t = top_up(orig.subrange(0, i + 1), entry.kind, entry.qty);
                    assert(self.items@ =~= t.0 + orig.subrange(i + 1, orig.len() as int));
                }
                i = i + 1;
            }
            assert(orig.subrange(0, orig.len() as int) =~= orig);
            assert(self.items@ =~= target.0);
            let ghost goal = push_stacks(target.0, entry.kind, target.1, *old(next_entity_id));
            assert(goal == expected);
            while remaining > 0
                invariant
                    goal == expected,
                    expected == add_item_spec(old(self).items@, item, *old(next_entity_id)),
                    push_stacks(self.items@, entry.kind, remaining, *next_entity_id) == goal,
                    self.equipped_sword == old(self).equipped_sword,
                    self.equipped_shield == old(self).equipped_shield,
                    self.equipped_accessory == old(self).equipped_accessory,
                decreases remaining,
            {
                if self.items.len() >= MAX_INVENTORY {
                    assert(push_stacks(self.items@, entry.kind, remaining, *next_entity_id) == (
                        self.items@,
                        *next_entity_id,
                        false,
                    ));
                    return false;
                }
                let add = if remaining < MAX_STACK_QTY {
                    remaining
                } else {
                    MAX_STACK_QTY
                };
                let uid = alloc_entity_id(next_entity_id);
                self.items.push(InventoryItem { uid, kind: entry.kind, custom_name: None, weapon_bonus: 0, qty: add });
                remaining = remaining - add;
            }
            return true;
        }
        entry.qty = 1;
        if entry.uid == 0 {
            entry.uid = alloc_entity_id(next_entity_id);
        }
        if self.items.len() >= MAX_INVENTORY {
            return false;
        }
        self.items.push(entry);
        true
    }

    /// Adds one fresh unit of `kind` (see `add_item_to_inventory`).
    pub fn add_item_kind_to_inventory(&mut self, kind: Item, next_entity_id: &mut u64) -> (ok: bool)
        ensures
            ({
                let s = add_item_spec(old(self).items@, new_stack(0, kind, 1), *old(next_entity_id));
                &&& final(self).items@ == s.0
                &&& *final(next_entity_id) == s.1
                &&& ok == s.2
            }),
            final(self).equipped_sword == old(self).equipped_sword,
            final(self).equipped_shield == old(self).equipped_shield,
            final(self).equipped_accessory == old(self).equipped_accessory,
    {
        self.add_item_to_inventory(InventoryItem { uid: 0, kind, custom_name: None, weapon_bonus: 0, qty: 1 }, next_entity_id)
    }
}

/// Every stack of a material holds at most `MAX_STACK_QTY` units.
pub open spec fn stacks_within_limit(items: Seq<InventoryItem>) -> bool {
    forall|i: int| 0 <= i < items.len() && can_stack_spec(#[trigger] items[i]) ==> items[i].qty <= MAX_STACK_QTY
}

proof fn lemma_stacked_units_push(items: Seq<InventoryItem>, x: InventoryItem, kind: Item)
    ensures
        stacked_units(items.push(x), kind) == stacked_units(items, kind) + if can_stack_spec(x) && x.kind == kind {
            x.qty as nat
        } else {
            0
        },
{
    assert(items.push(x).drop_last() =~= items);
}

proof fn lemma_top_up(items: Seq<InventoryItem>, kind: Item, rem: u16)
    ensures
        top_up(items, kind, rem).0.len() == items.len(),
        top_up(items, kind, rem).1 <= rem,
        stacked_units(top_up(items, kind, rem).0, kind) + top_up(items, kind, rem).1 == stacked_units(items, kind) + rem,
        stacks_within_limit(items) ==> stacks_within_limit(top_up(items, kind, rem).0),
    decreases items.len(),
{
    if items.len() > 0 {
        let prev = top_up(items.drop_last(), kind, rem);
        let it = items.last();
        lemma_top_up(items.drop_last(), kind, rem);
        let t = top_up(items, kind, rem);
        assert(stacked_units(items, kind) == stacked_units(items.drop_last(), kind) + if can_stack_spec(it) && it.kind == kind {
            it.qty as nat
        } else {
            0
        });
        lemma_stacked_units_push(prev.0, t.0.last(), kind);
        assert(t.0 == prev.0.push(t.0.last()));
        if stacks_within_limit(items) {
            assert forall|i: int| 0 <= i < items.drop_last().len() && can_stack_spec(#[trigger] items.drop_last()[i]) implies items.drop_last()[i].qty <= MAX_STACK_QTY by {
                assert(items.drop_last()[i] == items[i]);
            }
            assert(can_stack_spec(it) ==> it.qty <= MAX_STACK_QTY) by {
                assert(it == items[items.len() - 1]);
            }
            assert forall|i: int| 0 <= i < t.0.len() && can_stack_spec(#[trigger] t.0[i]) implies t.0[i].qty <= MAX_STACK_QTY by {
                if i < t.0.len() - 1 {
                    assert(t.0[i] == prev.0[i]);
                }
            }
        }
    }
}

proof fn lemma_push_stacks(items: Seq<InventoryItem>, kind: Item, rem: u16, next: u64)
    requires
        is_stackable_material_spec(kind),
    ensures
        items.len() <= MAX_INVENTORY ==> push_stacks(items, kind, rem, next).0.len() <= MAX_INVENTORY,
        push_stacks(items, kind, rem, next).2 ==> stacked_units(push_stacks(items, kind, rem, next).0, kind) == stacked_units(items, kind) + rem,
        stacks_within_limit(items) ==> stacks_within_limit(push_stacks(items, kind, rem, next).0),
    decreases rem,
{
    if rem > 0 && items.len() < MAX_INVENTORY {
        let add = min_u16(rem, MAX_STACK_QTY);
        let id = alloc_id_spec(next);
        let x = new_stack(id, kind, add);
        lemma_stacked_units_push(items, x, kind);
        lemma_push_stacks(items.push(x), kind, (rem - add) as u16, id.saturating_add(1));
        if stacks_within_limit(items) {
            assert forall|i: int| 0 <= i < items.push(x).len() && can_stack_spec(#[trigger] items.push(x)[i]) implies items.push(x)[i].qty <= MAX_STACK_QTY by {
                if i < items.len() {
                    assert(items.push(x)[i] == items[i]);
                }
            }
        }
    }
}

/// Law: adding to a bag of at most `MAX_INVENTORY` entries keeps it within that
/// size and keeps stacks within `MAX_STACK_QTY`; a material that is added in
/// full raises the units of its kind by exactly the quantity added (one when
/// the quantity is zero), and any other item that is added sits at the end.
pub proof fn lemma_add_item_laws(items: Seq<InventoryItem>, item: InventoryItem, next: u64)
    requires
        items.len() <= MAX_INVENTORY,
    ensures
        add_item_spec(items, item, next).0.len() <= MAX_INVENTORY,
        stacks_within_limit(items) ==> stacks_within_limit(add_item_spec(items, item, next).0),
        can_stack_spec(item) && add_item_spec(items, item, next).2 ==> stacked_units(add_item_spec(items, item, next).0, item.kind)
            == stacked_units(items, item.kind) + if item.qty == 0 { 1 } else { item.qty as nat },
        !can_stack_spec(item) && add_item_spec(items, item, next).2 ==> add_item_spec(items, item, next).0.len() == items.len() + 1
            && add_item_spec(items, item, next).0.last().kind == item.kind,
{
    let q: u16 = if item.qty == 0 { 1 } else { item.qty };
    if can_stack_spec(item) {
        lemma_top_up(items, item.kind, q);
        let t = top_up(items, item.kind, q);
        lemma_push_stacks(t.0, item.kind, t.1, next);
    } else {
        if items.len() < MAX_INVENTORY && stacks_within_limit(items) {
            let r = add_item_spec(items, item, next).0;
            assert forall|i: int| 0 <= i < r.len() && can_stack_spec(#[trigger] r[i]) implies r[i].qty <= MAX_STACK_QTY by {
                if i < items.len() {
                    assert(r[i] == items[i]);
                }
            }
        }
    }
}

/// Every entry holds at least one unit and has an id.
pub open spec fn entries_sound(items: Seq<InventoryItem>) -> bool {
    forall|i: int| 0 <= i < items.len() ==> (#[trigger] items[i]).qty >= 1 && items[i].uid != 0
}

proof fn lemma_top_up_sound(items: Seq<InventoryItem>, kind: Item, rem: u16)
    requires
        entries_sound(items),
    ensures
        entries_sound(top_up(items, kind, rem).0),
        top_up(items, kind, rem).0.len() == items.len(),
    decreases items.len(),
{
    if items.len() > 0 {
        lemma_top_up_sound(items.drop_last(), kind, rem);
        let prev = top_up(items.drop_last(), kind, rem);
        let cur = top_up(items, kind, rem).0;
        assert forall|i: int| 0 <= i < cur.len() implies (#[trigger] cur[i]).qty >= 1 && cur[i].uid != 0 by {
            if i < prev.0.len() {
                assert(cur[i] == prev.0[i]);
            } else {
                assert(items[i] == items.last());
            }
        }
    }
}

proof fn lemma_push_stacks_sound(items: Seq<InventoryItem>, kind: Item, rem: u16, next: u64)
    requires
        entries_sound(items),
        items.len() <= MAX_INVENTORY,
    ensures
        entries_sound(push_stacks(items, kind, rem, next).0),
        !push_stacks(items, kind, rem, next).2 ==> push_stacks(items, kind, rem, next).0.len() == MAX_INVENTORY,
    decreases rem,
{
    if rem > 0 && items.len() < MAX_INVENTORY {
        let add = min_u16(rem, MAX_STACK_QTY);
        let id = alloc_id_spec(next);
        let grown = items.push(new_stack(id, kind, add));
        assert forall|i: int| 0 <= i < grown.len() implies (#[trigger] grown[i]).qty >= 1 && grown[i].uid != 0 by {
            if i < items.len() {
                assert(grown[i] == items[i]);
            }
        }
        lemma_push_stacks_sound(grown, kind, (rem - add) as u16, id.saturating_add(1));
    }
}

/// Adding an item to a bag whose entries each hold a unit and have an id
/// keeps them so, and it fails only when the bag is full afterwards.
pub proof fn lemma_add_item_sound(items: Seq<InventoryItem>, item: InventoryItem, next: u64)
    requires
        items.len() <= MAX_INVENTORY,
        entries_sound(items),
    ensures
        entries_sound(add_item_spec(items, item, next).0),
        !add_item_spec(items, item, next).2 ==> add_item_spec(items, item, next).0.len() == MAX_INVENTORY,
        !add_item_spec(items, item, next).2 ==> items.len() == MAX_INVENTORY || can_stack_spec(item),
{
    let q: u16 = if item.qty == 0 { 1 } else { item.qty };
    if can_stack_spec(item) {
        lemma_top_up_sound(items, item.kind, q);
        let t = top_up(items, item.kind, q);
        lemma_push_stacks_sound(t.0, item.kind, t.1, next);
    } else if items.len() < MAX_INVENTORY {
        let r = add_item_spec(items, item, next).0;
        assert forall|i: int| 0 <= i < r.len() implies (#[trigger] r[i]).qty >= 1 && r[i].uid != 0 by {
            if i < items.len() {
                assert(r[i] == items[i]);
            }
        }
    }
}

/// One of the five materials: wood, stone, string fiber, iron ingots and
/// hides.
pub open spec fn is_material_kind(k: Item) -> bool {
    ||| k == Item::Wood
    ||| k == Item::Stone
    ||| k == Item::StringFiber
    ||| k == Item::IronIngot
    ||| k == Item::Hide
}

/// A stack that one more unit of unnamed `k` can top up: an unnamed stack
/// of `k` holding fewer than ten units.
pub open spec fn open_stack_of(it: InventoryItem, k: Item) -> bool {
    it.kind == k && it.custom_name is None && it.qty < 10
}

proof fn lemma_top_up_unit(items: Seq<InventoryItem>, k: Item, i: int, n: int)
    requires
        is_material_kind(k),
        0 <= i < items.len(),
        open_stack_of(items[i], k),
        forall|j: int| 0 <= j < i ==> !open_stack_of(#[trigger] items[j], k),
        0 <= n <= items.len(),
    ensures
        top_up(items.take(n), k, 1) == (if n <= i {
            (items.take(n), 1u16)
        } else {
            (items.take(n).update(i, InventoryItem { qty: (items[i].qty + 1) as u16, ..items[i] }), 0u16)
        }),
    decreases n,
{
    if n > 0 {
        lemma_top_up_unit(items, k, i, n - 1);
        let t = items.take(n);
        assert(t.drop_last() =~= items.take(n - 1));
        assert(t.last() == items[n - 1]);
        if n - 1 < i {
            assert(!open_stack_of(items[n - 1], k));
            assert(t =~= items.take(n - 1).push(items[n - 1]));
        } else if n - 1 == i {
            assert(items.take(n).update(i, InventoryItem { qty: (items[i].qty + 1) as u16, ..items[i] }) =~= items.take(
                n - 1,
            ).push(InventoryItem { qty: (items[i].qty + 1) as u16, ..items[i] }));
        } else {
            assert(items.take(n).update(i, InventoryItem { qty: (items[i].qty + 1) as u16, ..items[i] }) =~= items.take(
                n - 1,
            ).update(i, InventoryItem { qty: (items[i].qty + 1) as u16, ..items[i] }).push(items[n - 1]));
        }
    }
}

/// Law: the five materials (wood, stone, string fiber, iron ingots and
/// hides) are exactly the kinds that stack; and one more unnamed unit of a
/// material goes onto the first of its unnamed stacks with room, raising
/// that stack by one: the entry count and the id counter stay as they
/// were.
pub proof fn lemma_material_unit_stacks(items: Seq<InventoryItem>, k: Item, next: u64, i: int)
    ensures
        is_stackable_material_spec(k) <==> is_material_kind(k),
        is_material_kind(k) && 0 <= i < items.len() && open_stack_of(items[i], k) && (forall|j: int|
            0 <= j < i ==> !open_stack_of(#[trigger] items[j], k)) ==> add_item_spec(items, new_stack(0, k, 1), next)
            == (items.update(i, InventoryItem { qty: (items[i].qty + 1) as u16, ..items[i] }), next, true),
{
    if is_material_kind(k) && 0 <= i < items.len() && open_stack_of(items[i], k) && (forall|j: int|
        0 <= j < i ==> !open_stack_of(#[trigger] items[j], k)) {
        lemma_top_up_unit(items, k, i, items.len() as int);
        assert(items.take(items.len() as int) =~= items);
    }
}

/// The id the counter `next` hands out (zero is never handed out).
pub open spec fn fresh_id(next: u64) -> u64 {
    if next == 0 {
        1
    } else {
        next
    }
}

/// The counter after handing out `fresh_id(next)`.
pub open spec fn after_fresh(next: u64) -> u64 {
    if fresh_id(next) == u64::MAX {
        u64::MAX
    } else {
        (fresh_id(next) + 1) as u64
    }
}

/// Law: an item that does not stack (anything but an unnamed material)
/// takes a new entry of one unit at the end of a bag of fewer than twenty
/// entries, keeping its id or, without one, taking a fresh id from the
/// counter; a full bag of twenty refuses it and stays as it was. One
/// unnamed unit of a material with no open stack of its kind in the bag
/// opens a new stack of one unit at the end, with a fresh id, when the bag
/// has fewer than twenty entries, and is refused otherwise.
pub proof fn lemma_add_item_new_entry(items: Seq<InventoryItem>, item: InventoryItem, next: u64)
    requires
        items.len() <= 20,
    ensures
        !(is_material_kind(item.kind) && item.custom_name is None) ==> add_item_spec(items, item, next) == (if items.len()
            < 20 {
            (
                items.push(
                    InventoryItem { qty: 1, uid: if item.uid == 0 { fresh_id(next) } else { item.uid }, ..item },
                ),
                if item.uid == 0 { after_fresh(next) } else { next },
                true,
            )
        } else {
            (items, if item.uid == 0 { after_fresh(next) } else { next }, false)
        }),
        is_material_kind(item.kind) && item.custom_name is None && item.qty <= 1 && (forall|j: int|
            0 <= j < items.len() ==> !open_stack_of(#[trigger] items[j], item.kind)) ==> add_item_spec(items, item, next)
            == (if items.len() < 20 {
            (items.push(new_stack(fresh_id(next), item.kind, 1)), after_fresh(next), true)
        } else {
            (items, next, false)
        }),
{
    if is_material_kind(item.kind) && item.custom_name is None && item.qty <= 1 && (forall|j: int|
        0 <= j < items.len() ==> !open_stack_of(#[trigger] items[j], item.kind)) {
        lemma_top_up_none(items, item.kind, items.len() as int);
        assert(items.take(items.len() as int) =~= items);
        let t = top_up(items, item.kind, 1);
        assert(t == (items, 1u16));
        if items.len() < 20 {
            let pushed = items.push(new_stack(fresh_id(next), item.kind, 1));
            assert(push_stacks(pushed, item.kind, 0, after_fresh(next)) == (pushed, after_fresh(next), true));
        }
    }
}

proof fn lemma_top_up_none(items: Seq<InventoryItem>, k: Item, n: int)
    requires
        is_material_kind(k),
        forall|j: int| 0 <= j < items.len() ==> !open_stack_of(#[trigger] items[j], k),
        0 <= n <= items.len(),
    ensures
        top_up(items.take(n), k, 1) == (items.take(n), 1u16),
    decreases n,
{
    if n > 0 {
        lemma_top_up_none(items, k, n - 1);
        let t = items.take(n);
        assert(t.drop_last() =~= items.take(n - 1));
        assert(t.last() == items[n - 1]);
        assert(!open_stack_of(items[n - 1], k));
        assert(t =~= items.take(n - 1).push(items[n - 1]));
    }
}

} // verus!
