//! The player between turns: using items from the bag, the forge ritual,
//! the end-of-turn upkeep (burning, hunger, regeneration) and arriving on a
//! new floor.
use vstd::prelude::*;

use crate::combat::{
    StatusState, apply_status_bundle, max_u8, can_pay_ancient_spec, can_spend_ancient_for_weapon, is_ancient_weapon_item,
    is_ancient_weapon_spec, item_attack_bonus_spec, try_spend_mp,
};
use crate::inventory::{
    FORGE_SCROLL_ATK_BONUS_MAX, Inventory, InventoryItem, same_identity_spec, synced_slot,
    take_one_spec,
};
use crate::items::Item;
use crate::progression::Progress;

verus! {

/// HP a potion restores.
pub const POTION_HEAL: i32 = 6;

/// HP a herb restores.
pub const HERB_HEAL: i32 = 3;

/// HP an elixir restores.
pub const ELIXIR_HEAL: i32 = 12;

/// Hunger that using a healing item also restores.
pub const ITEM_USE_HUNGER_RESTORE: i32 = 5;

/// Hunger jerky restores.
pub const FOOD_HUNGER_RESTORE: i32 = 50;

/// Hunger bread restores.
pub const BREAD_HUNGER_RESTORE: i32 = 100;

/// MP the forge ritual costs.
pub const FORGE_SCROLL_MP_COST: i32 = 4;

/// Ritual bonus one forge ritual adds.
pub const FORGE_SCROLL_ATK_BONUS_GAIN: i32 = 1;

/// Turns between two hunger losses.
pub const HUNGER_INTERVAL_TURNS: u64 = 4;

/// Turns between two points of natural regeneration.
pub const TURN_REGEN_INTERVAL: u64 = 8;

/// Everything about the player that is a plain number or flag.
#[derive(Clone, Copy, Debug, PartialEq, Eq, Structural)]
pub struct Vitals {
    pub hp: i32,
    pub hunger: i32,
    pub max_hunger: i32,
    pub progress: Progress,
    pub status: StatusState,
    pub ancient_charge: u8,
    pub turn: u64,
    pub floor: u32,
    pub invincible: bool,
    pub damage_taken: u32,
}

/// The player: vitals and bag.
pub struct PlayerState {
    pub vitals: Vitals,
    pub bag: Inventory,
}

/// What the world around the player says about using an item.
#[derive(Clone, Copy, Debug, PartialEq, Eq, Structural)]
pub struct UseContext {
    /// A torch already stands on the player's tile.
    pub torch_here: bool,
    /// The player stands on a blood stain.
    pub on_blood_stain: bool,
    /// The ground around the player holds the forge pattern's materials.
    pub forge_pattern_laid: bool,
}

/// A spell a scroll casts once its MP is paid.
#[derive(Clone, Copy, Debug, PartialEq, Eq, Structural)]
pub enum Spell {
    Flame,
    Ember,
    Blink,
    Bind,
    Repulse,
    Nova,
}

/// An equipment slot.
#[derive(Clone, Copy, Debug, PartialEq, Eq, Structural)]
pub enum Slot {
    Weapon,
    Shield,
    Accessory,
}

/// What using an item did, and what the world must do next.
#[derive(Clone, Copy, Debug, PartialEq, Eq, Structural)]
pub enum ItemUse {
    /// No entry at that position.
    NothingToUse,
    /// A healing item was used; HP rose by `healed` (possibly zero).
    Healed { healed: i32 },
    /// Food was eaten; hunger rose by `restored` (possibly zero).
    Fed { restored: i32 },
    /// A torch already stands here; nothing was used.
    TorchAlready,
    /// A torch left the bag; the world places it on the player's tile.
    TorchPlaced,
    /// The MP did not cover `need`; nothing was used.
    NoMp { need: i32 },
    /// The MP was paid; the world casts the spell.
    Cast(Spell),
    /// A pulse bomb left the bag; the world sets it off.
    PulseBomb,
    /// The forge ritual needs an equipped weapon.
    ForgeNeedWeapon,
    /// The forge ritual needs a blood stain under the player.
    ForgeNeedBlood,
    /// The equipped weapon already carries the largest ritual bonus.
    ForgeWeaponMax,
    /// The materials around the player do not match the pattern.
    ForgePatternMismatch,
    /// The ritual succeeded; the weapon's ritual bonus is now `bonus`. The
    /// world consumes the pattern's materials.
    Forged { bonus: i32 },
    /// The equipped ancient weapon's art can be paid; the world tries it and,
    /// when it takes effect, the charge is paid with `spend_ancient_for_weapon`.
    AncientArt(Item),
    /// The ancient charge does not cover the art.
    AncientSilent,
    /// The item went into a slot.
    Equipped(Slot),
    /// The item left its slot.
    Unequipped(Slot),
    /// Materials and memories are not used directly.
    CannotUseDirect,
}

/// HP a healing item restores.
pub open spec fn heal_amount(kind: Item) -> Option<i32> {
    match kind {
        Item::Potion => Some(POTION_HEAL),
        Item::Herb => Some(HERB_HEAL),
        Item::Elixir => Some(ELIXIR_HEAL),
        _ => None,
    }
}

/// Hunger a food restores.
pub open spec fn food_amount(kind: Item) -> Option<i32> {
    match kind {
        Item::Food => Some(FOOD_HUNGER_RESTORE),
        Item::Bread => Some(BREAD_HUNGER_RESTORE),
        _ => None,
    }
}

/// The spell a scroll casts and its MP cost.
pub open spec fn scroll_spell(kind: Item) -> Option<(Spell, i32)> {
    match kind {
        Item::FlameScroll => Some((Spell::Flame, 2i32)),
        Item::EmberScroll => Some((Spell::Ember, 3i32)),
        Item::BlinkScroll => Some((Spell::Blink, 3i32)),
        Item::BindScroll => Some((Spell::Bind, 3i32)),
        Item::RepulseScroll => Some((Spell::Repulse, 4i32)),
        Item::NovaScroll => Some((Spell::Nova, 5i32)),
        _ => None,
    }
}

/// Items that go into the weapon slot.
pub open spec fn is_wieldable(kind: Item) -> bool {
    kind == Item::StoneAxe || kind == Item::IronSword || kind == Item::IronPickaxe
        || is_ancient_weapon_spec(kind)
}

/// Law: exactly the items that can be wielded add attack; the stone axe
/// adds 2, the iron sword and the iron pickaxe 3 each; of the ancient
/// weapons the Gladius Nadir adds 5, the Ferrum Occasus and the Virga
/// Oriens 4, the Virga Meridies 3 and the Virga Zenith 2.
pub proof fn lemma_weapon_attack_bonus(item: Item)
    ensures
        (item_attack_bonus_spec(item) > 0) <==> is_wieldable(item),
        item_attack_bonus_spec(Item::IronPickaxe) == item_attack_bonus_spec(Item::IronSword),
        item_attack_bonus_spec(item) == (if item == Item::StoneAxe || item == Item::VirgaZenith {
            2
        } else if item == Item::IronSword || item == Item::IronPickaxe || item == Item::VirgaMeridies {
            3
        } else if item == Item::FerrumOccasus || item == Item::VirgaOriens {
            4
        } else if item == Item::GladiusNadir {
            5
        } else {
            0int
        }),
{
}

pub open spec fn min_i32(a: int, b: int) -> int {
    if a < b {
        a
    } else {
        b
    }
}

/// `slot` holds the same object as `it`.
pub open spec fn holds_same(slot: Option<InventoryItem>, it: InventoryItem) -> bool {
    match slot {
        Some(e) => same_identity_spec(e, it),
        None => false,
    }
}

/// The forge ritual's outcome and the player's MP after it.
pub open spec fn forge_spec(v: Vitals, sword: Option<InventoryItem>, ctx: UseContext) -> (Vitals, ItemUse) {
    match sword {
        None => (v, ItemUse::ForgeNeedWeapon),
        Some(s) => if !ctx.on_blood_stain {
            (v, ItemUse::ForgeNeedBlood)
        } else if s.weapon_bonus >= FORGE_SCROLL_ATK_BONUS_MAX {
            (v, ItemUse::ForgeWeaponMax)
        } else if !ctx.forge_pattern_laid {
            (v, ItemUse::ForgePatternMismatch)
        } else if v.progress.player_mp < FORGE_SCROLL_MP_COST {
            (v, ItemUse::NoMp { need: FORGE_SCROLL_MP_COST })
        } else {
            (
                Vitals {
                    progress: Progress {
                        player_mp: (v.progress.player_mp - FORGE_SCROLL_MP_COST) as i32,
                        ..v.progress
                    },
                    ..v
                },
                ItemUse::Forged {
                    bonus: min_i32(
                        s.weapon_bonus + FORGE_SCROLL_ATK_BONUS_GAIN,
                        FORGE_SCROLL_ATK_BONUS_MAX as int,
                    ) as i32,
                },
            )
        },
    }
}

/// What using entry `it` does to the vitals, and its outcome.
pub open spec fn use_spec(v: Vitals, it: InventoryItem, bag: Inventory, ctx: UseContext) -> (Vitals, ItemUse) {
    let kind = it.kind;
    if heal_amount(kind) is Some {
        let hp = min_i32(v.hp + heal_amount(kind)->0, v.progress.player_max_hp as int);
        let hunger = min_i32(v.hunger + ITEM_USE_HUNGER_RESTORE, v.max_hunger as int);
        (Vitals { hp: hp as i32, hunger: hunger as i32, ..v }, ItemUse::Healed { healed: (hp - v.hp) as i32 })
    } else if food_amount(kind) is Some {
        let hunger = min_i32(v.hunger + food_amount(kind)->0, v.max_hunger as int);
        (Vitals { hunger: hunger as i32, ..v }, ItemUse::Fed { restored: (hunger - v.hunger) as i32 })
    } else if kind == Item::Torch {
        if ctx.torch_here {
            (v, ItemUse::TorchAlready)
        } else {
            (v, ItemUse::TorchPlaced)
        }
    } else if scroll_spell(kind) is Some {
        let (spell, cost) = scroll_spell(kind)->0;
        if v.progress.player_mp < cost {
            (v, ItemUse::NoMp { need: cost })
        } else {
            (
                Vitals { progress: Progress { player_mp: (v.progress.player_mp - cost) as i32, ..v.progress }, ..v },
                ItemUse::Cast(spell),
            )
        }
    } else if kind == Item::PulseBomb {
        (v, ItemUse::PulseBomb)
    } else if kind == Item::ForgeScroll {
        forge_spec(v, bag.equipped_sword, ctx)
    } else if is_wieldable(kind) {
        if holds_same(bag.equipped_sword, it) && is_ancient_weapon_spec(kind) {
            if can_pay_ancient_spec(v.ancient_charge, kind) {
                (v, ItemUse::AncientArt(kind))
            } else {
                (v, ItemUse::AncientSilent)
            }
        } else if holds_same(bag.equipped_sword, it) {
            (v, ItemUse::Unequipped(Slot::Weapon))
        } else {
            (v, ItemUse::Equipped(Slot::Weapon))
        }
    } else if kind == Item::WoodenShield {
        if holds_same(bag.equipped_shield, it) {
            (v, ItemUse::Unequipped(Slot::Shield))
        } else {
            (v, ItemUse::Equipped(Slot::Shield))
        }
    } else if kind == Item::LuckyCharm {
        if holds_same(bag.equipped_accessory, it) {
            (v, ItemUse::Unequipped(Slot::Accessory))
        } else {
            (v, ItemUse::Equipped(Slot::Accessory))
        }
    } else {
        (v, ItemUse::CannotUseDirect)
    }
}

/// The first entry that is the same object as `e`.
pub open spec fn first_same(items: Seq<InventoryItem>, e: InventoryItem) -> Option<int> {
    if exists|i: int| 0 <= i < items.len() && same_identity_spec(#[trigger] items[i], e) {
        let i = choose|i: int|
            0 <= i < items.len() && same_identity_spec(#[trigger] items[i], e) && forall|j: int|
                0 <= j < i ==> !same_identity_spec(#[trigger] items[j], e);
        Some(i)
    } else {
        None
    }
}

/// Outcomes that take one unit out of the bag.
pub open spec fn takes_one(u: ItemUse) -> bool {
    u is Healed || u is Fed || u is TorchPlaced || u is PulseBomb
}

/// The bag entries after using entry `idx` with outcome `u`.
pub open spec fn items_after_use(bag: Inventory, idx: int, u: ItemUse) -> Seq<InventoryItem> {
    if takes_one(u) {
        take_one_spec(bag.items@, idx).0
    } else if u is Forged {
        match first_same(bag.items@, bag.equipped_sword->0) {
            Some(i) => bag.items@.update(i, InventoryItem { weapon_bonus: u->bonus, ..bag.items@[i] }),
            None => bag.items@,
        }
    } else {
        bag.items@
    }
}

/// A slot after using entry `idx` with outcome `u`.
pub open spec fn slot_after_use(bag: Inventory, idx: int, u: ItemUse, which: Slot, slot: Option<InventoryItem>) -> Option<InventoryItem> {
    if takes_one(u) {
        synced_slot(take_one_spec(bag.items@, idx).0, slot)
    } else if u is Forged && which == Slot::Weapon {
        Some(InventoryItem { weapon_bonus: u->bonus, ..slot->0 })
    } else if u == ItemUse::Equipped(which) {
        Some(bag.items@[idx])
    } else if u == ItemUse::Unequipped(which) {
        None
    } else {
        slot
    }
}

/// An outcome by which nothing was used: no entry, a torch already there,
/// too little MP, a forge ritual that cannot be made, a silent ancient
/// weapon, or an item not used directly.
pub open spec fn refused(u: ItemUse) -> bool {
    ||| u is NothingToUse
    ||| u is TorchAlready
    ||| u is NoMp
    ||| u is ForgeNeedWeapon
    ||| u is ForgeNeedBlood
    ||| u is ForgeWeaponMax
    ||| u is ForgePatternMismatch
    ||| u is AncientSilent
    ||| u is CannotUseDirect
}

/// Law: a use that is refused changes nothing: the vitals (HP, MP, hunger
/// and the rest), the bag's entries and the three slots stay as they were.
pub proof fn lemma_refused_use_changes_nothing(v: Vitals, bag: Inventory, idx: int, ctx: UseContext)
    requires
        0 <= idx < bag.items@.len(),
        refused(use_spec(v, bag.items@[idx], bag, ctx).1),
    ensures
        use_spec(v, bag.items@[idx], bag, ctx).0 == v,
        items_after_use(bag, idx, use_spec(v, bag.items@[idx], bag, ctx).1) == bag.items@,
        slot_after_use(bag, idx, use_spec(v, bag.items@[idx], bag, ctx).1, Slot::Weapon, bag.equipped_sword)
            == bag.equipped_sword,
        slot_after_use(bag, idx, use_spec(v, bag.items@[idx], bag, ctx).1, Slot::Shield, bag.equipped_shield)
            == bag.equipped_shield,
        slot_after_use(bag, idx, use_spec(v, bag.items@[idx], bag, ctx).1, Slot::Accessory, bag.equipped_accessory)
            == bag.equipped_accessory,
{
}

/// Using an item of `kind` keeps the vitals' arithmetic within `i32`: a
/// healing item's HP and hunger gains, and the HP change it reports, fit;
/// so does a food's hunger gain and the change it reports. Other items do
/// no arithmetic on HP or hunger.
pub open spec fn use_fits(v: Vitals, kind: Item) -> bool {
    &&& heal_amount(kind) is Some ==> {
        &&& v.hp + heal_amount(kind)->0 <= i32::MAX
        &&& v.hunger + ITEM_USE_HUNGER_RESTORE <= i32::MAX
        &&& i32::MIN <= min_i32(v.hp + heal_amount(kind)->0, v.progress.player_max_hp as int) - v.hp
    }
    &&& food_amount(kind) is Some ==> {
        &&& v.hunger + food_amount(kind)->0 <= i32::MAX
        &&& i32::MIN <= min_i32(v.hunger + food_amount(kind)->0, v.max_hunger as int) - v.hunger
    }
}

/// The ground holds the forge pattern: `ground[k]` is what lies on the
/// cell of the pattern's entry `k`, and each holds that entry's material.
pub open spec fn pattern_laid(pattern: Seq<(i32, i32, Item)>, ground: Seq<Option<Item>>) -> bool {
    forall|k: int| 0 <= k < pattern.len() ==> ground[k] == Some(pattern[k].2)
}

/// Whether the materials on the pattern's cells match it (see
/// `pattern_laid`).
pub fn forge_pattern_laid(pattern: &Vec<(i32, i32, Item)>, ground: &Vec<Option<Item>>) -> (b: bool)
    requires
        ground@.len() == pattern@.len(),
    ensures
        b == pattern_laid(pattern@, ground@),
{
    let mut i: usize = 0;
    while i < pattern.len()
        invariant
            i <= pattern@.len(),
            ground@.len() == pattern@.len(),
            forall|j: int| 0 <= j < i ==> ground@[j] == Some(pattern@[j].2),
        decreases pattern@.len() - i,
    {
        let want = pattern[i].2;
        match ground[i] {
            Some(it) => {
                if it != want {
                    return false;
                }
            },
            None => {
                return false;
            },
        }
        i = i + 1;
    }
    true
}

/// The cells of the pattern's entries around `(x, y)`, each within `i32`.
pub open spec fn ritual_cells_fit(pattern: Seq<(i32, i32, Item)>, x: i32, y: i32) -> bool {
    forall|k: int|
        0 <= k < pattern.len() ==> i32::MIN <= x + (#[trigger] pattern[k]).0 <= i32::MAX && i32::MIN <= y
            + pattern[k].1 <= i32::MAX
}

/// The cells of the pattern's entries around `(x, y)`, in its order.
pub open spec fn ritual_cells_spec(pattern: Seq<(i32, i32, Item)>, x: i32, y: i32) -> Seq<(i32, i32)> {
    Seq::new(pattern.len(), |k: int| ((x + pattern[k].0) as i32, (y + pattern[k].1) as i32))
}

/// The cells of the pattern around the player at `(x, y)`; `None` when one
/// of them lies beyond `i32`.
pub fn ritual_cells(pattern: &Vec<(i32, i32, Item)>, x: i32, y: i32) -> (r: Option<Vec<(i32, i32)>>)
    ensures
        r is Some <==> ritual_cells_fit(pattern@, x, y),
        r matches Some(cells) ==> cells@ == ritual_cells_spec(pattern@, x, y),
{
    let mut out: Vec<(i32, i32)> = Vec::new();
    let mut i: usize = 0;
    while i < pattern.len()
        invariant
            i <= pattern@.len(),
            ritual_cells_fit(pattern@.take(i as int), x, y),
            out@ == ritual_cells_spec(pattern@.take(i as int), x, y),
        decreases pattern@.len() - i,
    {
        let (dx, dy, _) = pattern[i];
        let cx = x.checked_add(dx);
        let cy = y.checked_add(dy);
        if cx.is_none() || cy.is_none() {
            assert(!(i32::MIN <= x + pattern@[i as int].0 <= i32::MAX && i32::MIN <= y + pattern@[i as int].1
                <= i32::MAX));
            assert(!ritual_cells_fit(pattern@, x, y)) by {
                let k = i as int;
                assert(0 <= k < pattern@.len());
            }
            return None;
        }
        out.push((cx.unwrap(), cy.unwrap()));
        proof {
            let t = pattern@.take(i + 1);
            assert(t.drop_last() =~= pattern@.take(i as int));
            assert forall|k: int| 0 <= k < t.len() implies i32::MIN <= x + (#[trigger] t[k]).0 <= i32::MAX
                && i32::MIN <= y + t[k].1 <= i32::MAX by {
                if k < i {
                    assert(t[k] == pattern@.take(i as int)[k]);
                }
            }
            assert(out@ =~= ritual_cells_spec(t, x, y));
        }
        i = i + 1;
    }
    assert(pattern@.take(pattern@.len() as int) =~= pattern@);
    Some(out)
}

/// What lies on the pattern's cells after a use of the forge scroll: the
/// ritual consumes every material; any other outcome leaves them.
pub fn ground_after_use(u: ItemUse, ground: &mut Vec<Option<Item>>)
    ensures
        final(ground)@ == (if u is Forged {
            Seq::new(old(ground)@.len(), |k: int| None::<Item>)
        } else {
            old(ground)@
        }),
{
    if let ItemUse::Forged { .. } = u {
        let n = ground.len();
        let mut i: usize = 0;
        while i < n
            invariant
                i <= n,
                ground@.len() == n,
                forall|j: int| 0 <= j < i ==> ground@[j] is None,
            decreases n - i,
        {
            ground.set(i, None);
            i = i + 1;
        }
        assert(ground@ =~= Seq::new(n as nat, |k: int| None::<Item>));
    }
}

impl PlayerState {
    /// Uses bag entry `idx`: heals, feeds, places a torch, pays a scroll's
    /// MP, performs the forge ritual, or toggles equipment, as `use_spec`
    /// says; the outcome tells the world what remains to be done.
    pub fn use_inventory_item(&mut self, idx: usize, ctx: UseContext) -> (u: ItemUse)
        requires
            idx < old(self).bag.items@.len() ==> use_fits(old(self).vitals, old(self).bag.items@[idx as int].kind),
        ensures
            idx >= old(self).bag.items@.len() ==> u == ItemUse::NothingToUse && final(self).vitals
                == old(self).vitals && final(self).bag.items@ == old(self).bag.items@
                && final(self).bag.equipped_sword == old(self).bag.equipped_sword
                && final(self).bag.equipped_shield == old(self).bag.equipped_shield
                && final(self).bag.equipped_accessory == old(self).bag.equipped_accessory,
            idx < old(self).bag.items@.len() ==> {
                let r = use_spec(old(self).vitals, old(self).bag.items@[idx as int], old(self).bag, ctx);
                &&& final(self).vitals == r.0
                &&& u == r.1
                &&& final(self).bag.items@ == items_after_use(old(self).bag, idx as int, u)
                &&& final(self).bag.equipped_sword == slot_after_use(
                    old(self).bag,
                    idx as int,
                    u,
                    Slot::Weapon,
                    old(self).bag.equipped_sword,
                )
                &&& final(self).bag.equipped_shield == slot_after_use(
                    old(self).bag,
                    idx as int,
                    u,
                    Slot::Shield,
                    old(self).bag.equipped_shield,
                )
                &&& final(self).bag.equipped_accessory == slot_after_use(
                    old(self).bag,
                    idx as int,
                    u,
                    Slot::Accessory,
                    old(self).bag.equipped_accessory,
                )
            },
    {
        if idx >= self.bag.items.len() {
            return ItemUse::NothingToUse;
        }
        let kind = self.bag.items[idx].kind;
        match kind {
            Item::Potion | Item::Herb | Item::Elixir => {
                let heal = match kind {
                    Item::Potion => POTION_HEAL,
                    Item::Herb => HERB_HEAL,
                    _ => ELIXIR_HEAL,
                };
                let _taken = self.bag.take_inventory_one(idx);
                let before = self.vitals.hp;
                let raised = self.vitals.hp + heal;
                self.vitals.hp = if raised < self.vitals.progress.player_max_hp {
                    raised
                } else {
                    self.vitals.progress.player_max_hp
                };
                let fed = self.vitals.hunger + ITEM_USE_HUNGER_RESTORE;
                self.vitals.hunger = if fed < self.vitals.max_hunger {
                    fed
                } else {
                    self.vitals.max_hunger
                };
                ItemUse::Healed { healed: self.vitals.hp - before }
            },
            Item::Food | Item::Bread => {
                let food = if kind == Item::Food {
                    FOOD_HUNGER_RESTORE
                } else {
                    BREAD_HUNGER_RESTORE
                };
                let _taken = self.bag.take_inventory_one(idx);
                let before = self.vitals.hunger;
                let fed = self.vitals.hunger + food;
                self.vitals.hunger = if fed < self.vitals.max_hunger {
                    fed
                } else {
                    self.vitals.max_hunger
                };
                ItemUse::Fed { restored: self.vitals.hunger - before }
            },
            Item::Torch => {
                if ctx.torch_here {
                    return ItemUse::TorchAlready;
                }
                let _taken = self.bag.take_inventory_one(idx);
                ItemUse::TorchPlaced
            },
            Item::FlameScroll | Item::EmberScroll | Item::BlinkScroll | Item::BindScroll
            | Item::RepulseScroll | Item::NovaScroll => {
                let (spell, cost) = match kind {
                    Item::FlameScroll => (Spell::Flame, 2),
                    Item::EmberScroll => (Spell::Ember, 3),
                    Item::BlinkScroll => (Spell::Blink, 3),
                    Item::BindScroll => (Spell::Bind, 3),
                    Item::RepulseScroll => (Spell::Repulse, 4),
                    _ => (Spell::Nova, 5),
                };
                if !try_spend_mp(&mut self.vitals.progress.player_mp, cost) {
                    return ItemUse::NoMp { need: cost };
                }
                ItemUse::Cast(spell)
            },
            Item::PulseBomb => {
                let _taken = self.bag.take_inventory_one(idx);
                ItemUse::PulseBomb
            },
            Item::ForgeScroll => self.try_cast_forge_scroll(ctx),
            Item::StoneAxe | Item::IronSword | Item::IronPickaxe | Item::GladiusNadir
            | Item::FerrumOccasus | Item::VirgaOriens | Item::VirgaMeridies | Item::VirgaZenith => {
                let item = self.bag.items[idx].clone();
                let is_same = match &self.bag.equipped_sword {
                    Some(eq) => eq.same_identity(&item),
                    None => false,
                };
                if is_same && is_ancient_weapon_item(kind) {
                    if can_spend_ancient_for_weapon(self.vitals.ancient_charge, kind) {
                        ItemUse::AncientArt(kind)
                    } else {
                        ItemUse::AncientSilent
                    }
                } else if is_same {
                    self.bag.equipped_sword = None;
                    ItemUse::Unequipped(Slot::Weapon)
                } else {
                    self.bag.equipped_sword = Some(item);
                    ItemUse::Equipped(Slot::Weapon)
                }
            },
            Item::WoodenShield => {
                let item = self.bag.items[idx].clone();
                let is_same = match &self.bag.equipped_shield {
                    Some(eq) => eq.same_identity(&item),
                    None => false,
                };
                if is_same {
                    self.bag.equipped_shield = None;
                    ItemUse::Unequipped(Slot::Shield)
                } else {
                    self.bag.equipped_shield = Some(item);
                    ItemUse::Equipped(Slot::Shield)
                }
            },
            Item::LuckyCharm => {
                let item = self.bag.items[idx].clone();
                let is_same = match &self.bag.equipped_accessory {
                    Some(eq) => eq.same_identity(&item),
                    None => false,
                };
                if is_same {
                    self.bag.equipped_accessory = None;
                    ItemUse::Unequipped(Slot::Accessory)
                } else {
                    self.bag.equipped_accessory = Some(item);
                    ItemUse::Equipped(Slot::Accessory)
                }
            },
            _ => ItemUse::CannotUseDirect,
        }
    }

    /// The forge ritual: with a weapon equipped, standing on blood, the
    /// weapon below the largest ritual bonus, the pattern laid and 4 MP, the
    /// MP is paid and the weapon (and its entry in the bag) gains one point
    /// of ritual bonus, up to the largest.
    pub fn try_cast_forge_scroll(&mut self, ctx: UseContext) -> (u: ItemUse)
        ensures
            ({
                let r = forge_spec(old(self).vitals, old(self).bag.equipped_sword, ctx);
                &&& final(self).vitals == r.0
                &&& u == r.1
            }),
            final(self).bag.items@ == (if u is Forged {
                match first_same(old(self).bag.items@, old(self).bag.equipped_sword->0) {
                    Some(i) => old(self).bag.items@.update(
                        i,
                        InventoryItem { weapon_bonus: u->bonus, ..old(self).bag.items@[i] },
                    ),
                    None => old(self).bag.items@,
                }
            } else {
                old(self).bag.items@
            }),
            final(self).bag.equipped_sword == (if u is Forged {
                Some(InventoryItem { weapon_bonus: u->bonus, ..old(self).bag.equipped_sword->0 })
            } else {
                old(self).bag.equipped_sword
            }),
            final(self).bag.equipped_shield == old(self).bag.equipped_shield,
            final(self).bag.equipped_accessory == old(self).bag.equipped_accessory,
    {
        let bonus = match &self.bag.equipped_sword {
            None => {
                return ItemUse::ForgeNeedWeapon;
            },
            Some(eq) => eq.weapon_bonus,
        };
        if !ctx.on_blood_stain {
            return ItemUse::ForgeNeedBlood;
        }
        if bonus >= FORGE_SCROLL_ATK_BONUS_MAX {
            return ItemUse::ForgeWeaponMax;
        }
        if !ctx.forge_pattern_laid {
            return ItemUse::ForgePatternMismatch;
        }
        if !try_spend_mp(&mut self.vitals.progress.player_mp, FORGE_SCROLL_MP_COST) {
            return ItemUse::NoMp { need: FORGE_SCROLL_MP_COST };
        }
        let raised = bonus + FORGE_SCROLL_ATK_BONUS_GAIN;
        let new_bonus = if raised < FORGE_SCROLL_ATK_BONUS_MAX {
            raised
        } else {
            FORGE_SCROLL_ATK_BONUS_MAX
        };
        let found = match &self.bag.equipped_sword {
            Some(eq) => first_same_index(&self.bag.items, eq),
            None => None,
        };
        let mut sword = match self.bag.equipped_sword.take() {
            Some(s) => s,
            None => {
                return ItemUse::ForgeNeedWeapon;
            },
        };
        sword.weapon_bonus = new_bonus;
        self.bag.equipped_sword = Some(sword);
        if let Some(i) = found {
            let mut entry = self.bag.items[i].clone();
            entry.weapon_bonus = new_bonus;
            self.bag.items.set(i, entry);
        }
        ItemUse::Forged { bonus: new_bonus }
    }
}

/// Position of the first entry that is the same object as `e`.
pub fn first_same_index(items: &Vec<InventoryItem>, e: &InventoryItem) -> (r: Option<usize>)
    ensures
        r matches Some(k) ==> k < items@.len() && first_same(items@, *e) == Some(k as int),
        r is None ==> first_same(items@, *e) is None,
{
    let mut i: usize = 0;
    while i < items.len()
        invariant
            i <= items@.len(),
            forall|j: int| 0 <= j < i ==> !same_identity_spec(#[trigger] items@[j], *e),
        decreases items@.len() - i,
    {
        if items[i].same_identity(e) {
            proof {
                lemma_first_same_is(items@, *e, i as int);
            }
            return Some(i);
        }
        i = i + 1;
    }
    None
}

proof fn lemma_first_same_is(items: Seq<InventoryItem>, e: InventoryItem, i: int)
    requires
        0 <= i < items.len(),
        same_identity_spec(items[i], e),
        forall|j: int| 0 <= j < i ==> !same_identity_spec(#[trigger] items[j], e),
    ensures
        first_same(items, e) == Some(i),
{
    let k = choose|k: int|
        0 <= k < items.len() && same_identity_spec(#[trigger] items[k], e) && forall|j: int|
            0 <= j < k ==> !same_identity_spec(#[trigger] items[j], e);
    assert(k == i) by {
        if k < i {
        } else if k > i {
            assert(!same_identity_spec(items[i], e));
        }
    }
}

/// What killed the player at the end of a turn.
#[derive(Clone, Copy, Debug, PartialEq, Eq, Structural)]
pub enum DeathCause {
    Burning,
    Hunger,
}

/// Hunger after the turn counter reached `turn`: one point is lost on every
/// fourth turn, never below zero, unless the player is invincible.
pub open spec fn hunger_after(hunger: i32, turn: u64, invincible: bool) -> i32 {
    if !invincible && turn % HUNGER_INTERVAL_TURNS == 0 {
        if hunger - 1 < 0 {
            0
        } else {
            (hunger - 1) as i32
        }
    } else {
        hunger
    }
}

/// The player's upkeep at the end of a turn: the turn counter advances,
/// burning costs a point of HP and a turn of burning, slowing wears off by a
/// turn, hunger drops on every fourth turn, an empty stomach costs a point of
/// HP, and every eighth turn a wounded, living player regains a point.
pub open spec fn end_turn_spec(v: Vitals) -> (Vitals, Option<DeathCause>) {
    let turn: u64 = v.turn.saturating_add(1);
    let burning = v.status.burning_turns > 0 && v.hp > 0;
    let hp1: int = if burning && !v.invincible { v.hp - 1 } else { v.hp as int };
    let dmg: u32 = if burning && !v.invincible { v.damage_taken.saturating_add(1) } else { v.damage_taken };
    let death1 = burning && !v.invincible && hp1 <= 0;
    let burn: u8 = if burning { (v.status.burning_turns - 1) as u8 } else { v.status.burning_turns };
    let slow: u8 = if v.status.slowed_turns > 0 { (v.status.slowed_turns - 1) as u8 } else { v.status.slowed_turns };
    let hunger = hunger_after(v.hunger, turn, v.invincible);
    let starving = !v.invincible && hunger <= 0 && hp1 > 0;
    let hp2: int = if starving { hp1 - 1 } else { hp1 };
    let death2 = starving && hp2 <= 0;
    let hp3: int = if hp2 > 0 && hp2 < v.progress.player_max_hp && turn % TURN_REGEN_INTERVAL == 0 { hp2 + 1 } else { hp2 };
    (
        Vitals {
            hp: hp3 as i32,
            hunger,
            status: StatusState { burning_turns: burn, slowed_turns: slow },
            turn,
            damage_taken: dmg,
            ..v
        },
        if death1 {
            Some(DeathCause::Burning)
        } else if death2 {
            Some(DeathCause::Hunger)
        } else {
            None
        },
    )
}

impl Vitals {
    /// The player's upkeep at the end of a turn (see `end_turn_spec`).
    /// Returns what killed the player this turn, if anything did.
    pub fn end_turn(&mut self) -> (death: Option<DeathCause>)
        ensures
            (*final(self), death) == end_turn_spec(*old(self)),
    {
        self.turn = self.turn.saturating_add(1);
        let mut death: Option<DeathCause> = None;
        if self.status.burning_turns > 0 && self.hp > 0 {
            if !self.invincible {
                self.hp = self.hp - 1;
                self.damage_taken = self.damage_taken.saturating_add(1);
                if self.hp <= 0 {
                    death = Some(DeathCause::Burning);
                }
            }
            self.status.burning_turns = self.status.burning_turns - 1;
        }
        if self.status.slowed_turns > 0 {
            self.status.slowed_turns = self.status.slowed_turns - 1;
        }
        if !self.invincible && self.turn % HUNGER_INTERVAL_TURNS == 0 {
            self.hunger = if self.hunger < 1 {
                0
            } else {
                self.hunger - 1
            };
        }
        if !self.invincible && self.hunger <= 0 && self.hp > 0 {
            self.hp = self.hp - 1;
            if self.hp <= 0 {
                death = Some(DeathCause::Hunger);
            }
        }
        if self.hp > 0 && self.hp < self.progress.player_max_hp && self.turn % TURN_REGEN_INTERVAL == 0 {
            self.hp = self.hp + 1;
        }
        death
    }

    /// Arriving on the next floor: the floor number rises and MP is fully
    /// restored.
    pub fn arrive_on_next_floor(&mut self)
        ensures
            final(self).floor == old(self).floor.saturating_add(1),
            final(self).progress.player_mp == old(self).progress.player_max_mp,
            *final(self) == (Vitals {
                floor: final(self).floor,
                progress: Progress { player_mp: old(self).progress.player_max_mp, ..old(self).progress },
                ..*old(self)
            }),
    {
        self.floor = self.floor.saturating_add(1);
        self.progress.player_mp = self.progress.player_max_mp;
    }
}

/// The vitals after `n` ends of turn.
pub open spec fn end_turns(v: Vitals, n: nat) -> Vitals
    decreases n,
{
    if n == 0 {
        v
    } else {
        end_turn_spec(end_turns(v, (n - 1) as nat)).0
    }
}

proof fn lemma_end_turns_keep(v: Vitals, n: nat)
    requires
        v.turn + n <= u64::MAX,
    ensures
        end_turns(v, n).turn == v.turn + n,
        end_turns(v, n).invincible == v.invincible,
        end_turns(v, n).hunger == (if n == 0 {
            v.hunger
        } else {
            hunger_after(end_turns(v, (n - 1) as nat).hunger, (v.turn + n) as u64, v.invincible)
        }),
    decreases n,
{
    if n > 0 {
        lemma_end_turns_keep(v, (n - 1) as nat);
    }
}

/// Law: hunger drops by exactly one point over any four turns, for a player
/// who is not invincible and is not already starving.
pub proof fn lemma_hunger_every_four_turns(v: Vitals)
    requires
        !v.invincible,
        v.hunger >= 1,
        v.turn + 4 <= u64::MAX,
    ensures
        end_turns(v, 4).hunger == v.hunger - 1,
{
    lemma_end_turns_keep(v, 1);
    lemma_end_turns_keep(v, 2);
    lemma_end_turns_keep(v, 3);
    lemma_end_turns_keep(v, 4);
    let t = v.turn;
    assert((t + 1) % 4 == 0 || (t + 2) % 4 == 0 || (t + 3) % 4 == 0 || (t + 4) % 4 == 0);
    assert((t + 1) % 4 == 0 ==> (t + 2) % 4 != 0 && (t + 3) % 4 != 0 && (t + 4) % 4 != 0);
    assert((t + 2) % 4 == 0 ==> (t + 1) % 4 != 0 && (t + 3) % 4 != 0 && (t + 4) % 4 != 0);
    assert((t + 3) % 4 == 0 ==> (t + 1) % 4 != 0 && (t + 2) % 4 != 0 && (t + 4) % 4 != 0);
    assert((t + 4) % 4 == 0 ==> (t + 1) % 4 != 0 && (t + 2) % 4 != 0 && (t + 3) % 4 != 0);
}

/// A creature's statuses at the end of a turn: burning costs a point of HP
/// and a turn of burning; a creature that this kills keeps its slowing as it
/// was; otherwise slowing wears off by a turn. Returns whether it died.
pub fn tick_creature_status(status: &mut StatusState, hp: &mut i32) -> (died: bool)
    ensures
        old(status).burning_turns > 0 ==> final(status).burning_turns == old(status).burning_turns - 1
            && *final(hp) == (if *old(hp) > i32::MIN { *old(hp) - 1 } else { *old(hp) as int }),
        old(status).burning_turns == 0 ==> final(status).burning_turns == 0 && *final(hp) == *old(hp),
        died == (old(status).burning_turns > 0 && *final(hp) <= 0),
        final(status).slowed_turns == (if !died && old(status).slowed_turns > 0 {
            (old(status).slowed_turns - 1) as u8
        } else {
            old(status).slowed_turns
        }),
{
    if status.burning_turns > 0 {
        status.burning_turns = status.burning_turns - 1;
        if *hp > i32::MIN {
            *hp = *hp - 1;
        }
        if *hp <= 0 {
            return true;
        }
    }
    if status.slowed_turns > 0 {
        status.slowed_turns = status.slowed_turns - 1;
    }
    false
}

// ---------------------------------------------------------------------------
// Blows the player receives
// ---------------------------------------------------------------------------

/// How a creature's blow on the player ended.
#[derive(Clone, Copy, Debug, PartialEq, Eq, Structural)]
pub enum BlowOutcome {
    /// The player evaded.
    Evaded,
    /// The player is invincible; nothing happened.
    Shrugged,
    /// The blow landed; the player now has `hp` and the flags tell which
    /// effects took hold anew (longer than what was left).
    Hit { hp: i32, burned: bool, slowed: bool },
}

/// A creature's blow of `damage` with its effects reaching the player:
/// first the evasion roll with `evade_chance` percent; then, unless the
/// player is invincible, HP and the damage count drop by the damage and the
/// effects land (each lasting the longer of what was left and what came).
pub fn receive_blow(
    v: &mut Vitals,
    damage: i32,
    burning_turns: u8,
    slowed_turns: u8,
    evade_chance: u8,
    rng_state: &mut u64,
) -> (o: BlowOutcome)
    requires
        0 <= damage,
        i32::MIN <= old(v).hp - damage,
    ensures
        *final(rng_state) == crate::spawning::roll_state(*old(rng_state), evade_chance),
        crate::spawning::roll_hits(*old(rng_state), evade_chance) ==> o == BlowOutcome::Evaded && *final(v) == *old(v),
        !crate::spawning::roll_hits(*old(rng_state), evade_chance) && old(v).invincible ==> o == BlowOutcome::Shrugged
            && *final(v) == *old(v),
        !crate::spawning::roll_hits(*old(rng_state), evade_chance) && !old(v).invincible ==> {
            &&& final(v).hp == old(v).hp - damage
            &&& final(v).damage_taken == if old(v).damage_taken + damage > u32::MAX { u32::MAX as int } else { old(v).damage_taken + damage }
            &&& final(v).status.burning_turns == max_u8(old(v).status.burning_turns, burning_turns)
            &&& final(v).status.slowed_turns == max_u8(old(v).status.slowed_turns, slowed_turns)
            &&& *final(v) == (Vitals {
                hp: final(v).hp,
                damage_taken: final(v).damage_taken,
                status: final(v).status,
                ..*old(v)
            })
            &&& o == BlowOutcome::Hit {
                hp: final(v).hp,
                burned: burning_turns > 0 && old(v).status.burning_turns < burning_turns,
                slowed: slowed_turns > 0 && old(v).status.slowed_turns < slowed_turns,
            }
        },
{
    if crate::spawning::roll_percent(rng_state, evade_chance) {
        return BlowOutcome::Evaded;
    }
    if v.invincible {
        return BlowOutcome::Shrugged;
    }
    let burned = burning_turns > 0 && v.status.burning_turns < burning_turns;
    let slowed = slowed_turns > 0 && v.status.slowed_turns < slowed_turns;
    v.hp = v.hp - damage;
    v.damage_taken = v.damage_taken.saturating_add(damage as u32);
    apply_status_bundle(&mut v.status, burning_turns, slowed_turns);
    BlowOutcome::Hit { hp: v.hp, burned, slowed }
}

} // verus!
