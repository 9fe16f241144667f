//! Combat rules: status effects, weapon and equipment bonuses, ancient
//! weapon charges, thrown items and the derived player stats.
use vstd::prelude::*;

use crate::inventory::{FORGE_SCROLL_ATK_BONUS_MAX, Inventory, InventoryItem};
use crate::items::Item;

verus! {

/// Lasting effects on a creature, counted in turns.
#[derive(Clone, Copy, Debug, PartialEq, Eq, Structural)]
pub struct StatusState {
    pub burning_turns: u8,
    pub slowed_turns: u8,
}

impl StatusState {
    /// No effect at all.
    pub fn none() -> (s: StatusState)
        ensures
            s.burning_turns == 0,
            s.slowed_turns == 0,
    {
        StatusState { burning_turns: 0, slowed_turns: 0 }
    }
}

pub open spec fn max_u8(a: u8, b: u8) -> u8 {
    if a >= b {
        a
    } else {
        b
    }
}

/// A new bundle of effects: each effect lasts for the longer of what it had
/// left and what the bundle brings.
pub fn apply_status_bundle(status: &mut StatusState, burning_turns: u8, slowed_turns: u8)
    ensures
        final(status).burning_turns == max_u8(old(status).burning_turns, burning_turns),
        final(status).slowed_turns == max_u8(old(status).slowed_turns, slowed_turns),
{
    if burning_turns > status.burning_turns {
        status.burning_turns = burning_turns;
    }
    if slowed_turns > status.slowed_turns {
        status.slowed_turns = slowed_turns;
    }
}

/// Status after applying two bundles, in the order given.
pub open spec fn after_bundles(s: StatusState, b1: (u8, u8), b2: (u8, u8)) -> StatusState {
    let t = StatusState { burning_turns: max_u8(s.burning_turns, b1.0), slowed_turns: max_u8(s.slowed_turns, b1.1) };
    StatusState { burning_turns: max_u8(t.burning_turns, b2.0), slowed_turns: max_u8(t.slowed_turns, b2.1) }
}

/// Law: the order in which two bundles of effects land does not matter, and
/// a bundle that lands twice counts once.
pub proof fn lemma_status_bundles_commute(s: StatusState, b1: (u8, u8), b2: (u8, u8))
    ensures
        after_bundles(s, b1, b2) == after_bundles(s, b2, b1),
        after_bundles(s, b1, b1) == after_bundles(s, b1, (0u8, 0u8)),
{
}

/// Attack bonus a wielded item gives.
pub open spec fn item_attack_bonus_spec(item: Item) -> i32 {
    if item == Item::GladiusNadir {
        5
    } else if item == Item::FerrumOccasus || item == Item::VirgaOriens {
        4
    } else if item == Item::IronSword || item == Item::IronPickaxe || item == Item::VirgaMeridies {
        3
    } else if item == Item::StoneAxe || item == Item::VirgaZenith {
        2
    } else {
        0
    }
}

/// Attack bonus a wielded item gives.
pub fn item_attack_bonus(item: Item) -> (b: i32)
    ensures
        b == item_attack_bonus_spec(item),
{
    if item == Item::GladiusNadir {
        5
    } else if item == Item::FerrumOccasus || item == Item::VirgaOriens {
        4
    } else if item == Item::IronSword || item == Item::IronPickaxe || item == Item::VirgaMeridies {
        3
    } else if item == Item::StoneAxe || item == Item::VirgaZenith {
        2
    } else {
        0
    }
}

/// The five ancient weapons.
pub open spec fn is_ancient_weapon_spec(item: Item) -> bool {
    item == Item::GladiusNadir || item == Item::FerrumOccasus || item == Item::VirgaOriens
        || item == Item::VirgaMeridies || item == Item::VirgaZenith
}

/// Whether `item` is an ancient weapon.
pub fn is_ancient_weapon_item(item: Item) -> (b: bool)
    ensures
        b == is_ancient_weapon_spec(item),
{
    match item {
        Item::GladiusNadir | Item::FerrumOccasus | Item::VirgaOriens | Item::VirgaMeridies
        | Item::VirgaZenith => true,
        _ => false,
    }
}

/// Ancient charge an ancient weapon's art costs.
pub open spec fn ancient_cost_spec(item: Item) -> Option<u8> {
    if item == Item::GladiusNadir || item == Item::VirgaZenith {
        Some(2u8)
    } else if is_ancient_weapon_spec(item) {
        Some(1u8)
    } else {
        None
    }
}

/// Ancient charge an ancient weapon's art costs; `None` for other items.
pub fn ancient_weapon_cost(item: Item) -> (c: Option<u8>)
    ensures
        c == ancient_cost_spec(item),
        c is Some <==> is_ancient_weapon_spec(item),
{
    if item == Item::GladiusNadir || item == Item::VirgaZenith {
        Some(2)
    } else if is_ancient_weapon_item(item) {
        Some(1)
    } else {
        None
    }
}

/// Whether `charge` pays for the art of `item`.
pub open spec fn can_pay_ancient_spec(charge: u8, item: Item) -> bool {
    match ancient_cost_spec(item) {
        Some(c) => charge >= c,
        None => false,
    }
}

/// Whether `charge` pays for the art of `item`.
pub fn can_spend_ancient_for_weapon(charge: u8, item: Item) -> (b: bool)
    ensures
        b == can_pay_ancient_spec(charge, item),
{
    match ancient_weapon_cost(item) {
        Some(cost) => charge >= cost,
        None => false,
    }
}

/// Pays the art of `item` out of `charge`; refuses, leaving it unchanged,
/// when the item has no art or the charge is short.
pub fn spend_ancient_for_weapon(charge: &mut u8, item: Item) -> (paid: bool)
    ensures
        paid == can_pay_ancient_spec(*old(charge), item),
        paid ==> *final(charge) == *old(charge) - ancient_cost_spec(item)->0,
        !paid ==> *final(charge) == *old(charge),
{
    match ancient_weapon_cost(item) {
        Some(cost) => {
            if *charge < cost {
                false
            } else {
                *charge = *charge - cost;
                true
            }
        },
        None => false,
    }
}

/// Pays `cost` MP out of `mp`; refuses, leaving it unchanged, when short.
pub fn try_spend_mp(mp: &mut i32, cost: i32) -> (paid: bool)
    requires
        cost >= 0,
    ensures
        paid == (*old(mp) >= cost),
        paid ==> *final(mp) == *old(mp) - cost,
        !paid ==> *final(mp) == *old(mp),
{
    if *mp < cost {
        return false;
    }
    *mp = *mp - cost;
    true
}

/// Damage, burning turns and slowing turns of a thrown item, if it can be
/// thrown as an attack.
pub open spec fn thrown_profile_spec(kind: Item) -> Option<(i32, u8, u8)> {
    if crate::player::is_wieldable(kind) {
        Some((6i32, 0u8, 0u8))
    } else if kind == Item::IronIngot {
        Some((5i32, 0u8, 0u8))
    } else if kind == Item::Stone {
        Some((4i32, 0u8, 0u8))
    } else if kind == Item::Torch {
        Some((3i32, 2u8, 0u8))
    } else if kind == Item::EmberScroll {
        Some((2i32, 3u8, 0u8))
    } else if kind == Item::BindScroll {
        Some((2i32, 0u8, 3u8))
    } else {
        None
    }
}

/// Damage, burning turns and slowing turns of a thrown item.
pub fn thrown_attack_profile(kind: Item) -> (p: Option<(i32, u8, u8)>)
    ensures
        p == thrown_profile_spec(kind),
{
    let weapon = match kind {
        Item::StoneAxe | Item::IronSword | Item::IronPickaxe => true,
        _ => is_ancient_weapon_item(kind),
    };
    if weapon {
        Some((6, 0, 0))
    } else if kind == Item::IronIngot {
        Some((5, 0, 0))
    } else if kind == Item::Stone {
        Some((4, 0, 0))
    } else if kind == Item::Torch {
        Some((3, 2, 0))
    } else if kind == Item::EmberScroll {
        Some((2, 3, 0))
    } else if kind == Item::BindScroll {
        Some((2, 0, 3))
    } else {
        None
    }
}

pub open spec fn abs_int(v: int) -> int {
    if v < 0 {
        -v
    } else {
        v
    }
}

/// A straight line or a diagonal from the origin.
pub fn is_line_aligned(dx: i32, dy: i32) -> (b: bool)
    requires
        dx > i32::MIN,
        dy > i32::MIN,
    ensures
        b == (dx == 0 || dy == 0 || abs_int(dx as int) == abs_int(dy as int)),
{
    let ax = if dx < 0 {
        -dx
    } else {
        dx
    };
    let ay = if dy < 0 {
        -dy
    } else {
        dy
    };
    dx == 0 || dy == 0 || ax == ay
}

/// A weapon's ritual bonus, kept within `0..=6`.
pub open spec fn clamp_ritual(b: i32) -> int {
    if b < 0 {
        0
    } else if b > FORGE_SCROLL_ATK_BONUS_MAX {
        FORGE_SCROLL_ATK_BONUS_MAX as int
    } else {
        b as int
    }
}

/// The lucky charm's bonus when it is the equipped accessory.
pub open spec fn charm_bonus(slot: Option<InventoryItem>) -> int {
    match slot {
        Some(it) => if it.kind == Item::LuckyCharm {
            1
        } else {
            0
        },
        None => 0,
    }
}

/// Attack from equipment: the weapon's own bonus, its ritual bonus and the
/// charm.
pub open spec fn equipped_attack_spec(inv: Inventory) -> int {
    let weapon = match inv.equipped_sword {
        Some(it) => item_attack_bonus_spec(it.kind) + clamp_ritual(it.weapon_bonus),
        None => 0,
    };
    weapon + charm_bonus(inv.equipped_accessory)
}

/// Defence from equipment: the wooden shield and the charm.
pub open spec fn equipped_defense_spec(inv: Inventory) -> int {
    let shield = match inv.equipped_shield {
        Some(it) => if it.kind == Item::WoodenShield {
            3int
        } else {
            0
        },
        None => 0,
    };
    shield + charm_bonus(inv.equipped_accessory)
}

fn charm_bonus_exec(slot: &Option<InventoryItem>) -> (b: i32)
    ensures
        b == charm_bonus(*slot),
{
    match slot {
        Some(it) => if it.kind == Item::LuckyCharm {
            1
        } else {
            0
        },
        None => 0,
    }
}

/// Attack from equipment.
pub fn equipped_attack_bonus(inv: &Inventory) -> (b: i32)
    ensures
        b == equipped_attack_spec(*inv),
        0 <= b <= 13,
{
    let weapon = match &inv.equipped_sword {
        Some(it) => {
            let ritual = if it.weapon_bonus < 0 {
                0
            } else if it.weapon_bonus > FORGE_SCROLL_ATK_BONUS_MAX {
                FORGE_SCROLL_ATK_BONUS_MAX
            } else {
                it.weapon_bonus
            };
            item_attack_bonus(it.kind) + ritual
        },
        None => 0,
    };
    weapon + charm_bonus_exec(&inv.equipped_accessory)
}

/// Defence from equipment.
pub fn equipped_defense_bonus(inv: &Inventory) -> (b: i32)
    ensures
        b == equipped_defense_spec(*inv),
        0 <= b <= 4,
{
    let shield = match &inv.equipped_shield {
        Some(it) => if it.kind == Item::WoodenShield {
            3
        } else {
            0
        },
        None => 0,
    };
    shield + charm_bonus_exec(&inv.equipped_accessory)
}

/// Levels above the first.
pub open spec fn levels_gained(level: u32) -> int {
    if level >= 1 {
        level - 1
    } else {
        0
    }
}

/// Stats of a creature kind as the data gives them.
#[derive(Clone, Copy, Debug, PartialEq, Eq, Structural)]
pub struct BaseStats {
    pub attack: i32,
    pub defense: i32,
    pub agility: i32,
}

/// Levels gained as the `i32` the game computes them in (wrapping for
/// levels past `i32::MAX`).
pub open spec fn gained_i32(level: u32) -> int {
    (levels_gained(level) as i32) as int
}

/// `x / d` rounded toward zero, as Rust's `/` rounds.
pub open spec fn div_toward_zero(x: int, d: int) -> int {
    if x >= 0 {
        x / d
    } else {
        -((-x) / d)
    }
}

fn gained_exec(level: u32) -> (g: i32)
    ensures
        g == gained_i32(level),
{
    level.saturating_sub(1) as i32
}

fn half_toward_zero(g: i32, d: i32) -> (h: i32)
    requires
        d == 2 || d == 3,
    ensures
        h == div_toward_zero(g as int, d as int),
{
    if g >= 0 {
        g / d
    } else {
        let n = -(g as i64);
        let q = n / (d as i64);
        (-q) as i32
    }
}

/// The player's attack: base, equipment, and one per level gained.
pub fn player_attack_power(base: BaseStats, level: u32, inv: &Inventory) -> (a: i32)
    requires
        base.attack + equipped_attack_spec(*inv) <= i32::MAX,
        i32::MIN <= base.attack + equipped_attack_spec(*inv) + gained_i32(level) <= i32::MAX,
    ensures
        a == base.attack + equipped_attack_spec(*inv) + gained_i32(level),
{
    let gained = gained_exec(level);
    base.attack + equipped_attack_bonus(inv) + gained
}

/// The player's defence: base, one per two levels gained, and equipment.
pub fn player_defense(base: BaseStats, level: u32, inv: &Inventory) -> (d: i32)
    requires
        i32::MIN <= base.defense + div_toward_zero(gained_i32(level), 2) <= i32::MAX,
        base.defense + div_toward_zero(gained_i32(level), 2) + equipped_defense_spec(*inv) <= i32::MAX,
    ensures
        d == base.defense + div_toward_zero(gained_i32(level), 2) + equipped_defense_spec(*inv),
{
    let gained = gained_exec(level);
    base.defense + half_toward_zero(gained, 2) + equipped_defense_bonus(inv)
}

/// Agility lowered by three (to no less than one) while slowed.
pub open spec fn slowed_agility(base: int, status: StatusState) -> int {
    if status.slowed_turns > 0 {
        if base - 3 > 1 {
            base - 3
        } else {
            1
        }
    } else {
        base
    }
}

/// The player's agility: base plus one per three levels gained, lowered while
/// slowed.
pub fn player_agility(base: BaseStats, level: u32, status: StatusState) -> (a: i32)
    requires
        i32::MIN + 3 <= base.agility + div_toward_zero(gained_i32(level), 3) <= i32::MAX,
    ensures
        a == slowed_agility(base.agility + div_toward_zero(gained_i32(level), 3), status),
{
    let gained = gained_exec(level);
    let b = base.agility + half_toward_zero(gained, 3);
    if status.slowed_turns > 0 {
        if b - 3 > 1 {
            b - 3
        } else {
            1
        }
    } else {
        b
    }
}

/// A creature's agility, lowered while slowed.
pub fn enemy_agility(base_agility: i32, status: StatusState) -> (a: i32)
    requires
        base_agility > i32::MIN + 3,
    ensures
        a == slowed_agility(base_agility as int, status),
{
    if status.slowed_turns > 0 {
        if base_agility - 3 > 1 {
            base_agility - 3
        } else {
            1
        }
    } else {
        base_agility
    }
}

} // verus!
