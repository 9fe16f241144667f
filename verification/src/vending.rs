//! The vending machine: twelve products on a three-by-four grid, a slot for
//! copper disks below it, and what each press of the button does.
use vstd::prelude::*;

use crate::inventory::{add_item_spec, new_stack, Inventory};
use crate::items::Item;

verus! {

/// Grid position of the disk slot, below the twelve products.
pub const VENDING_SLOT: usize = 12;

/// Product `cursor` of the grid and its price in disks, row by row.
pub open spec fn product_spec(cursor: int) -> Option<(Item, u32)> {
    if cursor == 0 {
        Some((Item::Potion, 2))
    } else if cursor == 1 {
        Some((Item::Herb, 1))
    } else if cursor == 2 {
        Some((Item::Bread, 3))
    } else if cursor == 3 {
        Some((Item::Torch, 2))
    } else if cursor == 4 {
        Some((Item::FlameScroll, 4))
    } else if cursor == 5 {
        Some((Item::BlinkScroll, 5))
    } else if cursor == 6 {
        Some((Item::EmberScroll, 5))
    } else if cursor == 7 {
        Some((Item::BindScroll, 5))
    } else if cursor == 8 {
        Some((Item::RepulseScroll, 7))
    } else if cursor == 9 {
        Some((Item::PulseBomb, 6))
    } else if cursor == 10 {
        Some((Item::Elixir, 8))
    } else if cursor == 11 {
        Some((Item::IronIngot, 4))
    } else {
        None
    }
}

/// The product under the cursor and its price, if the cursor is on one.
pub fn vending_product(cursor: usize) -> (p: Option<(Item, u32)>)
    ensures
        p == product_spec(cursor as int),
{
    match cursor {
        0 => Some((Item::Potion, 2)),
        1 => Some((Item::Herb, 1)),
        2 => Some((Item::Bread, 3)),
        3 => Some((Item::Torch, 2)),
        4 => Some((Item::FlameScroll, 4)),
        5 => Some((Item::BlinkScroll, 5)),
        6 => Some((Item::EmberScroll, 5)),
        7 => Some((Item::BindScroll, 5)),
        8 => Some((Item::RepulseScroll, 7)),
        9 => Some((Item::PulseBomb, 6)),
        10 => Some((Item::Elixir, 8)),
        11 => Some((Item::IronIngot, 4)),
        _ => None,
    }
}

/// Law: the twelve grid slots sell, in order, a potion for 2 disks, a herb
/// for 1, bread for 3, a torch for 2, a flame scroll for 4, a blink scroll
/// for 5, an ember scroll for 5, a bind scroll for 5, a repulse scroll for
/// 7, a pulse bomb for 6, an elixir for 8 and an iron ingot for 4; no other
/// cursor position sells anything, and no item is sold at two slots.
pub proof fn lemma_vending_table(i: int, j: int)
    ensures
        product_spec(i) == (if 0 <= i < 12 {
            Some(
                seq![
                    (Item::Potion, 2u32),
                    (Item::Herb, 1u32),
                    (Item::Bread, 3u32),
                    (Item::Torch, 2u32),
                    (Item::FlameScroll, 4u32),
                    (Item::BlinkScroll, 5u32),
                    (Item::EmberScroll, 5u32),
                    (Item::BindScroll, 5u32),
                    (Item::RepulseScroll, 7u32),
                    (Item::PulseBomb, 6u32),
                    (Item::Elixir, 8u32),
                    (Item::IronIngot, 4u32),
                ][i],
            )
        } else {
            None
        }),
        product_spec(i) is Some && product_spec(j) is Some && i != j ==> product_spec(i).unwrap().0 != product_spec(
            j,
        ).unwrap().0,
        product_spec(i) is Some ==> product_spec(i).unwrap().1 > 0,
{
}

/// `v` kept within `lo..=hi`.
pub open spec fn clamp_spec(v: int, lo: int, hi: int) -> int {
    if v < lo {
        lo
    } else if v > hi {
        hi
    } else {
        v
    }
}

/// The cursor after a step of `(dx, dy)`: from the slot only up leads
/// back (to the middle of the last row); down from the last row leads to
/// the slot; elsewhere the cursor stays on the grid.
pub open spec fn vending_cursor_spec(cursor: int, dx: int, dy: int) -> int {
    if cursor == 12 {
        if dy < 0 { 10 } else { 12 }
    } else if dy > 0 && cursor / 3 == 3 {
        12
    } else {
        clamp_spec(cursor / 3 + dy, 0, 3) * 3 + clamp_spec(cursor % 3 + dx, 0, 2)
    }
}

fn clamp_i64(v: i64, lo: i64, hi: i64) -> (r: i64)
    requires
        lo <= hi,
    ensures
        r == clamp_spec(v as int, lo as int, hi as int),
{
    if v < lo {
        lo
    } else if v > hi {
        hi
    } else {
        v
    }
}

/// Moves the cursor over the product grid and the disk slot.
pub fn move_vending_cursor(cursor: usize, dx: i32, dy: i32) -> (c: usize)
    requires
        cursor <= 12,
    ensures
        c == vending_cursor_spec(cursor as int, dx as int, dy as int),
        c <= 12,
{
    if cursor == 12 {
        return if dy < 0 { 10 } else { 12 };
    }
    let x = (cursor % 3) as i64;
    let y = (cursor / 3) as i64;
    if dy > 0 && y == 3 {
        return 12;
    }
    let nx = clamp_i64(x + dx as i64, 0, 2);
    let ny = clamp_i64(y + dy as i64, 0, 3);
    (ny * 3 + nx) as usize
}

/// What a press of the button did.
#[derive(Clone, Copy, Debug, PartialEq, Eq, Structural)]
pub enum VendingEvent {
    /// A disk went from the purse into the machine.
    Inserted,
    /// The purse is empty.
    NoCopper,
    /// The disks in the machine do not cover the price.
    NotEnough,
    /// The item went into the bag and its price was kept.
    Bought(Item),
    /// The bag had no room; nothing was kept.
    InventoryFull,
    /// The cursor is on no product.
    Nothing,
}

/// Pressing the button with the cursor on `cursor`: on the slot, one disk
/// goes from `purse` into the machine (`inserted`); on a product the
/// machine covers, the product goes into the bag and its price is kept.
pub fn vending_press(
    cursor: usize,
    inserted: &mut u32,
    purse: &mut u32,
    bag: &mut Inventory,
    next_entity_id: &mut u64,
) -> (e: VendingEvent)
    ensures
        cursor == VENDING_SLOT ==> {
            if *old(purse) > 0 {
                &&& e == VendingEvent::Inserted
                &&& *final(purse) == *old(purse) - 1
                &&& *final(inserted) == if *old(inserted) == u32::MAX { u32::MAX as int } else { *old(inserted) + 1 }
            } else {
                &&& e == VendingEvent::NoCopper
                &&& *final(purse) == *old(purse)
                &&& *final(inserted) == *old(inserted)
            }
        },
        cursor == VENDING_SLOT ==> *final(bag) == *old(bag) && *final(next_entity_id) == *old(next_entity_id),
        cursor != VENDING_SLOT ==> *final(purse) == *old(purse),
        cursor != VENDING_SLOT ==> match product_spec(cursor as int) {
            None => e == VendingEvent::Nothing && *final(inserted) == *old(inserted)
                && *final(bag) == *old(bag) && *final(next_entity_id) == *old(next_entity_id),
            Some((item, price)) => if *old(inserted) < price {
                e == VendingEvent::NotEnough && *final(inserted) == *old(inserted)
                    && *final(bag) == *old(bag) && *final(next_entity_id) == *old(next_entity_id)
            } else {
                let s = add_item_spec(old(bag).items@, new_stack(0, item, 1), *old(next_entity_id));
                &&& final(bag).items@ == s.0
                &&& *final(next_entity_id) == s.1
                &&& final(bag).equipped_sword == old(bag).equipped_sword
                &&& final(bag).equipped_shield == old(bag).equipped_shield
                &&& final(bag).equipped_accessory == old(bag).equipped_accessory
                &&& if s.2 {
                    e == VendingEvent::Bought(item) && *final(inserted) == *old(inserted) - price
                } else {
                    e == VendingEvent::InventoryFull && *final(inserted) == *old(inserted)
                }
            },
        },
{
    if cursor == VENDING_SLOT {
        if *purse > 0 {
            *purse = *purse - 1;
            *inserted = inserted.saturating_add(1);
            return VendingEvent::Inserted;
        } else {
            return VendingEvent::NoCopper;
        }
    }
    let (item, price) = match vending_product(cursor) {
        Some(p) => p,
        None => {
            return VendingEvent::Nothing;
        },
    };
    if *inserted < price {
        return VendingEvent::NotEnough;
    }
    if bag.add_item_kind_to_inventory(item, next_entity_id) {
        *inserted = *inserted - price;
        VendingEvent::Bought(item)
    } else {
        VendingEvent::InventoryFull
    }
}

/// Leaving the machine: the disks still in it go back to the purse.
/// Reports whether any did.
pub fn vending_leave(inserted: &mut u32, purse: &mut u32) -> (refunded: bool)
    ensures
        refunded == (*old(inserted) > 0),
        *final(inserted) == 0,
        *final(purse) == if *old(purse) + *old(inserted) > u32::MAX { u32::MAX as int } else { *old(purse) + *old(inserted) },
{
    let refunded = *inserted > 0;
    *purse = purse.saturating_add(*inserted);
    *inserted = 0;
    refunded
}

} // verus!
