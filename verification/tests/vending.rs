use abyss::inventory::{Inventory, InventoryItem};
use abyss::enemies::{
    builtin_art, creature_picks_up, dash_length, enemy_turn, find_enemy_next_step, weapon_art, CreatureArt, EnemyAction, EnemySense,
};
use abyss::items::{Facing, Item};
use abyss::vending::{move_vending_cursor, vending_leave, vending_press, vending_product, VendingEvent, VENDING_SLOT};

fn empty_bag() -> Inventory {
    Inventory { items: Vec::new(), equipped_sword: None, equipped_shield: None, equipped_accessory: None }
}

#[test]
fn the_cursor_walks_the_grid_and_the_slot() {
    assert_eq!(move_vending_cursor(12, 0, -1), 10);
    assert_eq!(move_vending_cursor(12, 0, 1), 12);
    assert_eq!(move_vending_cursor(9, 0, 1), 12);
    assert_eq!(move_vending_cursor(4, 1, 0), 5);
    assert_eq!(move_vending_cursor(2, 1, 0), 2);
    assert_eq!(move_vending_cursor(0, -1, -1), 0);
    assert_eq!(move_vending_cursor(1, 0, 1), 4);
}

#[test]
fn products_have_prices() {
    assert_eq!(vending_product(0), Some((Item::Potion, 2)));
    assert_eq!(vending_product(8), Some((Item::RepulseScroll, 7)));
    assert_eq!(vending_product(11), Some((Item::IronIngot, 4)));
    assert_eq!(vending_product(12), None);
}

#[test]
fn disks_go_in_and_buy_products() {
    let mut bag = empty_bag();
    let mut next_id = 1u64;
    let mut inserted = 0u32;
    let mut purse = 2u32;
    assert_eq!(vending_press(VENDING_SLOT, &mut inserted, &mut purse, &mut bag, &mut next_id), VendingEvent::Inserted);
    assert_eq!((inserted, purse), (1, 1));
    assert_eq!(vending_press(0, &mut inserted, &mut purse, &mut bag, &mut next_id), VendingEvent::NotEnough);
    assert_eq!(vending_press(1, &mut inserted, &mut purse, &mut bag, &mut next_id), VendingEvent::Bought(Item::Herb));
    assert_eq!(inserted, 0);
    assert_eq!(bag.items.len(), 1);
    assert_eq!(bag.items[0].kind, Item::Herb);
    assert_eq!(vending_press(VENDING_SLOT, &mut inserted, &mut purse, &mut bag, &mut next_id), VendingEvent::Inserted);
    assert_eq!(purse, 0);
    assert_eq!(vending_press(VENDING_SLOT, &mut inserted, &mut purse, &mut bag, &mut next_id), VendingEvent::NoCopper);
    assert_eq!(vending_press(13, &mut inserted, &mut purse, &mut bag, &mut next_id), VendingEvent::Nothing);
    assert!(vending_leave(&mut inserted, &mut purse));
    assert_eq!((inserted, purse), (0, 1));
    assert!(!vending_leave(&mut inserted, &mut purse));
}

#[test]
fn a_full_bag_keeps_the_disks() {
    let mut bag = empty_bag();
    for uid in 1..=20u64 {
        bag.items.push(InventoryItem { uid, kind: Item::Potion, custom_name: None, weapon_bonus: 0, qty: 1 });
    }
    let mut next_id = 100u64;
    let mut inserted = 5u32;
    let mut purse = 0u32;
    assert_eq!(vending_press(3, &mut inserted, &mut purse, &mut bag, &mut next_id), VendingEvent::InventoryFull);
    assert_eq!(inserted, 5);
    assert_eq!(bag.items.len(), 20);
}

fn sense(hostile: bool, traveler: bool, flee: bool, facing: Facing) -> EnemySense {
    EnemySense { hostile, traveler, flee, facing, id: 0 }
}

#[test]
fn creatures_choose_their_turn() {
    let all_free = vec![true; 8];
    let hostile = sense(true, false, false, Facing::E);
    assert_eq!(enemy_turn(hostile, 3, 0, true, false, 5, &all_free), EnemyAction::TrySpecials);
    assert_eq!(enemy_turn(hostile, 3, 0, true, true, 5, &all_free), EnemyAction::Pathfind);
    assert_eq!(enemy_turn(hostile, 1, 1, true, false, 5, &all_free), EnemyAction::Melee);
    assert_eq!(
        enemy_turn(hostile, 3, 0, false, false, 5, &all_free),
        EnemyAction::Step { dx: 1, dy: 0, facing: Facing::E }
    );
    let mut east_blocked = vec![true; 8];
    east_blocked[4] = false;
    assert_eq!(enemy_turn(hostile, 3, 0, false, false, 5, &east_blocked), EnemyAction::Turn(Facing::SE));
    let walker = sense(false, true, false, Facing::N);
    assert_eq!(enemy_turn(walker, 4, 4, true, false, 1, &all_free), EnemyAction::Rest);
    assert_eq!(
        enemy_turn(walker, 4, 4, true, false, 2, &all_free),
        EnemyAction::Step { dx: 0, dy: -1, facing: Facing::N }
    );
    let runner = sense(false, true, true, Facing::N);
    assert_eq!(
        enemy_turn(runner, 2, 0, true, false, 1, &all_free),
        EnemyAction::Step { dx: -1, dy: 0, facing: Facing::W }
    );
    let mut west_blocked = vec![true; 8];
    west_blocked[3] = false;
    assert_eq!(
        enemy_turn(runner, 2, 0, true, false, 1, &west_blocked),
        EnemyAction::Step { dx: 1, dy: 0, facing: Facing::E }
    );
    assert_eq!(enemy_turn(runner, 2, 0, true, false, 1, &vec![false; 8]), EnemyAction::Stay);
}

fn square(free: impl Fn(i32, i32) -> bool) -> Vec<bool> {
    let mut v = Vec::with_capacity(2401);
    for y in -24..=24 {
        for x in -24..=24 {
            v.push(free(x, y));
        }
    }
    v
}

#[test]
fn creatures_find_a_way_around_walls() {
    assert_eq!(find_enemy_next_step(3, 0, &square(|_, _| true)), Some((1, 0)));
    assert_eq!(find_enemy_next_step(3, 0, &square(|x, y| !(x == 1 && y != 5))), Some((-1, 1)));
    assert_eq!(find_enemy_next_step(-4, -4, &square(|x, y| !(y == -1 && x > -3))), Some((-1, 0)));
    assert_eq!(find_enemy_next_step(2, 0, &square(|x, y| !(x == 1 || (x, y) == (0, 1)))), None);
    assert_eq!(find_enemy_next_step(30, 0, &square(|_, _| true)), None);
}

#[test]
fn wielded_relics_give_creatures_their_arts() {
    assert_eq!(
        weapon_art(Some(Item::GladiusNadir), 3, 3, -3),
        Some(CreatureArt::Blow { damage: 5, burning: 0, slowed: 2, facing: Some(Facing::NE) })
    );
    assert_eq!(weapon_art(Some(Item::GladiusNadir), 3, 3, -1), None);
    assert_eq!(weapon_art(Some(Item::GladiusNadir), 6, 6, 0), None);
    assert_eq!(
        weapon_art(Some(Item::FerrumOccasus), 1, 1, 0),
        Some(CreatureArt::Blow { damage: 4, burning: 0, slowed: 2, facing: None })
    );
    assert_eq!(weapon_art(Some(Item::FerrumOccasus), 2, 2, 0), None);
    assert_eq!(
        weapon_art(Some(Item::VirgaOriens), 6, 0, 6),
        Some(CreatureArt::Blow { damage: 4, burning: 4, slowed: 0, facing: Some(Facing::S) })
    );
    assert_eq!(
        weapon_art(Some(Item::VirgaMeridies), 2, -2, 0),
        Some(CreatureArt::Blow { damage: 3, burning: 0, slowed: 5, facing: Some(Facing::W) })
    );
    assert_eq!(weapon_art(Some(Item::VirgaMeridies), 6, -6, 0), None);
    assert_eq!(weapon_art(Some(Item::VirgaZenith), 4, 4, 1), Some(CreatureArt::Dash(Facing::SE)));
    assert_eq!(weapon_art(Some(Item::VirgaZenith), 1, 1, 1), None);
    assert_eq!(weapon_art(None, 3, 3, 0), None);
}

#[test]
fn a_dash_stops_at_the_first_blocked_cell() {
    assert_eq!(dash_length(false, true), 0);
    assert_eq!(dash_length(true, false), 1);
    assert_eq!(dash_length(true, true), 2);
}

#[test]
fn creature_kinds_use_their_own_arts_on_their_turns() {
    assert_eq!(builtin_art("relay_surgeon", 4, 2, 9, 9, 0, 0), Some((4, 3, 0, true)));
    assert_eq!(builtin_art("relay_surgeon", 4, 3, 9, 9, 0, 0), None);
    assert_eq!(builtin_art("archive_scribe", 4, 1, 9, 9, 1, 0), Some((3, 0, 3, false)));
    assert_eq!(builtin_art("archive_scribe", 4, 2, 9, 9, 1, 0), None);
    assert_eq!(builtin_art("carrier_frame", 3, 1, 3, 3, 3, 0), Some((5, 0, 2, false)));
    assert_eq!(builtin_art("carrier_frame", 3, 2, 3, 3, 3, 0), None);
    assert_eq!(builtin_art("carrier_frame", 3, 1, 5, 5, 0, 0), None);
    assert_eq!(builtin_art("specimen_guard", 4, 1, 2, 0, 2, 3), Some((4, 0, 3, false)));
    assert_eq!(builtin_art("specimen_guard", 4, 1, 2, 0, 2, 2), None);
    assert_eq!(builtin_art("seal_hound", 3, 0, 2, 2, 0, 9), None);
}

#[test]
fn creatures_pick_up_what_they_walk_over() {
    let hostile = EnemySense { hostile: true, traveler: false, flee: false, facing: Facing::N, id: 1 };
    let traveler = EnemySense { hostile: false, traveler: true, flee: false, facing: Facing::N, id: 2 };
    let step = EnemyAction::Step { dx: 1, dy: 0, facing: Facing::E };
    assert!(creature_picks_up(hostile, 3, 4, true, step));
    assert!(!creature_picks_up(hostile, 3, 4, false, step));
    assert!(!creature_picks_up(hostile, 7, 1, true, step));
    assert!(creature_picks_up(hostile, 7, 0, true, EnemyAction::Pathfind));
    assert!(!creature_picks_up(hostile, 1, 0, true, EnemyAction::Melee));
    assert!(creature_picks_up(traveler, 30, 0, false, EnemyAction::Turn(Facing::E)));
    assert!(!creature_picks_up(traveler, 30, 0, false, EnemyAction::Rest));
    assert!(!creature_picks_up(hostile, 2, 2, true, EnemyAction::TrySpecials));
}
