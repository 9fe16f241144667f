use abyss::combat::StatusState;
use abyss::inventory::{Inventory, InventoryItem, MAX_INVENTORY};
use abyss::items::{Item, Tile};
use abyss::defs::default_forge_scroll_pattern;
use abyss::player::{
    forge_pattern_laid, ground_after_use, ritual_cells, receive_blow, tick_creature_status, BlowOutcome, DeathCause, ItemUse, PlayerState, Slot, Spell,
    UseContext, Vitals,
};
use abyss::progression::Progress;
use abyss::restore::{
    apply_legacy_bonus, assign_enemy_ids, clamp_weapon_bonus, default_floor, default_lang_code,
    default_level, default_next_entity_id, default_next_exp, default_player_hunger,
    default_player_id, default_player_max_hunger, default_player_max_mp, default_player_mp,
    next_enemy_id, restore_bag, restore_chunk, restore_equipped_slot, restore_inventory_items,
};

fn unit(uid: u64, kind: Item) -> InventoryItem {
    InventoryItem { uid, kind, custom_name: None, weapon_bonus: 0, qty: 1 }
}

fn stack(uid: u64, kind: Item, qty: u16) -> InventoryItem {
    InventoryItem { uid, kind, custom_name: None, weapon_bonus: 0, qty }
}

fn bag(items: Vec<InventoryItem>) -> Inventory {
    Inventory { items, equipped_sword: None, equipped_shield: None, equipped_accessory: None }
}

fn vitals() -> Vitals {
    Vitals {
        hp: 10,
        hunger: 50,
        max_hunger: 100,
        progress: Progress {
            level: 1,
            exp: 0,
            next_exp: 20,
            player_max_hp: 20,
            player_mp: 5,
            player_max_mp: 10,
            stat_total_exp: 0,
        },
        status: StatusState { burning_turns: 0, slowed_turns: 0 },
        ancient_charge: 0,
        turn: 0,
        floor: 1,
        invincible: false,
        damage_taken: 0,
    }
}

fn player(items: Vec<InventoryItem>) -> PlayerState {
    PlayerState { vitals: vitals(), bag: bag(items) }
}

fn ctx() -> UseContext {
    UseContext { torch_here: false, on_blood_stain: true, forge_pattern_laid: true }
}

fn qtys(b: &Inventory) -> Vec<(u64, Item, u16)> {
    b.items.iter().map(|it| (it.uid, it.kind, it.qty)).collect()
}

#[test]
fn materials_stack_up_to_ten() {
    let mut b = bag(Vec::new());
    let mut next = 5u64;
    assert!(b.add_item_to_inventory(stack(0, Item::Wood, 15), &mut next));
    assert_eq!(qtys(&b), vec![(5, Item::Wood, 10), (6, Item::Wood, 5)]);
    assert_eq!(next, 7);
    assert!(b.add_item_to_inventory(stack(0, Item::Wood, 7), &mut next));
    assert_eq!(qtys(&b), vec![(5, Item::Wood, 10), (6, Item::Wood, 10), (7, Item::Wood, 2)]);
    assert_eq!(next, 8);
}

#[test]
fn full_bag_refuses_new_entries() {
    let items: Vec<InventoryItem> = (1..=20).map(|i| unit(i, Item::Potion)).collect();
    let mut b = bag(items);
    assert!(b.inventory_full());
    assert_eq!(b.inventory_len(), MAX_INVENTORY);
    let mut next = 30u64;
    assert!(!b.add_item_kind_to_inventory(Item::Herb, &mut next));
    assert_eq!(b.items.len(), 20);
    assert_eq!(next, 31);
}

#[test]
fn full_bag_still_tops_up_stacks() {
    let mut items: Vec<InventoryItem> = (1..=19).map(|i| unit(i, Item::Potion)).collect();
    items.push(stack(50, Item::Stone, 8));
    let mut b = bag(items);
    let mut next = 60u64;
    assert!(b.add_item_to_inventory(stack(0, Item::Stone, 2), &mut next));
    assert_eq!(b.items[19].qty, 10);
    assert!(!b.add_item_to_inventory(stack(0, Item::Stone, 3), &mut next));
    assert_eq!(b.items.len(), 20);
    assert_eq!(next, 60);
}

#[test]
fn taking_one_unit() {
    let mut b = bag(vec![stack(4, Item::Hide, 3), unit(9, Item::IronSword)]);
    b.equipped_sword = Some(unit(9, Item::IronSword));
    let one = b.take_inventory_one(0).unwrap();
    assert_eq!((one.uid, one.kind, one.qty), (4, Item::Hide, 1));
    assert_eq!(b.items[0].qty, 2);
    let sword = b.take_inventory_one(1).unwrap();
    assert_eq!(sword.uid, 9);
    assert_eq!(b.items.len(), 1);
    assert!(b.equipped_sword.is_none());
    assert!(b.take_inventory_one(5).is_none());
}

#[test]
fn moving_and_finding_entries() {
    let mut b = bag(vec![unit(1, Item::Potion), unit(2, Item::Herb), unit(3, Item::Torch)]);
    assert!(b.move_inventory_item(0, 2));
    assert_eq!(qtys(&b).iter().map(|e| e.0).collect::<Vec<_>>(), vec![2, 3, 1]);
    assert!(!b.move_inventory_item(1, 1));
    assert!(!b.move_inventory_item(0, 3));
    assert_eq!(b.first_inventory_index_of_kind(Item::Potion), Some(2));
    assert_eq!(b.first_inventory_index_of_kind(Item::Elixir), None);
}

#[test]
fn healing_items_heal_and_feed() {
    let mut p = player(vec![unit(1, Item::Potion), unit(2, Item::Potion), unit(3, Item::Elixir)]);
    assert_eq!(p.use_inventory_item(0, ctx()), ItemUse::Healed { healed: 6 });
    assert_eq!(p.vitals.hp, 16);
    assert_eq!(p.vitals.hunger, 55);
    assert_eq!(p.bag.items.len(), 2);
    assert_eq!(p.use_inventory_item(0, ctx()), ItemUse::Healed { healed: 4 });
    assert_eq!(p.vitals.hp, 20);
    assert_eq!(p.use_inventory_item(0, ctx()), ItemUse::Healed { healed: 0 });
    assert_eq!(p.vitals.hunger, 65);
    assert!(p.bag.items.is_empty());
}

#[test]
fn food_restores_hunger() {
    let mut p = player(vec![unit(1, Item::Food), unit(2, Item::Bread)]);
    assert_eq!(p.use_inventory_item(0, ctx()), ItemUse::Fed { restored: 50 });
    assert_eq!(p.vitals.hunger, 100);
    assert_eq!(p.use_inventory_item(0, ctx()), ItemUse::Fed { restored: 0 });
    assert!(p.bag.items.is_empty());
}

#[test]
fn torches_are_placed_once() {
    let mut p = player(vec![unit(1, Item::Torch)]);
    let here = UseContext { torch_here: true, ..ctx() };
    assert_eq!(p.use_inventory_item(0, here), ItemUse::TorchAlready);
    assert_eq!(p.bag.items.len(), 1);
    assert_eq!(p.use_inventory_item(0, ctx()), ItemUse::TorchPlaced);
    assert!(p.bag.items.is_empty());
}

#[test]
fn scrolls_cost_mp_and_stay() {
    let mut p = player(vec![unit(1, Item::NovaScroll), unit(2, Item::FlameScroll)]);
    assert_eq!(p.use_inventory_item(1, ctx()), ItemUse::Cast(Spell::Flame));
    assert_eq!(p.vitals.progress.player_mp, 3);
    assert_eq!(p.bag.items.len(), 2);
    assert_eq!(p.use_inventory_item(0, ctx()), ItemUse::NoMp { need: 5 });
    assert_eq!(p.vitals.progress.player_mp, 3);
    p.vitals.progress.player_mp = 5;
    assert_eq!(p.use_inventory_item(0, ctx()), ItemUse::Cast(Spell::Nova));
    assert_eq!(p.vitals.progress.player_mp, 0);
}

#[test]
fn equipment_toggles() {
    let mut p = player(vec![unit(1, Item::IronSword), unit(2, Item::WoodenShield), unit(3, Item::LuckyCharm), unit(4, Item::Wood)]);
    assert_eq!(p.use_inventory_item(0, ctx()), ItemUse::Equipped(Slot::Weapon));
    assert_eq!(p.bag.equipped_sword.as_ref().map(|s| s.uid), Some(1));
    assert_eq!(p.use_inventory_item(0, ctx()), ItemUse::Unequipped(Slot::Weapon));
    assert!(p.bag.equipped_sword.is_none());
    assert_eq!(p.use_inventory_item(1, ctx()), ItemUse::Equipped(Slot::Shield));
    assert_eq!(p.use_inventory_item(2, ctx()), ItemUse::Equipped(Slot::Accessory));
    assert_eq!(p.use_inventory_item(3, ctx()), ItemUse::CannotUseDirect);
    assert_eq!(p.use_inventory_item(9, ctx()), ItemUse::NothingToUse);
}

#[test]
fn ancient_weapon_art_needs_charge() {
    let mut p = player(vec![unit(1, Item::GladiusNadir)]);
    assert_eq!(p.use_inventory_item(0, ctx()), ItemUse::Equipped(Slot::Weapon));
    assert_eq!(p.use_inventory_item(0, ctx()), ItemUse::AncientSilent);
    p.vitals.ancient_charge = 2;
    assert_eq!(p.use_inventory_item(0, ctx()), ItemUse::AncientArt(Item::GladiusNadir));
    assert!(p.bag.equipped_sword.is_some());
}

#[test]
fn forge_ritual_conditions() {
    let mut p = player(vec![unit(1, Item::ForgeScroll), unit(7, Item::IronSword)]);
    assert_eq!(p.use_inventory_item(0, ctx()), ItemUse::ForgeNeedWeapon);
    p.use_inventory_item(1, ctx());
    let off_blood = UseContext { on_blood_stain: false, ..ctx() };
    assert_eq!(p.use_inventory_item(0, off_blood), ItemUse::ForgeNeedBlood);
    let no_pattern = UseContext { forge_pattern_laid: false, ..ctx() };
    assert_eq!(p.use_inventory_item(0, no_pattern), ItemUse::ForgePatternMismatch);
    p.vitals.progress.player_mp = 3;
    assert_eq!(p.use_inventory_item(0, ctx()), ItemUse::NoMp { need: 4 });
    p.vitals.progress.player_mp = 9;
    assert_eq!(p.use_inventory_item(0, ctx()), ItemUse::Forged { bonus: 1 });
    assert_eq!(p.vitals.progress.player_mp, 5);
    assert_eq!(p.bag.equipped_sword.as_ref().unwrap().weapon_bonus, 1);
    assert_eq!(p.bag.items[1].weapon_bonus, 1);
    assert_eq!(p.bag.items.len(), 2);
    p.bag.equipped_sword.as_mut().unwrap().weapon_bonus = 6;
    assert_eq!(p.use_inventory_item(0, ctx()), ItemUse::ForgeWeaponMax);
}

#[test]
fn burning_can_kill_at_end_of_turn() {
    let mut v = vitals();
    v.hp = 1;
    v.status = StatusState { burning_turns: 2, slowed_turns: 1 };
    assert_eq!(v.end_turn(), Some(DeathCause::Burning));
    assert_eq!(v.hp, 0);
    assert_eq!(v.status, StatusState { burning_turns: 1, slowed_turns: 0 });
    assert_eq!(v.turn, 1);
    assert_eq!(v.damage_taken, 1);
}

#[test]
fn hunger_drops_every_fourth_turn() {
    let mut v = vitals();
    v.hunger = 10;
    for _ in 0..3 {
        assert_eq!(v.end_turn(), None);
    }
    assert_eq!(v.hunger, 10);
    v.end_turn();
    assert_eq!(v.hunger, 9);
    for _ in 0..8 {
        v.end_turn();
    }
    assert_eq!(v.hunger, 7);
    let mut god = vitals();
    god.invincible = true;
    for _ in 0..8 {
        god.end_turn();
    }
    assert_eq!(god.hunger, 50);
}

#[test]
fn starving_and_regeneration() {
    let mut v = vitals();
    v.hunger = 0;
    v.hp = 1;
    assert_eq!(v.end_turn(), Some(DeathCause::Hunger));
    assert_eq!(v.hp, 0);
    let mut w = vitals();
    w.hp = 5;
    w.turn = 7;
    assert_eq!(w.end_turn(), None);
    assert_eq!(w.hp, 6);
    assert_eq!(w.hunger, 49);
}

#[test]
fn next_floor_restores_mp() {
    let mut v = vitals();
    v.progress.player_mp = 1;
    v.arrive_on_next_floor();
    assert_eq!(v.floor, 2);
    assert_eq!(v.progress.player_mp, 10);
}

#[test]
fn creature_statuses_tick() {
    let mut s = StatusState { burning_turns: 1, slowed_turns: 2 };
    let mut hp = 1;
    assert!(tick_creature_status(&mut s, &mut hp));
    assert_eq!((s.burning_turns, s.slowed_turns, hp), (0, 2, 0));
    let mut s = StatusState { burning_turns: 0, slowed_turns: 2 };
    let mut hp = 4;
    assert!(!tick_creature_status(&mut s, &mut hp));
    assert_eq!((s.slowed_turns, hp), (1, 4));
}

#[test]
fn restoring_ids_and_bonuses() {
    let mut items = vec![unit(0, Item::Potion), InventoryItem { weapon_bonus: 10, ..unit(9, Item::IronSword) }, InventoryItem { weapon_bonus: -3, ..stack(0, Item::Wood, 4) }];
    let mut next = 5u64;
    restore_inventory_items(&mut items, &mut next);
    assert_eq!(items.iter().map(|i| i.uid).collect::<Vec<_>>(), vec![5, 9, 10]);
    assert_eq!(items.iter().map(|i| i.weapon_bonus).collect::<Vec<_>>(), vec![0, 6, 0]);
    assert_eq!(next, 11);
    let mut slot = Some(unit(0, Item::IronSword));
    restore_equipped_slot(&mut slot, &items, &mut next);
    assert_eq!(slot.as_ref().unwrap().uid, 9);
    let mut other = Some(unit(0, Item::WoodenShield));
    restore_equipped_slot(&mut other, &items, &mut next);
    assert_eq!(other.as_ref().unwrap().uid, 11);
    assert_eq!(next, 12);
    assert_eq!(clamp_weapon_bonus(-1), 0);
    assert_eq!(clamp_weapon_bonus(3), 3);
}

#[test]
fn restoring_a_whole_bag() {
    let mut b = bag(vec![unit(0, Item::IronSword), unit(0, Item::Potion)]);
    b.equipped_sword = Some(unit(0, Item::IronSword));
    let mut next = 1u64;
    restore_bag(&mut b, 4, &mut next);
    assert_eq!(b.items[0].uid, 1);
    assert_eq!(b.items[1].uid, 2);
    assert_eq!(b.equipped_sword.as_ref().unwrap().uid, 1);
    assert_eq!(b.equipped_sword.as_ref().unwrap().weapon_bonus, 4);
    assert_eq!(b.items[0].weapon_bonus, 4);
    assert_eq!(next, 3);
    let mut c = bag(vec![unit(3, Item::StoneAxe)]);
    c.equipped_sword = Some(InventoryItem { weapon_bonus: 5, ..unit(3, Item::StoneAxe) });
    apply_legacy_bonus(&mut c, 2);
    assert_eq!(c.equipped_sword.as_ref().unwrap().weapon_bonus, 5);
    assert_eq!(c.items[0].weapon_bonus, 5);
}

#[test]
fn restoring_creature_ids() {
    assert_eq!(next_enemy_id(3, &vec![0, 7, 2]), 8);
    assert_eq!(next_enemy_id(0, &vec![]), 1);
    let mut next = 8u64;
    assert_eq!(assign_enemy_ids(&vec![0, 7, 0], &mut next), vec![8, 7, 9]);
    assert_eq!(next, 10);
}

#[test]
fn restoring_chunks_and_pools() {
    assert!(restore_chunk(&vec![Tile::Grass; 255], 2).is_none());
    let c = restore_chunk(&vec![Tile::Sand; 256], 40).unwrap();
    assert_eq!(c.biome.0, 15);
    assert!(c.tiles.iter().all(|t| *t == Tile::Sand));
    let mut v = vitals();
    v.progress.player_max_mp = 0;
    v.progress.player_mp = 50;
    v.hunger = -5;
    v.ancient_charge = 12;
    v.progress.level = 0;
    v.floor = 0;
    v.normalize_restored();
    assert_eq!((v.progress.player_max_mp, v.progress.player_mp), (1, 1));
    assert_eq!(v.hunger, 0);
    assert_eq!(v.ancient_charge, 9);
    assert_eq!(v.progress.level, 1);
    assert_eq!(v.floor, 1);
}

#[test]
fn snapshot_defaults() {
    assert_eq!(default_level(), 1);
    assert_eq!(default_floor(), 1);
    assert_eq!(default_next_exp(), 20);
    assert_eq!(default_player_id(), 0);
    assert_eq!(default_player_mp(), 10);
    assert_eq!(default_player_max_mp(), 10);
    assert_eq!(default_player_hunger(), 100);
    assert_eq!(default_player_max_hunger(), 100);
    assert_eq!(default_next_entity_id(), 1);
    assert_eq!(default_lang_code(), "en");
}

#[test]
fn blows_land_unless_evaded_or_invincible() {
    let mut v = vitals();
    let mut rng = 7u64;
    v.status.burning_turns = 1;
    let out = receive_blow(&mut v, 3, 2, 0, 0, &mut rng);
    assert_eq!(out, BlowOutcome::Hit { hp: 7, burned: true, slowed: false });
    assert_eq!(v.damage_taken, 3);
    assert_eq!(v.status.burning_turns, 2);
    assert_eq!(rng, 7);

    let out = receive_blow(&mut v, 3, 1, 0, 0, &mut rng);
    assert_eq!(out, BlowOutcome::Hit { hp: 4, burned: false, slowed: false });
    assert_eq!(v.status.burning_turns, 2);

    let mut sure_evade = vitals();
    let before = sure_evade;
    assert_eq!(receive_blow(&mut sure_evade, 5, 0, 0, 100, &mut rng), BlowOutcome::Evaded);
    assert_eq!(sure_evade, before);
    assert_ne!(rng, 7);

    let mut tough = vitals();
    tough.invincible = true;
    assert_eq!(receive_blow(&mut tough, 5, 3, 3, 0, &mut rng), BlowOutcome::Shrugged);
    assert_eq!(tough.hp, 10);
}

fn laid_ground() -> Vec<Option<Item>> {
    default_forge_scroll_pattern().iter().map(|(_, _, it)| Some(*it)).collect()
}

#[test]
fn the_ground_is_held_against_the_forge_pattern() {
    let pattern = default_forge_scroll_pattern();
    let mut ground = laid_ground();
    assert!(forge_pattern_laid(&pattern, &ground));
    ground[0] = Some(Item::Stone);
    assert!(!forge_pattern_laid(&pattern, &ground));
    ground[0] = None;
    assert!(!forge_pattern_laid(&pattern, &ground));
    let cells = ritual_cells(&pattern, 10, -4).unwrap();
    assert_eq!(cells[0], (9, -5));
    assert_eq!(cells[1], (10, -5));
    assert_eq!(cells[7], (11, -3));
    assert_eq!(cells.len(), 8);
    assert_eq!(ritual_cells(&pattern, i32::MAX, 0), None);
}

#[test]
fn the_forge_ritual_raises_the_weapon_and_consumes_the_pattern() {
    let pattern = default_forge_scroll_pattern();
    let mut p = player(vec![unit(1, Item::ForgeScroll), unit(7, Item::IronSword)]);
    assert!(matches!(p.use_inventory_item(1, ctx()), ItemUse::Equipped(_)));
    let mut ground = laid_ground();
    let laid = forge_pattern_laid(&pattern, &ground);
    let here = UseContext { torch_here: false, on_blood_stain: true, forge_pattern_laid: laid };
    let mp_before = p.vitals.progress.player_mp;
    let u = p.use_inventory_item(0, here);
    assert_eq!(u, ItemUse::Forged { bonus: 1 });
    ground_after_use(u, &mut ground);
    assert!(ground.iter().all(|g| g.is_none()));
    assert_eq!(p.vitals.progress.player_mp, mp_before - 4);
    assert_eq!(p.bag.equipped_sword.as_ref().map(|s| s.weapon_bonus), Some(1));
    assert_eq!(p.bag.items.iter().find(|it| it.uid == 7).map(|it| it.weapon_bonus), Some(1));
    assert!(p.bag.items.iter().any(|it| it.kind == Item::ForgeScroll));

    let mut other = laid_ground();
    ground_after_use(ItemUse::ForgePatternMismatch, &mut other);
    assert_eq!(other, laid_ground());
}

#[test]
fn renaming_trims_and_a_blank_name_resets() {
    let mut b = bag(vec![unit(1, Item::Potion), unit(2, Item::IronSword)]);
    assert!(b.rename_inventory_item(1, "  Fang  "));
    assert_eq!(b.items[1].custom_name.as_deref(), Some("Fang"));
    assert_eq!((b.items[1].uid, b.items[1].kind, b.items[1].qty), (2, Item::IronSword, 1));
    assert_eq!(b.items[0].custom_name, None);
    assert!(b.rename_inventory_item(1, "   "));
    assert_eq!(b.items[1].custom_name, None);
    assert!(!b.rename_inventory_item(2, "x"));
    assert_eq!(b.items.len(), 2);
}

#[test]
fn swapping_with_the_ground_trades_one_unit() {
    let mut b = bag(vec![stack(1, Item::Wood, 3), unit(2, Item::Potion)]);
    let mut next = 10u64;
    assert_eq!(b.swap_ground_item(0, Item::Herb, &mut next), Some(Item::Wood));
    assert_eq!(qtys(&b), vec![(1, Item::Wood, 2), (2, Item::Potion, 1), (10, Item::Herb, 1)]);
    assert_eq!(next, 11);
    assert_eq!(b.swap_ground_item(1, Item::Herb, &mut next), Some(Item::Potion));
    assert_eq!(qtys(&b), vec![(1, Item::Wood, 2), (10, Item::Herb, 1), (11, Item::Herb, 1)]);
    assert_eq!(b.swap_ground_item(7, Item::Herb, &mut next), None);
    assert_eq!(b.items.len(), 3);
}
