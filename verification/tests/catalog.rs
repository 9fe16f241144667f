use abyss::catalog::{
    execute_crafting, place_into_grid, CraftOutcome, GridPlacement,
    build_defs, creature_meta, find_recipe, item_meta, move_cursor_3x3, tile_meta,
    CreatureDefRaw, CreatureLootRaw, DefKind, DefsError, GameDataRaw, ItemDefRaw, RecipeDefRaw,
    TileDefRaw,
};
use abyss::defs::{Faction, ForgePatternError};
use abyss::inventory::{Inventory, InventoryItem};
use abyss::items::{Item, Tile};
use abyss::worldgen::next_floor_seed;

fn tile_raw(id: &str, glyph: &str) -> TileDefRaw {
    TileDefRaw {
        id: id.to_string(),
        glyph: glyph.to_string(),
        color: 34,
        shadow_color: None,
        walkable: true,
        legend: format!("{id} legend"),
        harvest_hits: None,
        harvest_drop: None,
        harvest_drop_chance: None,
        harvest_replace: None,
        harvest_label: None,
    }
}

fn item_raw(id: &str, glyph: &str) -> ItemDefRaw {
    ItemDefRaw {
        id: id.to_string(),
        name: format!("{id} name"),
        glyph: glyph.to_string(),
        color: 11,
        status: "ok".to_string(),
        description: "desc".to_string(),
    }
}

fn loot(id: &str, carry: u8, drop: u8, weapon: bool) -> CreatureLootRaw {
    CreatureLootRaw { id: id.to_string(), carry_chance: carry, drop_chance: drop, equip_as_weapon: weapon }
}

fn creature_raw(id: &str, faction: &str, loot: Vec<CreatureLootRaw>) -> CreatureDefRaw {
    CreatureDefRaw {
        id: id.to_string(),
        name: format!("{id} name"),
        faction: faction.to_string(),
        glyph: "@".to_string(),
        color: 15,
        hp: 20,
        attack: 5,
        defense: 2,
        agility: 3,
        spawn_weight: None,
        loot,
    }
}

fn recipe_raw(result: &str, cells: &[&str]) -> RecipeDefRaw {
    RecipeDefRaw {
        result: result.to_string(),
        label: None,
        inputs: cells.iter().map(|c| c.to_string()).collect(),
    }
}

fn good_data() -> GameDataRaw {
    let mut forest = tile_raw("forest", "♣");
    forest.shadow_color = Some(22);
    forest.harvest_hits = Some(3);
    forest.harvest_drop = Some("wood".to_string());
    forest.harvest_replace = Some("grass".to_string());
    forest.harvest_label = Some("tree".to_string());
    GameDataRaw {
        tiles: vec![tile_raw("grass", "."), forest, tile_raw("grass", ",")],
        items: vec![item_raw("wood", "="), item_raw("stone", "*")],
        recipes: vec![recipe_raw(
            "stone_axe",
            &["stone", " ", "", "wood", "", "", "", "", ""],
        )],
        creatures: vec![
            creature_raw("player", "ally", vec![]),
            creature_raw("rat", "hostile", vec![loot("stone_axe", 50, 100, true)]),
        ],
        forge_pattern: None,
    }
}

#[test]
fn accepted_data_builds_every_entry() {
    let defs = build_defs(&good_data()).unwrap();
    assert_eq!(defs.tiles.len(), 3);
    assert_eq!(defs.items.len(), 2);
    let forest = &defs.tiles[1];
    assert_eq!(forest.tile, Tile::Forest);
    assert_eq!(forest.glyph, '♣');
    assert_eq!(forest.shadow_color, 22);
    assert_eq!(defs.tiles[0].shadow_color, 34);
    assert_eq!(forest.harvest_drop, Some(Item::Wood));
    assert_eq!(forest.harvest_replace, Some(Tile::Grass));
    assert_eq!(forest.harvest_drop_chance, 100);
    assert_eq!(forest.harvest_label.as_deref(), Some("tree"));
    let recipe = &defs.recipes[0];
    assert_eq!(recipe.result, Item::StoneAxe);
    assert_eq!(recipe.label, "stone_axe");
    assert_eq!(recipe.inputs[0], Some(Item::Stone));
    assert_eq!(recipe.inputs[1], None);
    assert_eq!(recipe.inputs[3], Some(Item::Wood));
    let rat = &defs.creatures[1];
    assert_eq!(rat.faction, Faction::Hostile);
    assert_eq!(rat.spawn_weight, 0);
    assert_eq!(rat.loot[0].item, Item::StoneAxe);
    assert_eq!(defs.forge_scroll_pattern.len(), 8);
}

#[test]
fn later_entries_replace_earlier_ones() {
    let defs = build_defs(&good_data()).unwrap();
    assert_eq!(tile_meta(&defs, Tile::Grass).unwrap().glyph, ',');
    assert!(tile_meta(&defs, Tile::Wall).is_none());
    assert_eq!(item_meta(&defs, Item::Stone).unwrap().glyph, '*');
    assert!(item_meta(&defs, Item::Torch).is_none());
    assert_eq!(creature_meta(&defs, "rat").unwrap().hp, 20);
    assert!(creature_meta(&defs, "bat").is_none());
}

#[test]
fn recipes_are_found_by_their_grid() {
    let defs = build_defs(&good_data()).unwrap();
    let mut grid = vec![None; 9];
    grid[0] = Some(Item::Stone);
    grid[3] = Some(Item::Wood);
    assert_eq!(find_recipe(&defs, &grid), Some(0));
    grid[4] = Some(Item::Wood);
    assert_eq!(find_recipe(&defs, &grid), None);
}

#[test]
fn cursor_stays_on_the_grid() {
    assert_eq!(move_cursor_3x3(4, 1, 0), 5);
    assert_eq!(move_cursor_3x3(4, 0, 1), 7);
    assert_eq!(move_cursor_3x3(2, 1, 0), 2);
    assert_eq!(move_cursor_3x3(0, -1, -1), 0);
    assert_eq!(move_cursor_3x3(8, 5, 5), 8);
}

#[test]
fn data_errors_name_the_first_bad_entry() {
    let mut d = good_data();
    d.items[1].id = "gem".to_string();
    assert_eq!(build_defs(&d).err(), Some(DefsError::UnknownItem { item: 1 }));

    let mut d = good_data();
    d.items[0].glyph = String::new();
    assert_eq!(build_defs(&d).err(), Some(DefsError::EmptyGlyph { kind: DefKind::Item, entry: 0 }));

    let mut d = good_data();
    d.tiles[2].glyph = "ab".to_string();
    assert_eq!(build_defs(&d).err(), Some(DefsError::LongGlyph { kind: DefKind::Tile, entry: 2 }));

    let mut d = good_data();
    d.tiles[0].id = "lava".to_string();
    assert_eq!(build_defs(&d).err(), Some(DefsError::UnknownTile { tile: 0 }));

    let mut d = good_data();
    d.tiles[1].harvest_drop = Some("gem".to_string());
    assert_eq!(build_defs(&d).err(), Some(DefsError::UnknownHarvestDrop { tile: 1 }));

    let mut d = good_data();
    d.tiles[1].harvest_replace = Some("lava".to_string());
    assert_eq!(build_defs(&d).err(), Some(DefsError::UnknownHarvestReplace { tile: 1 }));

    let mut d = good_data();
    d.recipes[0].inputs.pop();
    assert_eq!(build_defs(&d).err(), Some(DefsError::RecipeInputCount { recipe: 0 }));

    let mut d = good_data();
    d.recipes[0].inputs[5] = " gem ".to_string();
    assert_eq!(build_defs(&d).err(), Some(DefsError::UnknownRecipeInput { recipe: 0, input: 5 }));

    let mut d = good_data();
    d.recipes[0].result = "gem".to_string();
    assert_eq!(build_defs(&d).err(), Some(DefsError::UnknownRecipeResult { recipe: 0 }));

    let mut d = good_data();
    d.creatures[1].faction = "rival".to_string();
    assert_eq!(build_defs(&d).err(), Some(DefsError::UnknownFaction { creature: 1 }));

    let mut d = good_data();
    d.creatures[1].loot.push(loot("gem", 10, 10, false));
    assert_eq!(build_defs(&d).err(), Some(DefsError::UnknownLootItem { creature: 1, loot: 1 }));

    let mut d = good_data();
    d.creatures[1].loot[0].carry_chance = 101;
    assert_eq!(build_defs(&d).err(), Some(DefsError::CarryChance { creature: 1, loot: 0 }));

    let mut d = good_data();
    d.creatures[1].loot[0].drop_chance = 200;
    assert_eq!(build_defs(&d).err(), Some(DefsError::DropChance { creature: 1, loot: 0 }));

    let mut d = good_data();
    d.creatures[1].loot[0].id = "wood".to_string();
    assert_eq!(build_defs(&d).err(), Some(DefsError::LootNotWeapon { creature: 1, loot: 0 }));

    let mut d = good_data();
    d.creatures[0].id = "hero".to_string();
    assert_eq!(build_defs(&d).err(), Some(DefsError::MissingPlayer));

    let mut d = good_data();
    d.forge_pattern = Some(vec!["w s w".to_string(), "s @ s".to_string()]);
    assert_eq!(build_defs(&d).err(), Some(DefsError::ForgePattern(ForgePatternError::RowCount)));
}

#[test]
fn items_are_checked_before_tiles() {
    let mut d = good_data();
    d.tiles[0].id = "lava".to_string();
    d.items[1].id = "gem".to_string();
    assert_eq!(build_defs(&d).err(), Some(DefsError::UnknownItem { item: 1 }));
}

#[test]
fn floor_seeds_rotate_the_salted_seed() {
    assert_eq!(next_floor_seed(0, 2), 0xf1bb_cdcb_fa53_e0ac);
    assert_eq!(next_floor_seed(12345, 63), 0x3c6e_f372_fe95_589d);
    assert_eq!(next_floor_seed(77, 5), 77u64.wrapping_add(0x9E37_79B9_7F4A_7C15).rotate_left(6));
}

fn unit(uid: u64, kind: Item, qty: u16) -> InventoryItem {
    InventoryItem { uid, kind, custom_name: None, weapon_bonus: 0, qty }
}

fn bag_of(items: Vec<InventoryItem>) -> Inventory {
    Inventory { items, equipped_sword: None, equipped_shield: None, equipped_accessory: None }
}

#[test]
fn crafting_uses_up_the_grid() {
    let defs = build_defs(&good_data()).unwrap();
    let mut grid: Vec<Option<InventoryItem>> = vec![None; 9];
    grid[0] = Some(unit(1, Item::Stone, 1));
    grid[3] = Some(unit(2, Item::Wood, 1));
    let mut bag = bag_of(Vec::new());
    let mut next = 10u64;
    assert_eq!(execute_crafting(&defs, &mut grid, &mut bag, &mut next), CraftOutcome::Crafted { recipe: 0 });
    assert!(grid.iter().all(|c| c.is_none()));
    assert_eq!(bag.items.len(), 1);
    assert_eq!(bag.items[0].kind, Item::StoneAxe);

    let mut grid: Vec<Option<InventoryItem>> = vec![None; 9];
    grid[0] = Some(unit(1, Item::Stone, 1));
    grid[3] = Some(unit(2, Item::Wood, 1));
    let mut full = bag_of((1..=20).map(|u| unit(100 + u, Item::Potion, 1)).collect());
    assert_eq!(execute_crafting(&defs, &mut grid, &mut full, &mut next), CraftOutcome::CraftedNoRoom { recipe: 0 });
    assert!(grid.iter().all(|c| c.is_none()));
    assert_eq!(full.items.len(), 20);

    let mut grid: Vec<Option<InventoryItem>> = vec![None; 9];
    grid[8] = Some(unit(3, Item::Wood, 1));
    assert_eq!(execute_crafting(&defs, &mut grid, &mut bag, &mut next), CraftOutcome::NoRecipe);
    assert!(grid[8].is_some());
}

#[test]
fn placing_moves_one_unit_into_the_cell() {
    let mut grid: Vec<Option<InventoryItem>> = vec![None; 9];
    let mut bag = bag_of(vec![unit(1, Item::Stone, 2)]);
    let mut selected = 0usize;
    match place_into_grid(&mut grid, 4, &mut bag, &mut selected) {
        GridPlacement::Placed { displaced } => assert!(displaced.is_none()),
        GridPlacement::NothingSelected => panic!("expected a placement"),
    }
    assert_eq!(grid[4].as_ref().map(|i| (i.kind, i.qty)), Some((Item::Stone, 1)));
    assert_eq!(bag.items[0].qty, 1);
    match place_into_grid(&mut grid, 4, &mut bag, &mut selected) {
        GridPlacement::Placed { displaced } => assert_eq!(displaced.map(|i| i.kind), Some(Item::Stone)),
        GridPlacement::NothingSelected => panic!("expected a placement"),
    }
    assert!(bag.items.is_empty());
    assert_eq!(selected, 0);
    assert!(matches!(place_into_grid(&mut grid, 4, &mut bag, &mut selected), GridPlacement::NothingSelected));
}
