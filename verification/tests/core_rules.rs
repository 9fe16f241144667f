use abyss::combat::{
    apply_status_bundle, enemy_agility, equipped_attack_bonus, equipped_defense_bonus,
    is_line_aligned, item_attack_bonus, player_agility, player_attack_power, player_defense,
    spend_ancient_for_weapon, thrown_attack_profile, try_spend_mp, BaseStats, StatusState,
};
use abyss::defs::{
    default_drop_chance, default_forge_scroll_pattern, forge_pattern_error,
    forge_scroll_pattern_lines, parse_forge_scroll_pattern, parse_single_char_or, Faction,
    ForgePatternError,
};
use abyss::inventory::{Inventory, InventoryItem};
use abyss::items::{
    facing_steps_45, oriented_tip_glyph, parse_facing_key, rotate_facing_clockwise, Facing, Item,
    StructureKind, Tile,
};
use abyss::noise::Perlin2D;
use abyss::progression::{calc_damage, evade_chance_percent, exp_needed_for_level, Progress};
use abyss::worldgen::{
    chunk_coord, chunk_in_range, peak_in_range, deterministic_hash64, generate_chunk_rogue, local_coord, remap_biome, BiomeId,
    Chunk, StairsMode, TerrainTheme,
};

fn strings(rows: &[&str]) -> Vec<String> {
    rows.iter().map(|r| r.to_string()).collect()
}

fn item(uid: u64, kind: Item) -> InventoryItem {
    InventoryItem { uid, kind, custom_name: None, weapon_bonus: 0, qty: 1 }
}

fn empty_bag() -> Inventory {
    Inventory { items: Vec::new(), equipped_sword: None, equipped_shield: None, equipped_accessory: None }
}

#[test]
fn perlin_table_is_seeded_shuffle() {
    let p = Perlin2D::new(0);
    let first: Vec<u8> = (0..8).map(|i| p.perm_at(i)).collect();
    assert_eq!(first, vec![126, 167, 21, 4, 20, 123, 6, 189]);
    let q = Perlin2D::new(12345);
    let first: Vec<u8> = (0..8).map(|i| q.perm_at(i)).collect();
    assert_eq!(first, vec![186, 193, 165, 251, 130, 145, 34, 100]);
}

#[test]
fn perlin_table_is_permutation_twice() {
    let p = Perlin2D::new(987654321);
    let mut seen = [false; 256];
    for i in 0..256 {
        let v = p.perm_at(i) as usize;
        assert!(!seen[v]);
        seen[v] = true;
        assert_eq!(p.perm_at(i), p.perm_at(i + 256));
    }
}

#[test]
fn hash_matches_reference_values() {
    assert_eq!(deterministic_hash64(0, 0, 0, 0), 16294208416658607535);
    assert_eq!(deterministic_hash64(42, 7, -3, 5), 7090178101732555395);
}

#[test]
fn chunk_coordinates_split_world_positions() {
    assert_eq!(chunk_coord(0), 0);
    assert_eq!(chunk_coord(15), 0);
    assert_eq!(chunk_coord(16), 1);
    assert_eq!(chunk_coord(-1), -1);
    assert_eq!(chunk_coord(-17), -2);
    assert_eq!(local_coord(-1), 15);
    assert_eq!(local_coord(17), 1);
    for v in [-40, -17, -1, 0, 5, 31] {
        assert_eq!(chunk_coord(v) * 16 + local_coord(v) as i32, v);
    }
}

#[test]
fn chunk_set_then_get() {
    let mut c = Chunk::new(Tile::Wall, BiomeId::new(3));
    c.set(4, 5, Tile::Grass);
    assert_eq!(c.get(4, 5), Tile::Grass);
    assert_eq!(c.get(5, 4), Tile::Wall);
    assert_eq!(BiomeId::new(200).0, 15);
    assert_eq!(remap_biome(2, &[7, 8, 9]).0, 9);
}

#[test]
fn rogue_chunks_are_deterministic() {
    let walkable = [Tile::Grass, Tile::Sand, Tile::Forest, Tile::ShallowWater, Tile::StairsDown];
    let a = generate_chunk_rogue(7, TerrainTheme::BurialVein, StairsMode::Normal, &walkable, 2, -1, BiomeId::new(4));
    let b = generate_chunk_rogue(7, TerrainTheme::BurialVein, StairsMode::Normal, &walkable, 2, -1, BiomeId::new(4));
    assert_eq!(a.tiles, b.tiles);
    assert_eq!(a.biome, BiomeId::new(4));
    assert!(a.tiles.iter().any(|t| *t != Tile::Wall));
}

#[test]
fn item_keys_round_trip() {
    for key in ["potion", "herb", "jerky", "string", "iron_sword", "quartz_memory_witness"] {
        let item = Item::from_key(key);
        assert!(item.is_some(), "{key}");
        assert_eq!(item.unwrap().key(), key);
    }
    assert_eq!(Item::from_key("food"), Some(Item::Food));
    assert_eq!(Item::from_key("sword"), None);
    assert_eq!(Tile::from_key("stairs_down"), Some(Tile::StairsDown));
    assert_eq!(StructureKind::from_key("vending_machine"), Some(StructureKind::VendingMachine));
    assert_eq!(StructureKind::Terminal.glyph(), 'T');
    assert_eq!(StructureKind::Altar.popup_key(), "structure.message.altar");
    assert_eq!(StructureKind::TempleCore.ancient_activation_cost(), 4);
}

#[test]
fn facing_turns_and_glyphs() {
    assert_eq!(Facing::NE.delta(), (1, -1));
    assert_eq!(Facing::from_delta(-1, 1), Some(Facing::SW));
    assert_eq!(Facing::from_delta(0, 0), None);
    assert_eq!(rotate_facing_clockwise(Facing::NW), Facing::N);
    let mut f = Facing::E;
    for _ in 0..8 {
        f = rotate_facing_clockwise(f);
    }
    assert_eq!(f, Facing::E);
    assert_eq!(facing_steps_45(Facing::E), 0);
    assert_eq!(parse_facing_key("sw"), Some(Facing::SW));
    assert_eq!(oriented_tip_glyph('>', Facing::W), '<');
    assert_eq!(oriented_tip_glyph('>', Facing::NE), '/');
    assert_eq!(oriented_tip_glyph('*', Facing::W), '*');
}

#[test]
fn faction_and_glyph_parsing() {
    assert_eq!(Faction::from_key("hostile"), Some(Faction::Hostile));
    assert_eq!(Faction::from_key("Hostile"), None);
    assert_eq!(parse_single_char_or("a", '?'), 'a');
    assert_eq!(parse_single_char_or("ab", '?'), '?');
    assert_eq!(default_drop_chance(), 100);
}

#[test]
fn forge_pattern_layout_of_builtin() {
    let p = default_forge_scroll_pattern();
    assert_eq!(p.len(), 8);
    let lines = forge_scroll_pattern_lines(&p);
    assert_eq!(lines, strings(&["w s w", "s @ s", "w s w"]));
}

#[test]
fn forge_pattern_parses_and_round_trips() {
    let rows = strings(&["W . S", " s @ - ", "_ w ."]);
    assert_eq!(forge_pattern_error(&rows), None);
    let p = parse_forge_scroll_pattern(Some(&rows));
    assert_eq!(p, vec![(-1, -1, Item::Wood), (1, -1, Item::Stone), (-1, 0, Item::Stone), (0, 1, Item::Wood)]);
    assert_eq!(forge_scroll_pattern_lines(&p), strings(&["w . s", "s @ .", ". w ."]));
    assert_eq!(parse_forge_scroll_pattern(None), default_forge_scroll_pattern());
}

#[test]
fn forge_pattern_errors() {
    assert_eq!(forge_pattern_error(&strings(&["w s w", "s @ s"])), Some(ForgePatternError::RowCount));
    assert_eq!(forge_pattern_error(&strings(&["w s", "s @ s", "w s w"])), Some(ForgePatternError::RowWidth(0)));
    assert_eq!(forge_pattern_error(&strings(&["w x w", "s @ s", "w s w"])), Some(ForgePatternError::UnknownSymbol('x')));
    assert_eq!(forge_pattern_error(&strings(&["@ s w", "s . s", "w s w"])), Some(ForgePatternError::CenterMisplaced));
    assert_eq!(forge_pattern_error(&strings(&["w s w", "s . s", "w s w"])), Some(ForgePatternError::CenterMissing));
}

#[test]
fn experience_and_level_ups() {
    assert_eq!(exp_needed_for_level(1), 20);
    assert_eq!(exp_needed_for_level(3), 44);
    let mut p = Progress { level: 1, exp: 0, next_exp: 20, player_max_hp: 20, player_mp: 10, player_max_mp: 10, stat_total_exp: 0 };
    assert_eq!(p.gain_exp(0), 0);
    assert_eq!(p.exp, 0);
    let ups = p.gain_exp(50);
    assert_eq!(ups, 1);
    assert_eq!(p.level, 2);
    assert_eq!(p.exp, 30);
    assert_eq!(p.next_exp, 32);
    assert_eq!(p.player_max_hp, 23);
    assert_eq!(p.player_max_mp, 12);
    assert_eq!(p.player_mp, 12);
    assert_eq!(p.stat_total_exp, 50);
    let ups = p.gain_exp(200);
    assert_eq!(ups, 4);
    assert_eq!(p.level, 6);
    assert_eq!(p.player_max_mp, 20);
}

#[test]
fn damage_and_evasion_formulas() {
    assert_eq!(calc_damage(5, 2), 3);
    assert_eq!(calc_damage(1, 5), 1);
    assert_eq!(evade_chance_percent(5, 5), 11);
    assert_eq!(evade_chance_percent(0, 20), 60);
    assert_eq!(evade_chance_percent(20, 0), 1);
    assert_eq!(evade_chance_percent(-4, -5), 13);
}

#[test]
fn status_bundles_keep_longest() {
    let mut s = StatusState { burning_turns: 2, slowed_turns: 5 };
    apply_status_bundle(&mut s, 4, 1);
    assert_eq!(s, StatusState { burning_turns: 4, slowed_turns: 5 });
    let mut a = StatusState::none();
    apply_status_bundle(&mut a, 3, 0);
    apply_status_bundle(&mut a, 1, 2);
    let mut b = StatusState::none();
    apply_status_bundle(&mut b, 1, 2);
    apply_status_bundle(&mut b, 3, 0);
    assert_eq!(a, b);
}

#[test]
fn weapon_and_equipment_bonuses() {
    assert_eq!(item_attack_bonus(Item::StoneAxe), 2);
    assert_eq!(item_attack_bonus(Item::IronSword), 3);
    assert_eq!(item_attack_bonus(Item::GladiusNadir), 5);
    assert_eq!(item_attack_bonus(Item::Potion), 0);
    let mut bag = empty_bag();
    assert_eq!(equipped_attack_bonus(&bag), 0);
    let mut sword = item(1, Item::IronSword);
    sword.weapon_bonus = 9;
    bag.equipped_sword = Some(sword);
    bag.equipped_shield = Some(item(2, Item::WoodenShield));
    bag.equipped_accessory = Some(item(3, Item::LuckyCharm));
    assert_eq!(equipped_attack_bonus(&bag), 3 + 6 + 1);
    assert_eq!(equipped_defense_bonus(&bag), 4);
    let base = BaseStats { attack: 4, defense: 1, agility: 6 };
    assert_eq!(player_attack_power(base, 3, &bag), 4 + 10 + 2);
    assert_eq!(player_defense(base, 3, &bag), 1 + 1 + 4);
    assert_eq!(player_agility(base, 7, StatusState::none()), 8);
    assert_eq!(player_agility(base, 7, StatusState { burning_turns: 0, slowed_turns: 1 }), 5);
    assert_eq!(enemy_agility(2, StatusState { burning_turns: 0, slowed_turns: 1 }), 1);
}

#[test]
fn mp_and_ancient_charges() {
    let mut mp = 5;
    assert!(!try_spend_mp(&mut mp, 6));
    assert_eq!(mp, 5);
    assert!(try_spend_mp(&mut mp, 5));
    assert_eq!(mp, 0);
    let mut charge = 1u8;
    assert!(!spend_ancient_for_weapon(&mut charge, Item::GladiusNadir));
    assert_eq!(charge, 1);
    assert!(spend_ancient_for_weapon(&mut charge, Item::VirgaOriens));
    assert_eq!(charge, 0);
    assert!(!spend_ancient_for_weapon(&mut charge, Item::IronSword));
}

#[test]
fn thrown_items_and_lines() {
    assert_eq!(thrown_attack_profile(Item::Torch), Some((3, 2, 0)));
    assert_eq!(thrown_attack_profile(Item::BindScroll), Some((2, 0, 3)));
    assert_eq!(thrown_attack_profile(Item::VirgaZenith), Some((6, 0, 0)));
    assert_eq!(thrown_attack_profile(Item::Potion), None);
    assert!(is_line_aligned(3, -3));
    assert!(is_line_aligned(0, 7));
    assert!(!is_line_aligned(2, 1));
}

#[test]
fn generation_ranges_follow_the_squared_distance() {
    assert!(peak_in_range(46340, 0));
    assert!(!peak_in_range(46341, 0));
    assert!(peak_in_range(32767, 32767));
    assert!(!peak_in_range(32768, 32768));
    assert!(peak_in_range(i32::MIN + 1, 0) == false);
    assert!(chunk_in_range(2000, 2000));
    assert!(chunk_in_range(2895, 0));
    assert!(chunk_in_range(-2896, 0));
    assert!(!chunk_in_range(2896, 0));
    assert!(!chunk_in_range(2048, 2048));
    assert!(!chunk_in_range(i32::MAX, 0));
}
