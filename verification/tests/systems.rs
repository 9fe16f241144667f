use abyss::debug::{
    debug_words, floor_jump, give_items, parse_debug_command, DebugCommand, FloorJump, InvMode,
    PlaceTarget, SiteTarget,
};
use abyss::enemies::{
    attack_delay_frames, broken_object_drops, enemy_melee_damage, enemy_move_directions_toward,
    enemy_turn_order, flee_directions, harvest_hit, patrol_step, resolve_player_melee,
    traveler_rests, HarvestState, MeleeOutcome,
};
use abyss::inventory::{Inventory, InventoryItem};
use abyss::items::{Facing, Item, StructureKind, Tile};
use abyss::save::{check_save_envelope, compute_mac_from_raw, to_hex, SaveError, SAVE_VERSION};
use abyss::spawning::{
    biome_enemy_multiplier, biome_fallback_name, biome_item_pool, biome_name,
    choose_spawn_enemy_kind, choose_weighted_item, choose_weighted_structure, copper_weight_text,
    defeat_exp, enemy_allowed_on_floor, enemy_copper_drop_disks, enemy_melee_profile,
    pick_dropped_item, pick_weighted, rand_range_i32, rand_u32, random_facing,
    research_spawn_multiplier, research_structure_score, ritual_structure_score,
    roll_enemy_loadout, roll_percent, spawnable_weights, total_weight, traveler_drops_bread,
    CarriedItem, LootDef, StoneTabletKind,
};
use abyss::text::{
    available_languages, lang_index, log_arg_creature_ref, log_arg_inventory_item_ref,
    log_arg_item_ref, log_arg_text_ref, parse_lang, parse_log_arg, replace_all, Lang, LogArgRef,
    TextBundle, Texts,
};
use abyss::worldgen::BiomeId;

fn pairs(list: &[(&str, &str)]) -> Vec<(String, String)> {
    list.iter().map(|(a, b)| (a.to_string(), b.to_string())).collect()
}

fn texts() -> Texts {
    Texts {
        lang: Lang::En,
        en: TextBundle { entries: pairs(&[("greet", "Hello {name}"), ("twice", "{a}{a}-{b}"), ("biome.name.2", "Meadows")]) },
        ja: TextBundle { entries: pairs(&[("greet", "こんにちは {name}")]) },
        la: TextBundle { entries: Vec::new() },
    }
}

fn chars(s: &str) -> Vec<char> {
    s.chars().collect()
}

#[test]
fn generator_matches_reference() {
    let mut s = 0u64;
    assert_eq!(rand_u32(&mut s), 0);
    assert_eq!(s, 1);
    assert_eq!(rand_u32(&mut s), 1481765933);
    assert_eq!(s, 6364136223846793006);
    let mut s = 1u64;
    assert_eq!(rand_range_i32(&mut s, 1, 6), 6);
    let mut s = 5u64;
    assert!(!roll_percent(&mut s, 0));
    assert_eq!(s, 5);
    let mut s = 0u64;
    assert_eq!(random_facing(&mut s), Facing::N);
}

#[test]
fn biome_and_research_weightings() {
    assert_eq!(biome_enemy_multiplier(BiomeId(1), "melted_husk"), 220);
    assert_eq!(biome_enemy_multiplier(BiomeId(9), "melted_husk"), 140);
    assert_eq!(biome_enemy_multiplier(BiomeId(0), "melted_husk"), 70);
    assert_eq!(biome_enemy_multiplier(BiomeId(5), "grave_frame"), 75);
    assert_eq!(biome_enemy_multiplier(BiomeId(0), "grave_frame"), 190);
    assert_eq!(biome_enemy_multiplier(BiomeId(6), "seal_hound"), 220);
    assert_eq!(biome_enemy_multiplier(BiomeId(14), "night_choir"), 220);
    assert_eq!(biome_enemy_multiplier(BiomeId(0), "slime"), 100);
    assert_eq!(research_spawn_multiplier(0, "archive_scribe"), 100);
    assert_eq!(research_spawn_multiplier(3, "archive_scribe"), 220);
    assert_eq!(research_spawn_multiplier(8, "archive_scribe"), 420);
    assert_eq!(research_spawn_multiplier(3, "melted_husk"), 73);
    assert_eq!(research_spawn_multiplier(8, "ash_eater"), 35);
    assert_eq!(research_spawn_multiplier(5, "slime"), 100);
}

#[test]
fn creatures_appear_from_their_floor() {
    assert!(!enemy_allowed_on_floor("carrier_frame", 6));
    assert!(enemy_allowed_on_floor("carrier_frame", 7));
    assert!(!enemy_allowed_on_floor("prayer_remnant", 0));
    assert!(enemy_allowed_on_floor("slime", 0));
    assert!(!enemy_allowed_on_floor("flayed_specimen", 8));
}

#[test]
fn spawn_choice_uses_adjusted_weights() {
    let none: Vec<(String, u32)> = Vec::new();
    assert!(spawnable_weights(&none, 1, BiomeId(0), 0).is_empty());
    let cands: Vec<(String, u32)> = vec![("melted_husk".to_string(), 100), ("carrier_frame".to_string(), 50), ("slime".to_string(), 10)];
    let sp = spawnable_weights(&cands, 3, BiomeId(1), 0);
    assert_eq!(sp, vec![("melted_husk".to_string(), 220), ("slime".to_string(), 10)]);
    let mut s = 1u64;
    assert_eq!(choose_spawn_enemy_kind(&sp, &mut s), Some("melted_husk".to_string()));
    assert_eq!(s, 6364136223846793006);
    let mut s = 3u64;
    assert_eq!(choose_spawn_enemy_kind(&Vec::new(), &mut s), None);
    assert_eq!(s, 3);
}

#[test]
fn weighted_picks() {
    assert_eq!(pick_weighted(&vec![3, 0, 5], 4), Some(2));
    assert_eq!(pick_weighted(&vec![3, 0, 5], 100), Some(2));
    assert_eq!(pick_weighted(&vec![3, 0, 5], 2), Some(0));
    assert_eq!(pick_weighted(&vec![], 0), None);
    assert_eq!(pick_weighted(&vec![0, 0], 0), None);
    assert_eq!(total_weight(&vec![u32::MAX, 1]), None);
    assert_eq!(total_weight(&vec![4, 5]), Some(9));
    let pool = vec![(Item::Potion, 1), (Item::Herb, 3)];
    assert_eq!(choose_weighted_item(&pool, 0), Some(Item::Potion));
    assert_eq!(choose_weighted_item(&pool, 1), Some(Item::Herb));
    let structures = vec![("altar".to_string(), 2), ("bogus".to_string(), 3)];
    assert_eq!(choose_weighted_structure(&structures, 1), Some(StructureKind::Altar));
    assert_eq!(choose_weighted_structure(&structures, 4), None);
}

#[test]
fn biome_item_pools_and_names() {
    let soft = biome_item_pool(BiomeId(0));
    assert_eq!(soft.len(), 11);
    assert_eq!(soft[0], (Item::StringFiber, 40));
    let rocky = biome_item_pool(BiomeId(14));
    assert_eq!(rocky.len(), 12);
    assert_eq!(rocky[0], (Item::Stone, 36));
    assert_eq!(biome_item_pool(BiomeId(3)).len(), 13);
    assert_eq!(biome_item_pool(BiomeId(6))[0], (Item::Wood, 38));
    assert_eq!(biome_fallback_name(BiomeId(13)), "Crag Depths");
    let t = texts();
    assert_eq!(biome_name(&t, BiomeId(2)), "Meadows");
    assert_eq!(biome_name(&t, BiomeId(12)), "Obsidian Waste");
}

#[test]
fn loot_rolls_and_drops() {
    let loot = vec![
        LootDef { item: Item::Hide, carry_chance: 100, drop_chance: 75, equip_as_weapon: false },
        LootDef { item: Item::IronSword, carry_chance: 0, drop_chance: 70, equip_as_weapon: true },
    ];
    let mut s = 0u64;
    let (carried, weapon) = roll_enemy_loadout(&loot, &mut s);
    assert_eq!(carried, vec![CarriedItem { item: Item::Hide, drop_chance: 75 }]);
    assert_eq!(weapon, None);
    assert_eq!(s, 1);
    let mut s = 0u64;
    let (_, weapon) = roll_enemy_loadout(&vec![LootDef { item: Item::StoneAxe, carry_chance: 100, drop_chance: 50, equip_as_weapon: false }], &mut s);
    assert_eq!(weapon, Some(Item::StoneAxe));
    assert_eq!(defeat_exp(6, 3, 0), 9);
    assert_eq!(defeat_exp(-5, 0, -1), 1);
    let mut s = 7u64;
    assert_eq!(pick_dropped_item(&Vec::new(), &mut s), None);
    assert_eq!(s, 7);
    let mut s = 0u64;
    let one = vec![CarriedItem { item: Item::Herb, drop_chance: 100 }];
    assert_eq!(pick_dropped_item(&one, &mut s), Some(Item::Herb));
    let mut s = 9u64;
    assert_eq!(enemy_copper_drop_disks("slime", &mut s), None);
    assert_eq!(s, 9);
    let mut s = 0u64;
    assert_eq!(enemy_copper_drop_disks("scavenger_knight", &mut s), Some(4));
    let mut s = 2u64;
    assert_eq!(enemy_copper_drop_disks("scavenger_knight", &mut s), None);
    let mut s = 0u64;
    assert!(traveler_drops_bread(&mut s));
    assert_eq!(copper_weight_text(3), "16.8");
    assert_eq!(copper_weight_text(0), "0.0");
    assert_eq!(copper_weight_text(u32::MAX), "429496729.5");
}

#[test]
fn site_scores_and_melee_profiles() {
    assert_eq!(research_structure_score(&vec![StructureKind::Terminal, StructureKind::Terminal, StructureKind::Altar]), 8);
    assert_eq!(research_structure_score(&vec![StructureKind::Altar]), 1);
    assert_eq!(ritual_structure_score(&vec![StoneTabletKind::Mercy, StoneTabletKind::OracleSumer], &vec![StructureKind::TempleCore]), 7);
    assert_eq!(enemy_melee_profile("stone_warden", 4, 0, 0, 0), (2, 0, 1));
    assert_eq!(enemy_melee_profile("coffin_bearer", 0, 0, 0, 5), (1, 0, 2));
    assert_eq!(enemy_melee_profile("slime", 9, 9, 9, 9), (0, 0, 0));
    assert_eq!(StoneTabletKind::Oracle.popup_key(), "tablet.message.oracle");
}

#[test]
fn save_mac_is_sha256_hex() {
    assert_eq!(to_hex(&[0x00, 0xab, 0x7f]), "00ab7f");
    let mac = compute_mac_from_raw(1, "{}");
    assert_eq!(mac, "ce14aa2c4297f2c4dddfc340b2e83e40ec483a861568e5c7373a7fecb1ae76ad");
    assert_eq!(
        compute_mac_from_raw(SAVE_VERSION, "{\"floor\":3}"),
        "47f3a5e116d21e53ae2bd4b200afa457eaa94fb9fcb1c8859f67d31acf2709fd"
    );
}

#[test]
fn save_envelope_checks() {
    let raw = "{\"floor\":3}";
    let mac = compute_mac_from_raw(SAVE_VERSION, raw);
    assert_eq!(check_save_envelope(SAVE_VERSION, raw, &mac), Ok(()));
    assert_eq!(check_save_envelope(2, raw, &mac), Err(SaveError::UnsupportedVersion));
    assert_eq!(check_save_envelope(SAVE_VERSION, "{\"floor\":4}", &mac), Err(SaveError::Tampered));
    assert_eq!(SaveError::UnsupportedVersion.message(), "unsupported save version");
    assert_eq!(SaveError::Tampered.message(), "save file verification failed (tampered or corrupted)");
}

#[test]
fn languages_and_lookup() {
    let mut t = texts();
    assert_eq!(t.tr("greet"), "Hello {name}");
    assert_eq!(t.tr("missing.key"), "missing.key");
    assert_eq!(t.current_lang(), "en");
    assert!(t.set_lang("JA"));
    assert_eq!(t.current_lang(), "ja");
    assert_eq!(t.tr("greet"), "こんにちは {name}");
    assert!(!t.set_lang("xx"));
    assert_eq!(t.current_lang(), "ja");
    assert_eq!(t.tr_or_fallback("nothing", "fallback"), "fallback");
    assert_eq!(parse_lang("La"), Some(Lang::La));
    assert_eq!(lang_index("EN"), None);
    assert_eq!(lang_index("en"), Some(Lang::En));
    assert_eq!(Lang::from_index(2), Lang::La);
    assert_eq!(Lang::from_index(9), Lang::En);
    assert_eq!(Lang::Ja.index(), 1);
    let langs = available_languages();
    assert_eq!(langs, vec![("en", "English"), ("ja", "Japanese"), ("la", "Latin")]);
}

#[test]
fn placeholders_are_filled() {
    let t = texts();
    assert_eq!(t.trf("greet", &vec![("name", "Ann".to_string())]), "Hello Ann");
    assert_eq!(t.trf_map("twice", &pairs(&[("a", "x"), ("b", "{a}")])), "xx-{a}");
    assert_eq!(t.trf("plain-missing", &vec![("name", "Ann".to_string())]), "plain-missing");
    assert_eq!(replace_all(&chars("aaa"), &chars("aa"), &chars("X")), chars("Xa"));
}

#[test]
fn log_argument_references() {
    let item_ref = log_arg_item_ref(Item::Potion);
    assert_eq!(item_ref, "\u{1f}item:potion");
    assert!(matches!(parse_log_arg(&item_ref), LogArgRef::Item(Item::Potion)));
    assert!(matches!(parse_log_arg(&log_arg_creature_ref("wolf")), LogArgRef::Creature(ref id) if id == "wolf"));
    assert!(matches!(parse_log_arg(&log_arg_text_ref("k.x")), LogArgRef::Text(ref k) if k == "k.x"));
    assert!(matches!(parse_log_arg("plain"), LogArgRef::Plain(ref p) if p == "plain"));
    assert!(matches!(parse_log_arg("\u{1f}item:nope"), LogArgRef::Plain(ref p) if p == "\u{1f}item:nope"));
    let named = InventoryItem { uid: 1, kind: Item::IronSword, custom_name: Some("Blade".to_string()), weapon_bonus: 0, qty: 1 };
    assert_eq!(log_arg_inventory_item_ref(&named), "Blade");
    let blank = InventoryItem { custom_name: Some(String::new()), ..named };
    assert_eq!(log_arg_inventory_item_ref(&blank), "\u{1f}item:iron_sword");
}

#[test]
fn debug_give_commands() {
    assert_eq!(parse_debug_command("  give potion 3 "), DebugCommand::Give { item: Item::Potion, count: 3 });
    assert_eq!(parse_debug_command("GIVE potion"), DebugCommand::Give { item: Item::Potion, count: 1 });
    assert_eq!(parse_debug_command("give potion 0"), DebugCommand::Give { item: Item::Potion, count: 1 });
    assert_eq!(parse_debug_command("give potion abc"), DebugCommand::Give { item: Item::Potion, count: 1 });
    assert_eq!(parse_debug_command("give potion +7"), DebugCommand::Give { item: Item::Potion, count: 7 });
    assert_eq!(parse_debug_command("give potion 70000"), DebugCommand::Give { item: Item::Potion, count: 1 });
    assert_eq!(parse_debug_command("give"), DebugCommand::GiveUsage);
    assert_eq!(parse_debug_command("give nope"), DebugCommand::GiveUnknownItem);
    assert_eq!(parse_debug_command("付与 herb 2"), DebugCommand::Give { item: Item::Herb, count: 2 });
}

#[test]
fn debug_tp_commands() {
    assert_eq!(parse_debug_command("tp 3 -4"), DebugCommand::TpTo { x: 3, y: -4 });
    assert_eq!(parse_debug_command("tp EXIT"), DebugCommand::TpStairs);
    assert_eq!(parse_debug_command("tp 出口"), DebugCommand::TpStairs);
    assert_eq!(parse_debug_command("tp Altar"), DebugCommand::TpSite(SiteTarget::Altar));
    assert_eq!(parse_debug_command("tp ruin"), DebugCommand::TpSite(SiteTarget::Any));
    assert_eq!(parse_debug_command("tp 祭壇"), DebugCommand::TpSite(SiteTarget::Any));
    assert_eq!(parse_debug_command("tp 5"), DebugCommand::TpUsage);
    assert_eq!(parse_debug_command("tp x 1"), DebugCommand::TpUsage);
    assert_eq!(parse_debug_command("tp -2147483648 2147483647"), DebugCommand::TpTo { x: i32::MIN, y: i32::MAX });
    assert_eq!(parse_debug_command("tp 2147483648 0"), DebugCommand::TpUsage);
    assert_eq!(parse_debug_command("tp - 0"), DebugCommand::TpUsage);
}

#[test]
fn debug_other_commands() {
    assert_eq!(parse_debug_command("find_exit"), DebugCommand::FindExit);
    assert_eq!(parse_debug_command("inv"), DebugCommand::Invincible(InvMode::Toggle));
    assert_eq!(parse_debug_command("god ON"), DebugCommand::Invincible(InvMode::On));
    assert_eq!(parse_debug_command("inv maybe"), DebugCommand::InvUsage);
    assert_eq!(parse_debug_command("floor 3"), DebugCommand::Floor(3));
    assert_eq!(parse_debug_command("floor 0"), DebugCommand::FloorUsage);
    assert_eq!(parse_debug_command("floor"), DebugCommand::FloorUsage);
    assert_eq!(parse_debug_command("fl -1"), DebugCommand::FloorUsage);
    assert_eq!(parse_debug_command("place tree"), DebugCommand::Place(PlaceTarget::Tile(Tile::Forest)));
    assert_eq!(parse_debug_command("place tablet might"), DebugCommand::Place(PlaceTarget::Tablet(StoneTabletKind::Might)));
    assert_eq!(parse_debug_command("place tablet"), DebugCommand::Place(PlaceTarget::Tablet(StoneTabletKind::Oracle)));
    assert_eq!(parse_debug_command("place tablet x"), DebugCommand::PlaceUsage);
    assert_eq!(parse_debug_command("place 自販機"), DebugCommand::Place(PlaceTarget::Structure(StructureKind::VendingMachine)));
    assert_eq!(parse_debug_command("obj temple"), DebugCommand::Place(PlaceTarget::Temple));
    assert_eq!(parse_debug_command("place"), DebugCommand::PlaceUsage);
    assert_eq!(parse_debug_command("dance"), DebugCommand::Unknown);
    assert_eq!(parse_debug_command("   "), DebugCommand::Nothing);
    assert_eq!(debug_words("a  b\tc"), vec!["a".to_string(), "b".to_string(), "c".to_string()]);
}

#[test]
fn debug_give_and_floor_effects() {
    let mut bag = Inventory { items: Vec::new(), equipped_sword: None, equipped_shield: None, equipped_accessory: None };
    let mut next = 1u64;
    assert_eq!(give_items(&mut bag, Item::Wood, 25, &mut next), 25);
    assert_eq!(bag.items.iter().map(|i| i.qty).collect::<Vec<_>>(), vec![10, 10, 5]);
    let mut full = Inventory {
        items: (1..=20).map(|i| InventoryItem { uid: i, kind: Item::Potion, custom_name: None, weapon_bonus: 0, qty: 1 }).collect(),
        equipped_sword: None,
        equipped_shield: None,
        equipped_accessory: None,
    };
    assert_eq!(give_items(&mut full, Item::Potion, 3, &mut next), 0);
    assert_eq!(floor_jump(3, 3), FloorJump::Same);
    assert_eq!(floor_jump(3, 1), FloorJump::CannotAscend);
    assert_eq!(floor_jump(3, 5), FloorJump::Descend(2));
}

#[test]
fn creatures_act_by_ascending_id() {
    assert_eq!(enemy_turn_order(&vec![5, 2, 5, 1]), vec![3, 1, 0, 2]);
    assert_eq!(enemy_turn_order(&vec![]), Vec::<usize>::new());
}

#[test]
fn movement_directions() {
    assert_eq!(
        enemy_move_directions_toward(3, -2),
        vec![(1, -1), (1, 0), (0, -1), (-1, -1), (1, 1), (-1, 0), (0, 1), (-1, 1)]
    );
    assert_eq!(
        enemy_move_directions_toward(0, 5),
        vec![(0, 1), (0, -1), (-1, -1), (1, -1), (-1, 0), (1, 0), (-1, 1), (1, 1)]
    );
    assert_eq!(
        flee_directions(2, 0),
        vec![(-1, 0), (1, 0), (-1, -1), (0, -1), (1, -1), (-1, 1), (0, 1), (1, 1)]
    );
    assert_eq!(patrol_step(Facing::E, false), (false, Facing::SE));
    assert_eq!(patrol_step(Facing::E, true), (true, Facing::E));
    assert!(traveler_rests(false, 3, 4));
    assert!(!traveler_rests(false, 3, 5));
    assert!(!traveler_rests(true, 3, 4));
}

#[test]
fn blows_and_breaking() {
    assert_eq!(attack_delay_frames(0), 4);
    assert_eq!(attack_delay_frames(2), 16);
    assert_eq!(attack_delay_frames(100), 255);
    assert_eq!(enemy_melee_damage(5, 1, Some(Item::IronSword), 4), 5);
    assert_eq!(enemy_melee_damage(1, 0, None, 9), 1);
    let mut s = 0u64;
    assert_eq!(resolve_player_melee(7, 5, 2, 5, 10, &mut s), MeleeOutcome::Evaded);
    let mut s = 1u64;
    assert_eq!(resolve_player_melee(7, 5, 2, 5, 10, &mut s), MeleeOutcome::Hit { damage: 5, hp_left: 5 });
    let (h, broke, st) = harvest_hit(None, 1, 2, 3);
    assert_eq!((h, broke), (1, false));
    let (h, broke, st) = harvest_hit(st, 1, 2, 3);
    assert_eq!((h, broke), (2, false));
    let (h, broke, st) = harvest_hit(st, 1, 2, 3);
    assert_eq!((h, broke, st), (3, true, None));
    let other = Some(HarvestState { target_x: 0, target_y: 0, hits: 9 });
    assert_eq!(harvest_hit(other, 1, 2, 3).0, 1);
    let mut s = 4u64;
    assert!(!broken_object_drops(false, 100, &mut s));
    assert_eq!(s, 4);
    let mut s = 0u64;
    assert!(broken_object_drops(true, 100, &mut s));
}
