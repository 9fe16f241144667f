use abyss::catalog::{build_defs, CreatureDefRaw, GameDataRaw, GameDefs, ItemDefRaw};
use abyss::console::{apply_debug_suggestion, debug_console_suggestions};
use abyss::debug::{
    invincible_after, parse_debug_command, place_allowed, teleport_check, teleport_player, DebugCommand, PlaceTarget,
    TeleportCheck,
};
use abyss::items::{Item, StructureKind, Tile};

fn defs_with_items(ids: &[&str]) -> GameDefs {
    let items = ids
        .iter()
        .map(|id| ItemDefRaw {
            id: id.to_string(),
            name: id.to_string(),
            glyph: "*".to_string(),
            color: 7,
            status: String::new(),
            description: String::new(),
        })
        .collect();
    let player = CreatureDefRaw {
        id: "player".to_string(),
        name: "You".to_string(),
        faction: "ally".to_string(),
        glyph: "@".to_string(),
        color: 15,
        hp: 20,
        attack: 3,
        defense: 1,
        agility: 2,
        spawn_weight: None,
        loot: Vec::new(),
    };
    let raw = GameDataRaw { tiles: Vec::new(), items, recipes: Vec::new(), creatures: vec![player], forge_pattern: None };
    build_defs(&raw).unwrap()
}

fn words(list: &[&str]) -> Vec<String> {
    list.iter().map(|s| s.to_string()).collect()
}

#[test]
fn commands_complete_from_their_first_letters() {
    let defs = defs_with_items(&["wood", "stone"]);
    assert_eq!(debug_console_suggestions(&defs, ""), words(&["give", "tp", "find_exit", "inv", "floor", "place"]));
    assert_eq!(debug_console_suggestions(&defs, "  g"), words(&["give"]));
    assert_eq!(debug_console_suggestions(&defs, "F"), words(&["find_exit", "floor"]));
    assert_eq!(debug_console_suggestions(&defs, "foo bar"), Vec::<String>::new());
}

#[test]
fn arguments_complete_by_command() {
    let defs = defs_with_items(&["wood", "stone"]);
    assert_eq!(debug_console_suggestions(&defs, "tp "), words(&["exit", "ruin", "altar", "temple", "substory"]));
    assert_eq!(debug_console_suggestions(&defs, "tp a"), words(&["altar"]));
    assert!(debug_console_suggestions(&defs, "tp alt x").is_empty());
    assert_eq!(debug_console_suggestions(&defs, "inv t"), words(&["toggle"]));
    assert_eq!(debug_console_suggestions(&defs, "place t"), words(&["tree", "tablet", "temple", "terminal"]));
    assert_eq!(debug_console_suggestions(&defs, "place tablet m"), words(&["mercy", "might"]));
    assert_eq!(debug_console_suggestions(&defs, "place Tablet "), words(&["mercy", "might", "oracle"]));
    assert_eq!(debug_console_suggestions(&defs, "give "), words(&["stone", "wood"]));
    assert_eq!(debug_console_suggestions(&defs, "give S"), words(&["stone"]));
    assert!(debug_console_suggestions(&defs, "give s 3").is_empty());
}

#[test]
fn item_ids_are_sorted_once_and_capped() {
    let kinds = [
        Item::Wood, Item::Stone, Item::Torch, Item::Potion, Item::Herb, Item::Bread, Item::Elixir,
        Item::Hide, Item::IronIngot, Item::IronSword, Item::IronPickaxe, Item::StoneAxe,
        Item::StringFiber, Item::FlameScroll, Item::EmberScroll, Item::BlinkScroll, Item::BindScroll,
        Item::NovaScroll, Item::PulseBomb, Item::LuckyCharm, Item::Wood,
    ];
    let ids: Vec<&str> = kinds.iter().map(|k| k.key()).collect();
    let defs = defs_with_items(&ids);
    let got = debug_console_suggestions(&defs, "give ");
    let mut expected: Vec<String> = ids.iter().map(|s| s.to_string()).collect();
    expected.sort();
    expected.dedup();
    expected.truncate(16);
    assert_eq!(got.len(), 16);
    assert_eq!(got, expected);
}

#[test]
fn chosen_completions_rewrite_the_line() {
    assert_eq!(apply_debug_suggestion("", "give"), "give ");
    assert_eq!(apply_debug_suggestion("  gi", "give"), "  give ");
    assert_eq!(apply_debug_suggestion("give ", "stone"), "give stone ");
    assert_eq!(apply_debug_suggestion("give st", "stone"), "give stone ");
    assert_eq!(apply_debug_suggestion("place  tablet  me", "mercy"), "place tablet mercy ");
    assert_eq!(apply_debug_suggestion("  tp a", "altar"), "  tp altar ");
}

#[test]
fn debug_teleports_and_placements_are_checked() {
    assert_eq!(teleport_check(true, false, false), TeleportCheck::Allowed);
    assert_eq!(teleport_check(false, false, true), TeleportCheck::Blocked);
    assert_eq!(teleport_check(true, true, false), TeleportCheck::Blocked);
    assert_eq!(teleport_check(true, false, true), TeleportCheck::Occupied);
    assert!(place_allowed(PlaceTarget::Tile(Tile::Rock), false, false, true));
    assert!(!place_allowed(PlaceTarget::Tile(Tile::Rock), true, true, false));
    assert!(!place_allowed(PlaceTarget::Structure(StructureKind::Altar), false, true, true));
    assert!(place_allowed(PlaceTarget::Structure(StructureKind::Altar), false, true, false));
    assert!(place_allowed(PlaceTarget::Temple, true, false, true));
}

#[test]
fn a_teleport_moves_the_player_only_when_allowed() {
    let (mut x, mut y) = (1, 2);
    assert_eq!(teleport_player(&mut x, &mut y, 5, -7, true, false, false), TeleportCheck::Allowed);
    assert_eq!((x, y), (5, -7));
    assert_eq!(teleport_player(&mut x, &mut y, 9, 9, false, false, false), TeleportCheck::Blocked);
    assert_eq!((x, y), (5, -7));
    assert_eq!(teleport_player(&mut x, &mut y, 9, 9, true, false, true), TeleportCheck::Occupied);
    assert_eq!((x, y), (5, -7));
}

#[test]
fn inv_commands_set_and_toggle_invincibility() {
    for b in [false, true] {
        assert!(invincible_after(b, &parse_debug_command("inv on")));
        assert!(!invincible_after(b, &parse_debug_command("god off")));
        assert_eq!(invincible_after(b, &parse_debug_command("inv")), !b);
        assert_eq!(invincible_after(b, &parse_debug_command("invincible toggle")), !b);
        assert_eq!(parse_debug_command("inv maybe"), DebugCommand::InvUsage);
        assert_eq!(invincible_after(b, &parse_debug_command("inv maybe")), b);
    }
}
