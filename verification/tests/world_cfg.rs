use abyss::defs::Faction;
use abyss::world_cfg::{
    profile_for_floor, validate_and_build, BiomeSetRaw, BiomesFile,
    CreatureFaction, DungeonConfig, DungeonFloorRaw, DungeonRaw, DungeonsFile, FloorProfileRaw,
    FloorsFile, WeightedEntryRaw,
};

fn biome_set(id: &str, biomes: &[u8]) -> BiomeSetRaw {
    BiomeSetRaw { id: id.to_string(), biomes: biomes.to_vec() }
}

fn entries(list: &[(&str, u32)]) -> Vec<WeightedEntryRaw> {
    list.iter().map(|(id, w)| WeightedEntryRaw { id: id.to_string(), weight: *w }).collect()
}

fn profile(id: &str, set: &str, enemies: &[(&str, u32)], drops: &[(&str, u32)]) -> FloorProfileRaw {
    FloorProfileRaw {
        id: id.to_string(),
        biome_set: set.to_string(),
        map_pattern: "perlin".to_string(),
        terrain_theme: "surface_ruin".to_string(),
        stairs_mode: "normal".to_string(),
        special_facility_mode: "none".to_string(),
        enemy_pool: entries(enemies),
        drop_pool: entries(drops),
        structure_pool: Vec::new(),
    }
}

fn range(min: u32, max: u32, profile: &str) -> DungeonFloorRaw {
    DungeonFloorRaw { min, max, floor_profile: profile.to_string() }
}

fn dungeon(id: &str, floors: Vec<DungeonFloorRaw>) -> DungeonRaw {
    DungeonRaw { id: id.to_string(), floors }
}

fn hostile(ids: &[&str]) -> Vec<CreatureFaction> {
    ids.iter().map(|id| CreatureFaction { id: id.to_string(), faction: Faction::Hostile }).collect()
}

fn load(
    biomes: BiomesFile,
    floors: FloorsFile,
    dungeons: DungeonsFile,
    creatures: &[CreatureFaction],
) -> Result<DungeonConfig, Vec<String>> {
    validate_and_build(biomes, floors, dungeons, creatures)
}

#[test]
fn validates_invalid_references_and_ranges() {
    let biomes = BiomesFile { biome_sets: vec![biome_set("all", &[0, 1, 2])] };
    let floors = FloorsFile {
        floor_profiles: vec![profile(
            "f1",
            "missing_set",
            &[("unknown_enemy", 1)],
            &[("unknown_item", 1)],
        )],
    };
    let dungeons = DungeonsFile {
        active: Some("missing_dungeon".to_string()),
        dungeons: vec![dungeon("d1", vec![range(10, 1, "missing_profile")])],
    };
    let errs = match load(biomes, floors, dungeons, &hostile(&["melted_husk"])) {
        Ok(_) => panic!("expected validation error"),
        Err(errs) => errs,
    };
    assert!(errs.iter().any(|e| e.contains("unknown biome_set 'missing_set'")));
    assert!(errs.iter().any(|e| e.contains("unknown floor_profile 'missing_profile'")));
    assert!(errs.iter().any(|e| e.contains("min 10 > max 1")));
    assert!(errs
        .iter()
        .any(|e| e.contains("active dungeon 'missing_dungeon' is not defined")));
    assert!(errs
        .iter()
        .any(|e| e.contains("enemy_pool references unknown creature 'unknown_enemy'")));
    assert!(errs
        .iter()
        .any(|e| e.contains("drop_pool references unknown item 'unknown_item'")));
}

#[test]
fn validates_duplicate_and_empty_ids() {
    let biomes = BiomesFile {
        biome_sets: vec![biome_set("", &[0]), biome_set("all", &[0]), biome_set("all", &[1])],
    };
    let floors = FloorsFile {
        floor_profiles: vec![profile("default", "all", &[], &[]), profile("default", "all", &[], &[])],
    };
    let dungeons = DungeonsFile {
        active: None,
        dungeons: vec![dungeon("default", Vec::new()), dungeon("default", Vec::new())],
    };
    let errs = match load(biomes, floors, dungeons, &[]) {
        Ok(_) => panic!("expected validation error"),
        Err(errs) => errs,
    };
    assert!(errs.iter().any(|e| e.contains("empty id")));
    assert!(errs.iter().any(|e| e.contains("duplicate biome_set id")));
    assert!(errs.iter().any(|e| e.contains("duplicate floor_profile id")));
    assert!(errs.iter().any(|e| e.contains("duplicate dungeon id")));
}

#[test]
fn accepts_valid_config() {
    let biomes = BiomesFile { biome_sets: vec![biome_set("all", &[0, 1, 2, 3])] };
    let floors = FloorsFile {
        floor_profiles: vec![profile(
            "default",
            "all",
            &[("melted_husk", 100), ("feral_vessel", 50)],
            &[("potion", 4), ("herb", 6)],
        )],
    };
    let dungeons = DungeonsFile {
        active: Some("default".to_string()),
        dungeons: vec![dungeon("default", vec![range(1, 999, "default")])],
    };
    let cfg = load(biomes, floors, dungeons, &hostile(&["melted_husk", "feral_vessel"])).unwrap();
    assert_eq!(cfg.active_dungeon, "default");
    let profile = cfg.floor_profile("default").expect("missing profile");
    assert_eq!(profile.enemy_pool.len(), 2);
    assert_eq!(profile.drop_pool.len(), 2);
}

#[test]
fn switches_pool_by_floor_range() {
    let biomes = BiomesFile { biome_sets: vec![biome_set("all", &[0, 1, 2, 3])] };
    let floors = FloorsFile {
        floor_profiles: vec![
            profile("shallow", "all", &[("melted_husk", 100)], &[("potion", 10)]),
            profile("deep", "all", &[("cathedral_frame", 80)], &[("elixir", 10)]),
        ],
    };
    let dungeons = DungeonsFile {
        active: Some("default".to_string()),
        dungeons: vec![dungeon(
            "default",
            vec![range(1, 3, "shallow"), range(4, 999, "deep")],
        )],
    };
    let cfg = load(biomes, floors, dungeons, &hostile(&["melted_husk", "cathedral_frame"])).unwrap();

    let p1 = profile_for_floor(&cfg, 2).expect("missing floor 2 profile");
    let p2 = profile_for_floor(&cfg, 7).expect("missing floor 7 profile");
    assert!(p1.enemy_pool.iter().any(|(id, _)| id == "melted_husk"));
    assert!(p2.enemy_pool.iter().any(|(id, _)| id == "cathedral_frame"));
}
