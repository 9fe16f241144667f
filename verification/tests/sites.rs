use abyss::items::{Item, StructureKind, Tile};
use abyss::sight::{ring_offsets, sight_clear, sight_line, within_radius};
use abyss::sites::{
    choose_ancient_reward, drop_offset, drop_spot, structure_message_key, try_awaken_ancient_site, Awakening,
    altar_compound_tile, best_tablet_cell, blocks_compound, cell_position, choose_tablet_kind,
    compound_entrance_side, compound_fits_chunk, structure_candidates, structure_chunk_spawns,
    tablet_chunk_spawns, temple_compound_tile, ALTAR_ENTRANCE_SALT, TEMPLE_ENTRANCE_SALT,
};
use abyss::spawning::StoneTabletKind;

fn eligible_cells(cells: &[usize]) -> Vec<bool> {
    let mut v = vec![false; 256];
    for &k in cells {
        v[k] = true;
    }
    v
}

#[test]
fn tablet_kinds_follow_the_floor_band() {
    assert_eq!(choose_tablet_kind(42, 1, 0, 0), StoneTabletKind::Mercy);
    assert_eq!(choose_tablet_kind(42, 5, 3, -2), StoneTabletKind::MercyLitany);
    assert_eq!(choose_tablet_kind(42, 3, 3, -2), StoneTabletKind::OracleSumer);
    assert_eq!(choose_tablet_kind(1, 4, 3, -2), StoneTabletKind::OracleFifth);
}

#[test]
fn tablet_and_structure_chunks_follow_their_thresholds() {
    assert!(tablet_chunk_spawns(42, 0, 0));
    assert!(!tablet_chunk_spawns(1, 0, 0));
    assert!(!structure_chunk_spawns(42, 1, 0, 0));
    assert!(structure_chunk_spawns(42, 9, 0, 0));
    assert!(structure_chunk_spawns(7, 11, 0, 0));
    assert!(!structure_chunk_spawns(7, 9, 0, 0));
}

#[test]
fn the_best_scored_cell_gets_the_tablet() {
    assert_eq!(cell_position(3, -2, 17), (49, -31));
    assert_eq!(best_tablet_cell(42, 3, -2, &eligible_cells(&[5, 17, 200])), Some(17));
    assert_eq!(best_tablet_cell(42, 3, -2, &eligible_cells(&[5, 200])), Some(5));
    assert_eq!(best_tablet_cell(42, 3, -2, &eligible_cells(&[])), None);
}

#[test]
fn structure_cells_are_tried_best_first() {
    assert_eq!(structure_candidates(42, 3, -2, &eligible_cells(&[5, 17, 200])), vec![17, 200, 5]);
    assert!(structure_candidates(42, 3, -2, &eligible_cells(&[])).is_empty());
    let all = structure_candidates(9, 1, 1, &vec![true; 256]);
    assert_eq!(all.len(), 256);
}

#[test]
fn compounds_have_walls_and_one_entrance() {
    assert_eq!(compound_entrance_side(42, ALTAR_ENTRANCE_SALT, 10, 10), 3);
    assert_eq!(compound_entrance_side(42, TEMPLE_ENTRANCE_SALT, 10, 10), 1);
    assert_eq!(altar_compound_tile(-2, 0, 3), Tile::Sand);
    assert_eq!(altar_compound_tile(0, -2, 3), Tile::Wall);
    assert_eq!(altar_compound_tile(0, 0, 3), Tile::Sand);
    assert_eq!(altar_compound_tile(2, 2, 3), Tile::Wall);
    assert_eq!(temple_compound_tile(3, -1, 1), Tile::Sand);
    assert_eq!(temple_compound_tile(3, 1, 1), Tile::Sand);
    assert_eq!(temple_compound_tile(3, 2, 1), Tile::Wall);
    assert_eq!(temple_compound_tile(1, 1, 1), Tile::Wall);
    assert_eq!(temple_compound_tile(0, 1, 1), Tile::Sand);
    assert!(blocks_compound(Tile::ShallowWater));
    assert!(!blocks_compound(Tile::Grass));
}

#[test]
fn compounds_must_fit_their_chunk() {
    assert!(compound_fits_chunk(0, 0, 5, 5, 2));
    assert!(!compound_fits_chunk(0, 0, 1, 5, 2));
    assert!(compound_fits_chunk(0, 0, 13, 13, 2));
    assert!(!compound_fits_chunk(0, 0, 14, 8, 2));
    assert!(compound_fits_chunk(-1, -1, -4, -4, 3));
}

#[test]
fn sight_lines_walk_the_grid_between_the_ends() {
    assert_eq!(sight_line(0, 0, 5, 2), vec![(1, 0), (2, 1), (3, 1), (4, 2)]);
    assert_eq!(sight_line(3, 3, -2, 1), vec![(2, 3), (1, 2), (0, 2), (-1, 1)]);
    assert_eq!(sight_line(0, 0, 0, 4), vec![(0, 1), (0, 2), (0, 3)]);
    assert!(sight_line(1, 1, 2, 2).is_empty());
    assert!(sight_line(-5, 7, -5, 7).is_empty());
    assert_eq!(sight_line(10, -3, 4, -9), vec![(9, -4), (8, -5), (7, -6), (6, -7), (5, -8)]);
    assert!(sight_clear(&vec![Tile::Grass, Tile::Sand, Tile::ShallowWater]));
    assert!(!sight_clear(&vec![Tile::Grass, Tile::Forest]));
    assert!(sight_clear(&vec![]));
}

#[test]
fn shrines_pick_their_message_by_position() {
    assert_eq!(structure_message_key(42, 10, 10, StructureKind::Altar), "structure.message.altar_2");
    assert_eq!(structure_message_key(42, 10, 10, StructureKind::TempleCore), "structure.message.temple_core");
    assert_eq!(structure_message_key(42, 10, 10, StructureKind::Terminal), "structure.message.terminal");
}

#[test]
fn ancient_rewards_deepen_with_the_floor() {
    assert_eq!(choose_ancient_reward(42, 3, StructureKind::Altar, 10, 10), Item::VirgaOriens);
    assert_eq!(choose_ancient_reward(42, 5, StructureKind::Altar, 10, 10), Item::FerrumOccasus);
    assert_eq!(choose_ancient_reward(42, 7, StructureKind::Altar, 10, 10), Item::VirgaMeridies);
    assert_eq!(choose_ancient_reward(42, 7, StructureKind::Altar, -5, 2), Item::FerrumOccasus);
    assert_eq!(choose_ancient_reward(42, 8, StructureKind::TempleCore, 10, 10), Item::FerrumOccasus);
    assert_eq!(choose_ancient_reward(42, 9, StructureKind::TempleCore, 3, 7), Item::VirgaMeridies);
    assert_eq!(choose_ancient_reward(42, 9, StructureKind::TempleCore, -5, 2), Item::GladiusNadir);
    assert_eq!(choose_ancient_reward(42, 9, StructureKind::TempleCore, 10, 10), Item::VirgaZenith);
    assert_eq!(choose_ancient_reward(42, 9, StructureKind::Terminal, 10, 10), Item::RepulseScroll);
}

#[test]
fn awakening_pays_the_site_cost_once() {
    let mut charge: u8 = 3;
    assert_eq!(
        try_awaken_ancient_site(&mut charge, false, 42, 3, StructureKind::Altar, 10, 10),
        Awakening::Unsealed(Item::VirgaOriens)
    );
    assert_eq!(charge, 1);
    let mut charge: u8 = 3;
    assert_eq!(
        try_awaken_ancient_site(&mut charge, false, 42, 3, StructureKind::TempleCore, 10, 10),
        Awakening::Insufficient
    );
    assert_eq!(charge, 3);
    assert_eq!(
        try_awaken_ancient_site(&mut charge, true, 42, 3, StructureKind::Altar, 10, 10),
        Awakening::Spent
    );
    assert_eq!(
        try_awaken_ancient_site(&mut charge, false, 42, 3, StructureKind::Terminal, 10, 10),
        Awakening::NotAncient
    );
    assert_eq!(charge, 3);
}

#[test]
fn vision_and_torch_ranges_are_round() {
    assert!(within_radius(3, 4, 5));
    assert!(!within_radius(4, 4, 5));
    assert!(within_radius(-7, 0, 7));
    assert!(!within_radius(5, 5, 7));
}

#[test]
fn rings_are_searched_row_by_row() {
    assert_eq!(ring_offsets(0), vec![(0, 0)]);
    assert_eq!(
        ring_offsets(1),
        vec![(-1, -1), (0, -1), (1, -1), (-1, 0), (1, 0), (-1, 1), (0, 1), (1, 1)]
    );
    let r2 = ring_offsets(2);
    assert_eq!(r2.len(), 16);
    assert_eq!(r2[0], (-2, -2));
    assert_eq!(r2[5], (-2, -1));
    assert_eq!(r2[15], (2, 2));
}

#[test]
fn items_land_on_the_first_free_place() {
    assert_eq!(drop_offset(0), (0, 0));
    assert_eq!(drop_offset(3), (0, 1));
    assert_eq!(drop_offset(8), (-1, -1));
    let mut free = vec![false; 9];
    assert_eq!(drop_spot(&free), None);
    free[6] = true;
    free[7] = true;
    assert_eq!(drop_spot(&free), Some(6));
}
