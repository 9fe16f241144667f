use abyss::facility::{
    direction_inscription, facility_entrance_side, facility_fits, facility_sites, facility_structure, facility_tile,
    guardian_kind, guardian_offset, guardian_spot, nearest_open_spot, FACILITY_CELLS,
};
use abyss::items::{StructureKind, Tile};

#[test]
fn deeper_floors_send_stronger_guardians() {
    assert_eq!(guardian_kind(1), "grave_frame");
    assert_eq!(guardian_kind(3), "grave_frame");
    assert_eq!(guardian_kind(4), "scavenger_knight");
    assert_eq!(guardian_kind(6), "scavenger_knight");
    assert_eq!(guardian_kind(7), "cathedral_frame");
    assert_eq!(guardian_kind(u32::MAX), "cathedral_frame");
}

#[test]
fn the_facility_is_sought_ring_by_ring_away_from_the_origin() {
    let sites = facility_sites(42, 3);
    assert_eq!(sites.len(), 144);
    assert_eq!(sites[0], (17, -19));
    assert_eq!(sites[1], (-20, -17));
    assert_eq!(sites[23], (16, -17));
    assert_eq!(sites[24], (-19, -23));
    assert_eq!(sites[143], (-41, -35));
    for (k, &(x, y)) in sites.iter().enumerate() {
        let radius = 18 + 4 * (k as i32 / 24);
        assert!(x.abs().max(y.abs()) >= 12);
        assert!((radius - 4..=radius + 4).contains(&x.abs()));
        assert!((radius - 4..=radius + 4).contains(&y.abs()));
    }
    assert_eq!(facility_sites(42, 3), sites);
    assert_ne!(facility_sites(43, 3), sites);
}

#[test]
fn the_facility_is_a_walled_square_with_one_gate() {
    let side = facility_entrance_side(42, 20, -19);
    assert_eq!(side, 2);
    assert_eq!(facility_entrance_side(42, 0, 0), 1);
    let mut walls = 0;
    for dy in -4..=4 {
        for dx in -4..=4 {
            let t = facility_tile(dx, dy, side);
            if t == Tile::Wall {
                walls += 1;
            } else {
                assert_eq!(t, Tile::Sand);
            }
        }
    }
    assert_eq!(walls, 32 - 3);
    assert_eq!(facility_tile(0, 4, 2), Tile::Sand);
    assert_eq!(facility_tile(1, 4, 2), Tile::Sand);
    assert_eq!(facility_tile(2, 4, 2), Tile::Wall);
    assert_eq!(facility_tile(0, -4, 2), Tile::Wall);
    assert_eq!(facility_tile(0, -4, 0), Tile::Sand);
    assert_eq!(facility_tile(4, 1, 1), Tile::Sand);
    assert_eq!(facility_tile(-4, -1, 3), Tile::Sand);
    assert_eq!(facility_tile(-4, -4, 3), Tile::Wall);
    assert_eq!(facility_tile(0, 0, 0), Tile::Sand);
}

#[test]
fn the_facility_needs_dry_untaken_ground() {
    let tiles = vec![Tile::Grass; FACILITY_CELLS];
    let taken = vec![false; FACILITY_CELLS];
    assert!(facility_fits(&tiles, &taken));
    let mut wet = tiles.clone();
    wet[40] = Tile::ShallowWater;
    assert!(!facility_fits(&wet, &taken));
    let mut stairs = tiles.clone();
    stairs[80] = Tile::StairsDown;
    assert!(!facility_fits(&stairs, &taken));
    let mut someone = taken.clone();
    someone[0] = true;
    assert!(!facility_fits(&tiles, &someone));
}

#[test]
fn the_facility_holds_four_machines_round_its_core() {
    assert_eq!(facility_structure(0), (-2, -2, StructureKind::Terminal));
    assert_eq!(facility_structure(1), (2, -2, StructureKind::CablePylon));
    assert_eq!(facility_structure(2), (-2, 2, StructureKind::BoneRack));
    assert_eq!(facility_structure(3), (2, 2, StructureKind::Terminal));
    assert_eq!(facility_structure(4), (0, 0, StructureKind::SubstoryCore));
}

#[test]
fn the_guardian_takes_the_first_free_place() {
    assert_eq!(guardian_offset(0), (0, -2));
    assert_eq!(guardian_offset(3), (-2, 0));
    assert_eq!(guardian_offset(7), (-2, -1));
    let mut free = vec![false; 8];
    assert_eq!(guardian_spot(&free), None);
    free[5] = true;
    free[6] = true;
    assert_eq!(guardian_spot(&free), Some(5));
}

#[test]
fn the_stairs_appear_at_the_nearest_open_spot() {
    let cands = vec![
        ((-1, -1), true),
        ((0, -1), false),
        ((1, -1), true),
        ((-1, 0), false),
        ((0, 0), true),
        ((1, 0), true),
        ((0, 1), true),
    ];
    assert_eq!(nearest_open_spot(&cands), Some(5));
    let far = vec![((2, 2), true), ((0, 0), true), ((-2, 2), true), ((0, -1), false)];
    assert_eq!(nearest_open_spot(&far), Some(0));
    let none = vec![((0, 0), true), ((1, 0), false)];
    assert_eq!(nearest_open_spot(&none), None);
}

#[test]
fn tablets_point_toward_the_facility() {
    assert_eq!(direction_inscription(10, 10, 9, 12), "◎");
    assert_eq!(direction_inscription(10, 10, 10, 0), "▼\n│\n◎");
    assert_eq!(direction_inscription(10, 10, 10, 20), "▲\n│\n◎");
    assert_eq!(direction_inscription(10, 10, 0, 11), "◎─▶");
    assert_eq!(direction_inscription(10, 10, 13, 8), "◎─◀");
    assert_eq!(direction_inscription(10, 10, 0, 0), "▼\n╲\n◎─▶");
    assert_eq!(direction_inscription(10, 10, 20, 0), "▼\n╲\n◎─◀");
    assert_eq!(direction_inscription(10, 10, 0, 20), "▲\n╲\n◎─▶");
    assert_eq!(direction_inscription(i32::MIN, i32::MIN, i32::MAX, i32::MAX), "▲\n╲\n◎─◀");
}
