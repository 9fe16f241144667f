use abyss::dark_spawn::{dark_spawn_due, density_score, in_dark_ring, pick_dark_spawn};

#[test]
fn the_dark_stirs_every_sixth_turn() {
    assert!(!dark_spawn_due(0));
    assert!(!dark_spawn_due(5));
    assert!(dark_spawn_due(6));
    assert!(dark_spawn_due(12));
    assert!(!dark_spawn_due(13));
}

#[test]
fn the_dark_ring_lies_between_five_and_twenty_four_cells() {
    assert!(!in_dark_ring(0, 0));
    assert!(!in_dark_ring(3, 3));
    assert!(in_dark_ring(5, 0));
    assert!(in_dark_ring(3, 4));
    assert!(in_dark_ring(24, 0));
    assert!(!in_dark_ring(24, 1));
    assert!(!in_dark_ring(-17, -17));
}

#[test]
fn crowding_counts_creatures_within_six_cells() {
    let ps = vec![(0, 0), (6, -6), (7, 0), (-3, 2), (100, 100)];
    assert_eq!(density_score(&ps, 0, 0), 3);
    assert_eq!(density_score(&ps, 100, 94), 1);
    assert_eq!(density_score(&Vec::new(), 0, 0), 0);
    assert_eq!(density_score(&vec![(i32::MAX, i32::MIN)], i32::MIN, i32::MAX), 0);
}

#[test]
fn the_dark_spawns_where_it_is_least_crowded() {
    let mut rng = 12345u64;
    assert_eq!(pick_dark_spawn(&vec![None, None], &mut rng), None);
    assert_eq!(rng, 12345);
    // The least crowded cells are 1, 3 and 4; the draw 134732914 picks the
    // second of them.
    let ds = vec![Some(2), Some(0), None, Some(0), Some(0), Some(1)];
    assert_eq!(pick_dark_spawn(&ds, &mut rng), Some(3));
    assert_eq!(rng, 578673459679314182);
    let mut rng = 12345u64;
    assert_eq!(pick_dark_spawn(&vec![Some(4), None, Some(5)], &mut rng), Some(0));
}
