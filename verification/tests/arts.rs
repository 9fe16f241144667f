use abyss::arts::{
    ancient_technique, burst_targets, free_run, knockback_direction, line_strike, nova_targets, piercing_strike,
    pulse_bomb_technique, spell_technique, transit_step, LineStrike, RayCell, Technique,
};
use abyss::items::Item;
use abyss::player::Spell;

/// `.` open, `e` a creature, `#` a wall.
fn cells(s: &str) -> Vec<RayCell> {
    s.chars()
        .map(|c| RayCell { open: c != '#', creature: c == 'e' })
        .collect()
}

#[test]
fn a_line_strikes_the_first_creature_before_a_wall() {
    assert_eq!(line_strike(&cells("..e.e."), 6), LineStrike::Hit(3));
    assert_eq!(line_strike(&cells("e....."), 6), LineStrike::Hit(1));
    assert_eq!(line_strike(&cells("..#e.."), 6), LineStrike::Miss(2));
    assert_eq!(line_strike(&cells("......"), 6), LineStrike::Miss(6));
    assert_eq!(line_strike(&cells("....e."), 3), LineStrike::Miss(3));
    assert_eq!(line_strike(&cells("#....."), 6), LineStrike::Miss(0));
    assert_eq!(line_strike(&cells(".."), 6), LineStrike::Miss(2));
}

#[test]
fn a_piercing_line_strikes_every_creature_up_to_a_wall() {
    assert_eq!(piercing_strike(&cells(".e.e.e"), 5), (vec![2, 4], 5));
    assert_eq!(piercing_strike(&cells("e.#e.."), 5), (vec![1], 2));
    assert_eq!(piercing_strike(&cells("....."), 5), (vec![], 5));
    assert_eq!(piercing_strike(&cells("#e"), 5), (vec![], 0));
}

#[test]
fn blinks_and_pushes_stop_at_the_first_taken_cell() {
    assert_eq!(free_run(&[true, true, true, true, true].to_vec(), 4), 4);
    assert_eq!(free_run(&[true, true, false, true].to_vec(), 4), 2);
    assert_eq!(free_run(&[false, true].to_vec(), 2), 0);
    assert_eq!(free_run(&[true].to_vec(), 2), 1);
    assert_eq!(free_run(&Vec::new(), 2), 0);
}

#[test]
fn the_zenith_transit_passes_through_barriers() {
    assert_eq!(transit_step(&cells("..#...")), Some(4));
    assert_eq!(transit_step(&cells("..#e..")), Some(5));
    assert_eq!(transit_step(&cells("......")), Some(3));
    assert_eq!(transit_step(&cells(".e.e..")), Some(3));
    assert_eq!(transit_step(&cells(".ee...")), Some(1));
    assert_eq!(transit_step(&cells("e#####")), None);
    assert_eq!(transit_step(&cells("######")), None);
    assert_eq!(transit_step(&cells("#eeeee")), None);
    assert_eq!(transit_step(&cells("#e.e..")), Some(3));
}

#[test]
fn bursts_reach_within_their_radius_in_list_order() {
    let offsets = vec![(2, 0), (1, 1), (2, 2), (0, -1), (-3, 0)];
    assert_eq!(burst_targets(&offsets, 2), vec![0, 1, 3]);
    assert_eq!(burst_targets(&offsets, 1), vec![3]);
    assert_eq!(burst_targets(&offsets, 3), vec![0, 1, 2, 3, 4]);
    assert_eq!(burst_targets(&vec![(i32::MIN, i32::MAX)], i32::MAX), Vec::<usize>::new());
}

#[test]
fn a_nova_strikes_by_id() {
    let ids = vec![9, 3, 7, 1, 5];
    let offsets = vec![(4, 0), (0, 5), (2, 2), (3, 3), (-1, 0)];
    assert_eq!(nova_targets(&ids, &offsets), vec![4, 2, 0]);
    assert_eq!(nova_targets(&Vec::new(), &Vec::new()), Vec::<usize>::new());
}

#[test]
fn knockback_pushes_away_from_the_player() {
    assert_eq!(knockback_direction(5, 3, 2, 3), Some((1, 0)));
    assert_eq!(knockback_direction(-4, -9, 0, 0), Some((-1, -1)));
    assert_eq!(knockback_direction(1, 1, 1, 1), None);
    assert_eq!(knockback_direction(i32::MIN, i32::MAX, i32::MAX, i32::MIN), Some((-1, 1)));
}

#[test]
fn scrolls_bombs_and_relics_cast_their_techniques() {
    assert_eq!(
        spell_technique(Spell::Flame),
        Technique::Line { range: 6, bonus: 4, burning: 0, slowed: 0, flame: true }
    );
    assert_eq!(
        spell_technique(Spell::Ember),
        Technique::Line { range: 5, bonus: 2, burning: 4, slowed: 0, flame: true }
    );
    assert_eq!(spell_technique(Spell::Blink), Technique::Blink { range: 4 });
    assert_eq!(
        spell_technique(Spell::Bind),
        Technique::Line { range: 5, bonus: 1, burning: 0, slowed: 4, flame: false }
    );
    assert_eq!(
        spell_technique(Spell::Repulse),
        Technique::Burst { radius: 2, bonus: 1, burning: 0, slowed: 2, knockback: 2 }
    );
    assert_eq!(spell_technique(Spell::Nova), Technique::Nova { radius: 4, bonus: 2 });
    assert_eq!(
        pulse_bomb_technique(),
        Technique::Burst { radius: 1, bonus: 3, burning: 0, slowed: 3, knockback: 1 }
    );
    assert_eq!(
        ancient_technique(Item::GladiusNadir),
        Some(Technique::Piercing { range: 5, bonus: 4, burning: 0, slowed: 1 })
    );
    assert_eq!(
        ancient_technique(Item::FerrumOccasus),
        Some(Technique::Burst { radius: 1, bonus: 2, burning: 0, slowed: 2, knockback: 2 })
    );
    assert_eq!(
        ancient_technique(Item::VirgaOriens),
        Some(Technique::Line { range: 6, bonus: 3, burning: 4, slowed: 0, flame: true })
    );
    assert_eq!(
        ancient_technique(Item::VirgaMeridies),
        Some(Technique::Line { range: 5, bonus: 2, burning: 0, slowed: 5, flame: false })
    );
    assert_eq!(ancient_technique(Item::VirgaZenith), Some(Technique::Transit));
    assert_eq!(ancient_technique(Item::IronSword), None);
}
