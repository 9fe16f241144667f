use abyss::catalog::{CreatureDef, GameDefs};
use abyss::combat::StatusState;
use abyss::defs::Faction;
use abyss::enemies::PATH_CELLS;
use abyss::floor::{
    add_stain, advance_hits, attack_fits, creature_falls, creature_take_item, creature_turn, creature_turn_fits,
    kind_stats, move_outcome, player_attack, technique_blow, AttackResult, CellAhead, Creature, KindStats, MoveNote,
    MoveResult, Occupant, PendingHit, Tally, TurnView,
};
use abyss::items::{Facing, Item};
use abyss::spawning::CarriedItem;

fn def(id: &str, faction: Faction, hp: i32, attack: i32, defense: i32, agility: i32) -> CreatureDef {
    CreatureDef {
        id: id.to_string(),
        name: id.to_string(),
        faction,
        glyph: 'r',
        color: 1,
        hp,
        attack,
        defense,
        agility,
        spawn_weight: 1,
        loot: Vec::new(),
    }
}

fn defs() -> GameDefs {
    GameDefs {
        tiles: Vec::new(),
        items: Vec::new(),
        recipes: Vec::new(),
        creatures: vec![
            def("rat", Faction::Hostile, 1, 1, 1, 1),
            def("traveler", Faction::Neutral, 10, 3, 2, 5),
            def("rat", Faction::Hostile, 8, 4, 2, 5),
            def("quick", Faction::Hostile, 8, 4, 2, 7),
        ],
        forge_scroll_pattern: Vec::new(),
    }
}

fn creature(id: u64, kind: &str, x: i32, y: i32, hp: i32) -> Creature {
    Creature {
        id,
        kind: kind.to_string(),
        x,
        y,
        hp,
        status: StatusState { burning_turns: 0, slowed_turns: 0 },
        facing: Facing::N,
        flee: false,
        carried: Vec::new(),
        weapon: None,
    }
}

#[test]
fn a_kind_takes_its_last_definition() {
    let d = defs();
    assert_eq!(
        kind_stats(&d, "rat"),
        Some(KindStats { hp: 8, attack: 4, defense: 2, agility: 5, faction: Faction::Hostile })
    );
    assert_eq!(kind_stats(&d, "bat"), None);
}

#[test]
fn the_players_blow_wounds_and_scares_a_traveller() {
    let d = defs();
    let mut cs = vec![creature(1, "rat", 5, 5, 8), creature(2, "traveler", 1, 0, 10)];
    let mut rng = 12345u64;
    assert!(attack_fits(&cs, &d, 1, 0, 8, 5));
    let mut tally = Tally::new();
    let mut blood = Vec::new();
    let r = player_attack(&mut cs, &d, 1, 0, 8, 5, &mut rng, &mut tally, &mut blood);
    assert!(matches!(r, AttackResult::Hit { idx: 1, damage: 6 }));
    assert_eq!(cs[1].hp, 4);
    assert!(cs[1].flee);
    assert_eq!(rng, 578673459679314182);
    assert_eq!(tally, Tally { enemies_defeated: 0, damage_dealt: 6, items_picked: 0, steps: 0 });
    assert!(blood.is_empty());
}

#[test]
fn a_creature_falls_and_gives_experience() {
    let d = defs();
    let mut cs = vec![creature(7, "rat", 0, 1, 3)];
    let mut rng = 12345u64;
    let mut tally = Tally { enemies_defeated: 2, damage_dealt: u32::MAX - 3, items_picked: 0, steps: 0 };
    let mut blood = vec![(4, 4)];
    match player_attack(&mut cs, &d, 0, 1, 10, 5, &mut rng, &mut tally, &mut blood) {
        AttackResult::Defeated { dead, damage, exp } => {
            assert_eq!(dead.id, 7);
            assert_eq!(dead.hp, -5);
            assert_eq!(damage, 8);
            assert_eq!(exp, 8 + 4 + 2 * 2);
        }
        _ => panic!("the rat should fall"),
    }
    assert!(cs.is_empty());
    assert_eq!(tally.enemies_defeated, 3);
    assert_eq!(tally.damage_dealt, u32::MAX);
    assert_eq!(blood, vec![(4, 4), (0, 1)]);
}

#[test]
fn a_quick_creature_evades_and_an_empty_cell_is_missed() {
    let d = defs();
    let mut cs = vec![creature(3, "quick", 0, -1, 8)];
    let mut rng = 12345u64;
    let mut tally = Tally::new();
    let mut blood = Vec::new();
    assert!(matches!(
        player_attack(&mut cs, &d, 0, -1, 10, 5, &mut rng, &mut tally, &mut blood),
        AttackResult::Evaded { idx: 0 }
    ));
    assert_eq!(cs[0].hp, 8);
    let mut rng = 99u64;
    assert!(matches!(
        player_attack(&mut cs, &d, 4, 4, 10, 5, &mut rng, &mut tally, &mut blood),
        AttackResult::NoCreature
    ));
    assert_eq!(rng, 99);
    assert_eq!(tally, Tally::new());
}

fn view(dx: i32, dy: i32, sees: bool, free: Vec<bool>, turn: u64) -> TurnView {
    TurnView {
        dx,
        dy,
        sees,
        free,
        square: vec![true; PATH_CELLS],
        dash_free: (true, true),
        turn,
        melee: (1, 0, 2),
        player_defense: 2,
        research: 0,
    }
}

#[test]
fn a_hostile_next_to_the_player_sends_a_blow() {
    let d = defs();
    let mut cs = vec![creature(4, "rat", 0, 0, 8)];
    let mut pending: Vec<PendingHit> = Vec::new();
    let mut order = 0u16;
    let v = view(1, 0, true, vec![true; 8], 3);
    assert!(creature_turn_fits(&cs, &d, 0, &v));
    let picks = creature_turn(&mut cs, &mut pending, &d, 0, &v, &mut order);
    assert!(!picks);
    assert_eq!(order, 1);
    assert_eq!(pending.len(), 1);
    assert_eq!(pending[0].damage, 4 + 1 - 2);
    assert_eq!(pending[0].slowed, 2);
    assert_eq!(pending[0].delay, 4);
    assert_eq!(pending[0].from, (0, 0));
    assert_eq!(pending[0].kind, "rat");
    let mut cs2 = vec![creature(5, "rat", 3, 3, 8)];
    let picks = creature_turn(&mut cs2, &mut pending, &d, 0, &v, &mut order);
    assert!(!picks);
    assert_eq!(pending[1].delay, 10);
    assert_eq!(order, 2);
}

#[test]
fn creatures_out_of_sight_patrol_and_travellers_rest() {
    let d = defs();
    let mut cs = vec![creature(4, "rat", 10, 10, 8)];
    let mut pending: Vec<PendingHit> = Vec::new();
    let mut order = 0u16;
    let picks = creature_turn(&mut cs, &mut pending, &d, 0, &view(30, 0, false, vec![true; 8], 3), &mut order);
    assert!(!picks);
    assert_eq!((cs[0].x, cs[0].y, cs[0].facing), (10, 9, Facing::N));
    let mut blocked = vec![true; 8];
    blocked[1] = false;
    let _ = creature_turn(&mut cs, &mut pending, &d, 0, &view(30, 0, false, blocked, 3), &mut order);
    assert_eq!((cs[0].x, cs[0].y, cs[0].facing), (10, 9, Facing::NE));
    let mut ts = vec![creature(1, "traveler", 0, 0, 10)];
    let picks = creature_turn(&mut ts, &mut pending, &d, 0, &view(30, 0, false, vec![true; 8], 4), &mut order);
    assert!(!picks);
    assert_eq!((ts[0].x, ts[0].y), (0, 0));
    let picks = creature_turn(&mut ts, &mut pending, &d, 0, &view(30, 0, false, vec![true; 8], 3), &mut order);
    assert!(picks);
    assert_eq!((ts[0].x, ts[0].y), (0, -1));
    assert!(pending.is_empty());
}

#[test]
fn creatures_wield_the_weapons_they_pick_up() {
    let mut cs = vec![creature(1, "rat", 0, 0, 8), creature(2, "rat", 1, 1, 8)];
    creature_take_item(&mut cs, 1, Item::IronSword);
    creature_take_item(&mut cs, 1, Item::Stone);
    assert_eq!(cs[1].weapon, Some(Item::IronSword));
    assert_eq!(
        cs[1].carried,
        vec![
            CarriedItem { item: Item::IronSword, drop_chance: 100 },
            CarriedItem { item: Item::Stone, drop_chance: 100 }
        ]
    );
    assert!(cs[0].carried.is_empty());
}

fn hit(damage: i32, delay: u8) -> PendingHit {
    PendingHit { kind: "rat".to_string(), damage, burning: 0, slowed: 0, delay, from: (0, 0), agility: 5 }
}

#[test]
fn blows_land_when_their_delay_is_over() {
    let mut pending = vec![hit(1, 0), hit(2, 2), hit(3, 0), hit(4, 1)];
    let due = advance_hits(&mut pending);
    assert_eq!(due.iter().map(|h| h.damage).collect::<Vec<_>>(), vec![1, 3]);
    assert_eq!(pending.iter().map(|h| (h.damage, h.delay)).collect::<Vec<_>>(), vec![(2, 1), (4, 0)]);
    let due = advance_hits(&mut pending);
    assert_eq!(due.iter().map(|h| h.damage).collect::<Vec<_>>(), vec![4]);
    assert_eq!(pending.len(), 1);
}

#[test]
fn a_stain_is_kept_once() {
    let mut blood = vec![(1, 2)];
    add_stain(&mut blood, 1, 2);
    assert_eq!(blood, vec![(1, 2)]);
    add_stain(&mut blood, -3, 0);
    assert_eq!(blood, vec![(1, 2), (-3, 0)]);
}

#[test]
fn a_fallen_creature_leaves_blood_and_is_counted() {
    let mut cs = vec![creature(1, "rat", 5, 5, 0), creature(2, "rat", 6, 6, 4)];
    let mut tally = Tally::new();
    let mut blood = Vec::new();
    let dead = creature_falls(&mut cs, 0, &mut tally, &mut blood);
    assert_eq!(dead.id, 1);
    assert_eq!(cs.len(), 1);
    assert_eq!(cs[0].id, 2);
    assert_eq!(tally.enemies_defeated, 1);
    assert_eq!(blood, vec![(5, 5)]);
}

#[test]
fn tallies_count_and_hold_at_the_top() {
    let mut t = Tally::new();
    t.count_step();
    t.count_step();
    t.count_pickup();
    t.count_damage(7);
    assert_eq!(t, Tally { enemies_defeated: 0, damage_dealt: 7, items_picked: 1, steps: 2 });
    let mut full = Tally { enemies_defeated: u32::MAX, damage_dealt: 0, items_picked: 0, steps: u32::MAX };
    full.count_defeat();
    full.count_step();
    assert_eq!(full.enemies_defeated, u32::MAX);
    assert_eq!(full.steps, u32::MAX);
}

#[test]
fn a_technique_blow_burns_slows_and_wounds() {
    let k = KindStats { hp: 10, attack: 3, defense: 2, agility: 5, faction: Faction::Neutral };
    let mut t = Tally::new();
    let mut c = creature(4, "traveler", 1, 1, 10);
    c.status = StatusState { burning_turns: 5, slowed_turns: 0 };
    let (after, fell) = technique_blow(c.clone(), k, 4, 2, 3, 2, true, &mut t);
    assert_eq!(after.hp, 6);
    assert!(after.flee);
    assert_eq!(after.status, StatusState { burning_turns: 5, slowed_turns: 2 });
    assert!(!fell);
    assert_eq!(t.damage_dealt, 4);
    let (after, fell) = technique_blow(c, k, 1, 0, 0, 0, false, &mut t);
    assert_eq!(after.hp, 9);
    assert!(!after.flee);
    assert!(!fell);
    assert_eq!(t.damage_dealt, 5);
    let (after, fell) = technique_blow(creature(5, "rat", 0, 0, 3), k, 20, 0, 0, 0, true, &mut t);
    assert_eq!(after.hp, -15);
    assert!(!after.flee);
    assert!(fell);
}

fn ahead(occupant: Occupant, walkable: bool, obstacle: bool) -> CellAhead {
    CellAhead { occupant, walkable, obstacle }
}

#[test]
fn only_a_step_that_moves_takes_a_turn() {
    let open = ahead(Occupant::Empty, true, false);
    let r = move_outcome(Facing::N, 1, 0, open);
    assert_eq!((r.facing, r.result, r.note, r.turn), (Facing::E, MoveResult::Moved, MoveNote::Quiet, true));
    let wall = ahead(Occupant::Empty, false, false);
    let r = move_outcome(Facing::N, 1, 1, wall);
    assert_eq!((r.facing, r.result, r.turn), (Facing::SE, MoveResult::RotatedOnly, false));
    let r = move_outcome(Facing::SE, 1, 1, wall);
    assert_eq!((r.facing, r.result, r.turn), (Facing::SE, MoveResult::Blocked, false));
    let tablet = ahead(Occupant::Empty, true, true);
    assert_eq!(move_outcome(Facing::S, 0, 1, tablet).result, MoveResult::Blocked);
    let foe = ahead(Occupant::Hostile, true, false);
    let r = move_outcome(Facing::W, -1, 0, foe);
    assert_eq!((r.result, r.note, r.turn), (MoveResult::Blocked, MoveNote::EnemyBlocks, false));
    let r = move_outcome(Facing::N, -1, 0, foe);
    assert_eq!((r.result, r.note, r.turn), (MoveResult::RotatedOnly, MoveNote::Quiet, false));
    let friend = ahead(Occupant::Neutral { fleeing: false }, true, false);
    let r = move_outcome(Facing::N, 0, -1, friend);
    assert_eq!((r.result, r.note, r.turn), (MoveResult::Blocked, MoveNote::NeutralTalk, false));
    let scared = ahead(Occupant::Neutral { fleeing: true }, true, false);
    let r = move_outcome(Facing::E, 0, -1, scared);
    assert_eq!((r.facing, r.result, r.note), (Facing::N, MoveResult::RotatedOnly, MoveNote::NeutralFlee));
    let r = move_outcome(Facing::NW, 0, 0, open);
    assert_eq!(r.facing, Facing::NW);
}
