//! How creatures take their turns: the order they act in, the directions
//! they try when closing in or fleeing, patrolling, melee blows and the
//! stagger of their attack animations; and how the player's blows land.
use vstd::prelude::*;

use crate::combat::{is_line_aligned, item_attack_bonus, item_attack_bonus_spec};
use crate::items::{Facing, Item, clockwise_spec, rotate_facing_clockwise, sign};
use crate::noise::lcg_next;
use crate::progression::{calc_damage, evade_chance_percent, evade_chance_spec, evade_fits};
use crate::spawning::{rand_spec, rand_u32, roll_hits, roll_percent, roll_state};

verus! {

// ---------------------------------------------------------------------------
// Turn order
// ---------------------------------------------------------------------------

/// Position `a` comes before position `b`: smaller id first, and the earlier
/// position among equal ids.
pub open spec fn before(ids: Seq<u64>, a: int, b: int) -> bool {
    ids[a] < ids[b] || (ids[a] == ids[b] && a < b)
}

/// `order` lists every position of `ids` once, in the order `before` gives.
pub open spec fn is_turn_order(ids: Seq<u64>, order: Seq<usize>) -> bool {
    &&& order.len() == ids.len()
    &&& forall|k: int| 0 <= k < order.len() ==> #[trigger] order[k] < ids.len()
    &&& forall|k: int, l: int| 0 <= k < l < order.len() ==> before(ids, order[k] as int, order[l] as int)
}

/// The order creatures act in: by entity id, ascending; creatures with the
/// same id keep their order in the list.
pub fn enemy_turn_order(ids: &Vec<u64>) -> (order: Vec<usize>)
    ensures
        is_turn_order(ids@, order@),
{
    let mut order: Vec<usize> = Vec::new();
    let mut i: usize = 0;
    while i < ids.len()
        invariant
            i <= ids@.len(),
            order@.len() == i,
            forall|k: int| 0 <= k < order@.len() ==> #[trigger] order@[k] < i,
            forall|k: int, l: int| 0 <= k < l < order@.len() ==> before(ids@, order@[k] as int, order@[l] as int),
        decreases ids@.len() - i,
    {
        // Every listed position is earlier than `i`, so `i` goes after the
        // entries whose id is not larger than its own.
        let mut j: usize = order.len();
        while j > 0 && ids[order[j - 1]] > ids[i]
            invariant
                j <= order@.len(),
                i < ids@.len(),
                order@.len() == i,
                forall|k: int| 0 <= k < order@.len() ==> #[trigger] order@[k] < i,
                forall|k: int| j <= k < order@.len() ==> ids@[#[trigger] order@[k] as int] > ids@[i as int],
            decreases j,
        {
            j = j - 1;
        }
        let ghost old_order = order@;
        order.insert(j, i);
        proof {
            assert forall|k: int, l: int| 0 <= k < l < order@.len() implies before(
                ids@,
                order@[k] as int,
                order@[l] as int,
            ) by {
                if l < j {
                    assert(order@[k] == old_order[k] && order@[l] == old_order[l]);
                } else if l == j {
                    assert(order@[k] == old_order[k]);
                    assert(order@[l] == i);
                    if k < j - 1 {
                        assert(before(ids@, old_order[k] as int, old_order[j - 1] as int));
                    }
                    assert(old_order[k] < i);
                } else if k < j {
                    assert(order@[k] == old_order[k] && order@[l] == old_order[l - 1]);
                    if k < l - 1 {
                    }
                } else if k == j {
                    assert(order@[l] == old_order[l - 1]);
                    assert(ids@[old_order[l - 1] as int] > ids@[i as int]);
                } else {
                    assert(order@[k] == old_order[k - 1] && order@[l] == old_order[l - 1]);
                }
            }
            assert forall|k: int| 0 <= k < order@.len() implies #[trigger] order@[k] < i + 1 by {
                if k < j {
                    assert(order@[k] == old_order[k]);
                } else if k > j {
                    assert(order@[k] == old_order[k - 1]);
                }
            }
        }
        i = i + 1;
    }
    order
}

/// Position `p` appears in `order`.
pub open spec fn listed(order: Seq<usize>, p: int) -> bool {
    exists|k: int| 0 <= k < order.len() && #[trigger] order[k] == p
}

/// Law: the turn order lists every creature exactly once.
pub proof fn lemma_turn_order_is_permutation(ids: Seq<u64>, order: Seq<usize>)
    requires
        is_turn_order(ids, order),
    ensures
        forall|p: int| 0 <= p < ids.len() ==> #[trigger] listed(order, p),
        forall|k: int, l: int| 0 <= k < l < order.len() ==> order[k] != order[l],
        forall|k: int, l: int| 0 <= k < l < order.len() ==> ids[order[k] as int] <= ids[order[l] as int],
{
    assert forall|k: int, l: int| 0 <= k < l < order.len() implies order[k] != order[l] && ids[order[k] as int] <= ids[order[l] as int] by {
        assert(before(ids, order[k] as int, order[l] as int));
    }
    assert forall|p: int| 0 <= p < ids.len() implies #[trigger] listed(order, p) by {
        lemma_pigeon(ids.len(), order, p);
    }
}

/// A list of `n` distinct positions below `n` holds each of them.
proof fn lemma_pigeon(n: nat, order: Seq<usize>, p: int)
    requires
        order.len() == n,
        forall|k: int| 0 <= k < order.len() ==> #[trigger] order[k] < n,
        forall|k: int, l: int| 0 <= k < l < order.len() ==> order[k] != order[l],
        0 <= p < n,
    ensures
        listed(order, p),
{
    let s = order.map_values(|v: usize| v as int).to_set();
    let full = Set::new(|v: int| 0 <= v < n);
    assert(order.map_values(|v: usize| v as int).no_duplicates()) by {
        let m = order.map_values(|v: usize| v as int);
        assert forall|k: int, l: int| 0 <= k < m.len() && 0 <= l < m.len() && k != l implies m[k] != m[l] by {
            if k < l {
                assert(order[k] != order[l]);
            } else {
                assert(order[l] != order[k]);
            }
        }
    }
    order.map_values(|v: usize| v as int).unique_seq_to_set();
    assert(s.subset_of(full));
    vstd::set_lib::lemma_int_range(0, n as int);
    assert(full =~= vstd::set_lib::set_int_range(0, n as int));
    if !s.contains(p) {
        vstd::set_lib::lemma_len_subset(s, full.remove(p));
        assert(s.subset_of(full.remove(p)));
        assert(false);
    }
    let m = order.map_values(|v: usize| v as int);
    assert(m.contains(p));
    let k = choose|k: int| 0 <= k < m.len() && m[k] == p;
    assert(order[k] == p);
}

// ---------------------------------------------------------------------------
// Directions
// ---------------------------------------------------------------------------

/// The eight steps around a cell, row by row from the top left.
pub open spec fn all_steps() -> Seq<(i32, i32)> {
    seq![(-1i32, -1i32), (0i32, -1i32), (1i32, -1i32), (-1i32, 0i32), (1i32, 0i32), (-1i32, 1i32), (0i32, 1i32), (1i32, 1i32)]
}

/// `cands` with the zero step and repeats left out, first occurrence kept,
/// appended to `acc`.
pub open spec fn add_steps(acc: Seq<(i32, i32)>, cands: Seq<(i32, i32)>) -> Seq<(i32, i32)>
    decreases cands.len(),
{
    if cands.len() == 0 {
        acc
    } else {
        let c = cands[0];
        let acc2 = if c != (0i32, 0i32) && !acc.contains(c) { acc.push(c) } else { acc };
        add_steps(acc2, cands.subrange(1, cands.len() as int))
    }
}

fn push_step(dirs: &mut Vec<(i32, i32)>, c: (i32, i32))
    ensures
        final(dirs)@ == (if c != (0i32, 0i32) && !old(dirs)@.contains(c) { old(dirs)@.push(c) } else { old(dirs)@ }),
{
    if c.0 == 0 && c.1 == 0 {
        return;
    }
    let mut k: usize = 0;
    while k < dirs.len()
        invariant
            k <= dirs@.len(),
            dirs@ == old(dirs)@,
            forall|j: int| 0 <= j < k ==> dirs@[j] != c,
        decreases dirs@.len() - k,
    {
        if dirs[k].0 == c.0 && dirs[k].1 == c.1 {
            assert(dirs@.contains(c)) by {
                assert(dirs@[k as int] == c);
            }
            return;
        }
        k = k + 1;
    }
    dirs.push(c);
}

fn push_steps(dirs: &mut Vec<(i32, i32)>, cands: &Vec<(i32, i32)>)
    ensures
        final(dirs)@ == add_steps(old(dirs)@, cands@),
{
    let mut i: usize = 0;
    assert(cands@.subrange(0, cands@.len() as int) =~= cands@);
    while i < cands.len()
        invariant
            i <= cands@.len(),
            add_steps(old(dirs)@, cands@) == add_steps(dirs@, cands@.subrange(i as int, cands@.len() as int)),
        decreases cands@.len() - i,
    {
        let ghost rest = cands@.subrange(i as int, cands@.len() as int);
        assert(rest.subrange(1, rest.len() as int) =~= cands@.subrange(i + 1, cands@.len() as int));
        push_step(dirs, cands[i]);
        i = i + 1;
    }
    proof {
        assert(cands@.subrange(cands@.len() as int, cands@.len() as int) =~= Seq::<(i32, i32)>::empty());
    }
}

fn all_steps_vec() -> (v: Vec<(i32, i32)>)
    ensures
        v@ == all_steps(),
{
    let v = vec![(-1, -1), (0, -1), (1, -1), (-1, 0), (1, 0), (-1, 1), (0, 1), (1, 1)];
    assert(v@ =~= all_steps());
    v
}

fn signum(v: i32) -> (s: i32)
    ensures
        s == sign(v as int),
{
    if v > 0 {
        1
    } else if v < 0 {
        -1
    } else {
        0
    }
}

/// The steps a creature tries toward a target `(dx, dy)` away: straight at it,
/// then along each axis, then the sidesteps and retreats, then any step left.
pub open spec fn toward_steps_spec(dx: int, dy: int) -> Seq<(i32, i32)> {
    let sx = sign(dx) as i32;
    let sy = sign(dy) as i32;
    let nsx = (-sign(dx)) as i32;
    let nsy = (-sign(dy)) as i32;
    add_steps(
        add_steps(Seq::empty(), seq![(sx, sy), (sx, 0i32), (0i32, sy), (nsx, sy), (sx, nsy), (nsx, 0i32), (0i32, nsy), (nsx, nsy)]),
        all_steps(),
    )
}

/// The steps a creature tries toward a target `(dx, dy)` away.
pub fn enemy_move_directions_toward(dx: i32, dy: i32) -> (dirs: Vec<(i32, i32)>)
    ensures
        dirs@ == toward_steps_spec(dx as int, dy as int),
{
    let sx = signum(dx);
    let sy = signum(dy);
    let nsx = -sx;
    let nsy = -sy;
    let first = vec![(sx, sy), (sx, 0), (0, sy), (nsx, sy), (sx, nsy), (nsx, 0), (0, nsy), (nsx, nsy)];
    let mut dirs: Vec<(i32, i32)> = Vec::new();
    push_steps(&mut dirs, &first);
    let rest = all_steps_vec();
    push_steps(&mut dirs, &rest);
    assert(first@ =~= seq![(sx, sy), (sx, 0i32), (0i32, sy), (nsx, sy), (sx, nsy), (nsx, 0i32), (0i32, nsy), (nsx, nsy)]);
    dirs
}

/// The steps a fleeing creature tries, `(dx, dy)` being the way to the player:
/// straight away first, then along each axis, then the rest.
pub open spec fn flee_steps_spec(dx: int, dy: int) -> Seq<(i32, i32)> {
    let sx = sign(dx) as i32;
    let sy = sign(dy) as i32;
    let nsx = (-sign(dx)) as i32;
    let nsy = (-sign(dy)) as i32;
    add_steps(
        add_steps(Seq::empty(), seq![(nsx, nsy), (nsx, 0i32), (0i32, nsy), (sx, nsy), (nsx, sy), (sx, 0i32), (0i32, sy), (sx, sy)]),
        all_steps(),
    )
}

/// The steps a fleeing creature tries.
pub fn flee_directions(dx: i32, dy: i32) -> (dirs: Vec<(i32, i32)>)
    ensures
        dirs@ == flee_steps_spec(dx as int, dy as int),
{
    let sx = signum(dx);
    let sy = signum(dy);
    let nsx = -sx;
    let nsy = -sy;
    let first = vec![(nsx, nsy), (nsx, 0), (0, nsy), (sx, nsy), (nsx, sy), (sx, 0), (0, sy), (sx, sy)];
    let mut dirs: Vec<(i32, i32)> = Vec::new();
    push_steps(&mut dirs, &first);
    let rest = all_steps_vec();
    push_steps(&mut dirs, &rest);
    assert(first@ =~= seq![(nsx, nsy), (nsx, 0i32), (0i32, nsy), (sx, nsy), (nsx, sy), (sx, 0i32), (0i32, sy), (sx, sy)]);
    dirs
}

/// A patrolling creature steps ahead when it can; otherwise it stays and
/// turns clockwise. Gives whether it moves and its new facing.
pub fn patrol_step(facing: Facing, ahead_passable: bool) -> (r: (bool, Facing))
    ensures
        r == (if ahead_passable { (true, facing) } else { (false, clockwise_spec(facing)) }),
{
    if ahead_passable {
        (true, facing)
    } else {
        (false, rotate_facing_clockwise(facing))
    }
}

/// A traveller that is not fleeing moves only on every other turn, by the
/// parity of the turn plus its id.
pub fn traveler_rests(flee_from_player: bool, turn: u64, id: u64) -> (rest: bool)
    requires
        turn + id <= u64::MAX,
    ensures
        rest == (!flee_from_player && (turn + id) % 2 != 0),
{
    !flee_from_player && (turn + id) % 2 != 0
}

// ---------------------------------------------------------------------------
// Blows
// ---------------------------------------------------------------------------

/// Frames to wait before showing the `order`-th creature blow of a turn: four,
/// then six more per earlier blow, at most 255.
pub fn attack_delay_frames(order: u16) -> (d: u8)
    requires
        order <= 10_000,
    ensures
        d == (if 4 + 6 * order < 255 { 4 + 6 * order } else { 255 }),
{
    let delay: u16 = 4 + order * 6;
    if delay < 255 {
        delay as u8
    } else {
        255
    }
}

/// Attack of a creature: its base, its surroundings' bonus and its weapon.
pub open spec fn enemy_attack_spec(base: i32, bonus: i32, weapon: Option<Item>) -> int {
    base + bonus + match weapon {
        Some(w) => item_attack_bonus_spec(w) as int,
        None => 0,
    }
}

/// Damage a creature's blow deals to the player.
pub fn enemy_melee_damage(base_attack: i32, damage_bonus: i32, weapon: Option<Item>, player_defense: i32) -> (d: i32)
    requires
        i32::MIN <= base_attack + damage_bonus <= i32::MAX,
        i32::MIN <= enemy_attack_spec(base_attack, damage_bonus, weapon) <= i32::MAX,
        i32::MIN <= enemy_attack_spec(base_attack, damage_bonus, weapon) - player_defense <= i32::MAX,
    ensures
        d == (if enemy_attack_spec(base_attack, damage_bonus, weapon) - player_defense > 1 {
            enemy_attack_spec(base_attack, damage_bonus, weapon) - player_defense
        } else {
            1
        }),
{
    let w = match weapon {
        Some(it) => item_attack_bonus(it),
        None => 0,
    };
    let atk = base_attack + damage_bonus + w;
    calc_damage(atk, player_defense)
}

/// How a melee blow against a creature ends.
#[derive(Clone, Copy, Debug, PartialEq, Eq, Structural)]
pub enum MeleeOutcome {
    /// The creature evaded.
    Evaded,
    /// The blow landed for `damage`; the creature has `hp_left`.
    Hit { damage: i32, hp_left: i32 },
}

/// The player's melee blow: the creature evades with the chance the two
/// agilities give, else it takes attack minus defence (at least one).
pub fn resolve_player_melee(
    attack: i32,
    agility: i32,
    enemy_defense: i32,
    enemy_agility: i32,
    enemy_hp: i32,
    rng_state: &mut u64,
) -> (o: MeleeOutcome)
    requires
        evade_fits(agility as int, enemy_agility as int),
        i32::MIN <= attack - enemy_defense <= i32::MAX,
        i32::MIN <= enemy_hp - (if attack - enemy_defense > 1 { attack - enemy_defense } else { 1 }),
    ensures
        ({
            let chance = evade_chance_spec(agility as int, enemy_agility as int) as u8;
            let dmg: int = if attack - enemy_defense > 1 { attack - enemy_defense } else { 1 };
            &&& *final(rng_state) == roll_state(*old(rng_state), chance)
            &&& o == (if roll_hits(*old(rng_state), chance) {
                MeleeOutcome::Evaded
            } else {
                MeleeOutcome::Hit { damage: dmg as i32, hp_left: (enemy_hp - dmg) as i32 }
            })
        }),
{
    let chance = evade_chance_percent(agility, enemy_agility);
    if roll_percent(rng_state, chance) {
        return MeleeOutcome::Evaded;
    }
    let damage = calc_damage(attack, enemy_defense);
    MeleeOutcome::Hit { damage, hp_left: enemy_hp - damage }
}

// ---------------------------------------------------------------------------
// Breaking things
// ---------------------------------------------------------------------------

/// The object the player has been hitting, and how many blows it took.
#[derive(Clone, Copy, Debug, PartialEq, Eq, Structural)]
pub struct HarvestState {
    pub target_x: i32,
    pub target_y: i32,
    pub hits: u8,
}

/// A blow against the object at `(x, y)` that breaks after `durability`
/// blows: the count goes on when the same object was hit last, else starts at
/// one. Gives the count, whether the object breaks, and what is remembered.
pub open spec fn harvest_spec(state: Option<HarvestState>, x: i32, y: i32, durability: u8) -> (u8, bool, Option<HarvestState>) {
    let hits: u8 = match state {
        Some(s) => if s.target_x == x && s.target_y == y { s.hits.saturating_add(1) } else { 1 },
        None => 1,
    };
    (hits, hits >= durability, if hits >= durability { None } else { Some(HarvestState { target_x: x, target_y: y, hits }) })
}

/// A blow against the object at `(x, y)` (see `harvest_spec`).
pub fn harvest_hit(state: Option<HarvestState>, x: i32, y: i32, durability: u8) -> (r: (u8, bool, Option<HarvestState>))
    ensures
        r == harvest_spec(state, x, y, durability),
{
    let hits: u8 = match state {
        Some(s) => if s.target_x == x && s.target_y == y {
            s.hits.saturating_add(1)
        } else {
            1
        },
        None => 1,
    };
    if hits >= durability {
        (hits, true, None)
    } else {
        (hits, false, Some(HarvestState { target_x: x, target_y: y, hits }))
    }
}

/// Law: a blow counts on from the remembered count only when it lands on
/// the very object remembered (both coordinates); against any other object,
/// or with nothing remembered, the count starts at one. The object breaks
/// exactly when the count reaches its durability; then nothing is
/// remembered, else the object and its count are.
pub proof fn lemma_harvest_counts_per_object(state: Option<HarvestState>, x: i32, y: i32, durability: u8)
    ensures
        ({
            let r = harvest_spec(state, x, y, durability);
            &&& (state matches Some(s) && s.target_x == x && s.target_y == y) ==> r.0 == (if state.unwrap().hits
                == 255 {
                255
            } else {
                state.unwrap().hits + 1
            })
            &&& !(state matches Some(s) && s.target_x == x && s.target_y == y) ==> r.0 == 1
            &&& r.1 == (r.0 >= durability)
            &&& r.2 == (if r.1 {
                None
            } else {
                Some(HarvestState { target_x: x, target_y: y, hits: r.0 })
            })
        }),
{
}

/// `n` blows in a row against the object at `(x, y)`, starting fresh:
/// whether the last one broke it, and what is remembered.
pub open spec fn harvest_run(x: i32, y: i32, durability: u8, n: nat) -> (bool, Option<HarvestState>)
    decreases n,
{
    if n == 0 {
        (false, None)
    } else {
        let prev = harvest_run(x, y, durability, (n - 1) as nat);
        let r = harvest_spec(prev.1, x, y, durability);
        (r.1, r.2)
    }
}

/// Law: blows in a row against one object break it exactly at the
/// `durability`-th blow; before that the count of blows is remembered.
pub proof fn lemma_harvest_breaks_after_durability(x: i32, y: i32, durability: u8, n: nat)
    requires
        1 <= n <= durability,
    ensures
        harvest_run(x, y, durability, n).0 == (n == durability),
        n < durability ==> harvest_run(x, y, durability, n).1 == Some(HarvestState { target_x: x, target_y: y, hits: n as u8 }),
    decreases n,
{
    if n > 1 {
        lemma_harvest_breaks_after_durability(x, y, durability, (n - 1) as nat);
        let h: u8 = (n - 1) as u8;
        assert(h.saturating_add(1) == n as u8);
        assert(harvest_run(x, y, durability, n) == ({
            let r = harvest_spec(Some(HarvestState { target_x: x, target_y: y, hits: h }), x, y, durability);
            (r.1, r.2)
        }));
    } else {
        assert(harvest_run(x, y, durability, 0) == (false, Option::<HarvestState>::None));
        assert(harvest_run(x, y, durability, 1) == ({
            let r = harvest_spec(None, x, y, durability);
            (r.1, r.2)
        }));
    }
}

/// Whether a broken object leaves its item: a roll of `drop_chance`
/// percent, drawn only when nothing lies on the spot.
pub fn broken_object_drops(spot_free: bool, drop_chance: u8, rng_state: &mut u64) -> (d: bool)
    ensures
        !spot_free ==> !d && *final(rng_state) == *old(rng_state),
        spot_free ==> *final(rng_state) == lcg_next(*old(rng_state)) && d == (rand_spec(*old(rng_state)) % 100 < drop_chance),
{
    if !spot_free {
        return false;
    }
    rand_u32(rng_state) % 100 < drop_chance as u32
}

// ---------------------------------------------------------------------------
// A creature's turn
// ---------------------------------------------------------------------------

/// How far creatures look for a way to the player, in cells.
pub const ENEMY_PATHFIND_MAX_RADIUS: i32 = 24;

/// Position of neighbour step `d` in the row-by-row list of the eight
/// neighbours (`all_steps`).
pub open spec fn neighbor_index(d: (i32, i32)) -> int {
    let k = (d.1 + 1) * 3 + (d.0 + 1);
    if k > 4 { k - 1 } else { k }
}

/// The first step of `dirs` whose neighbour is free, if any.
pub open spec fn first_free(dirs: Seq<(i32, i32)>, free: Seq<bool>) -> Option<(i32, i32)>
    decreases dirs.len(),
{
    if dirs.len() == 0 {
        None
    } else if free[neighbor_index(dirs[0])] {
        Some(dirs[0])
    } else {
        first_free(dirs.subrange(1, dirs.len() as int), free)
    }
}

/// What a creature does with its turn.
#[derive(Clone, Copy, Debug, PartialEq, Eq, Structural)]
pub enum EnemyAction {
    /// The world tries the creature's ranged arts first; when none takes
    /// effect, it asks again with the arts tried.
    TrySpecials,
    /// The creature strikes the player next to it.
    Melee,
    /// The creature waits this turn.
    Rest,
    /// The creature steps by `(dx, dy)` and then faces `facing`.
    Step { dx: i32, dy: i32, facing: Facing },
    /// The creature stays and turns to `facing`.
    Turn(Facing),
    /// The creature looks for a way to the player around obstacles.
    Pathfind,
    /// The creature stays where it is.
    Stay,
}

/// What a creature in the player's sight range is: a hostile, a traveller
/// (who may be fleeing), or neither; its facing and entity id.
#[derive(Clone, Copy, Debug, PartialEq, Eq, Structural)]
pub struct EnemySense {
    pub hostile: bool,
    pub traveler: bool,
    pub flee: bool,
    pub facing: Facing,
    pub id: u64,
}

/// Patrolling: a step ahead when the cell ahead is free, else a clockwise
/// turn.
pub open spec fn patrol_spec(facing: Facing, free: Seq<bool>) -> EnemyAction {
    let d = facing.delta_spec();
    if free[neighbor_index(d)] {
        EnemyAction::Step { dx: d.0, dy: d.1, facing }
    } else {
        EnemyAction::Turn(clockwise_spec(facing))
    }
}

/// The creature's turn, `(dx, dy)` being the way to the player and `sees`
/// whether the creature has a clear line to the player:
/// a hostile that sees the player two to five cells away tries its arts
/// first; a hostile next to the player strikes; a traveller rests on every
/// other turn unless fleeing, flees by the first free step away, or else
/// patrols; any other creature patrols while the player is out of sight
/// (more than seven cells away or hidden), finds a way when the player is
/// within 24 cells, and else takes the first free step toward the player.
pub open spec fn enemy_turn_spec(e: EnemySense, dx: int, dy: int, sees: bool, arts_tried: bool, turn: u64, free: Seq<bool>) -> EnemyAction {
    let dist2 = dx * dx + dy * dy;
    let cheb = if abs_spec(dx) > abs_spec(dy) { abs_spec(dx) } else { abs_spec(dy) };
    let visible = dist2 <= 49 && sees;
    if e.hostile && visible && 2 <= cheb <= 5 && !arts_tried {
        EnemyAction::TrySpecials
    } else if e.hostile && cheb == 1 {
        EnemyAction::Melee
    } else if e.traveler {
        if !e.flee && (turn + e.id) % 2 != 0 {
            EnemyAction::Rest
        } else if e.flee {
            match first_free(flee_steps_spec(dx, dy), free) {
                Some(d) => EnemyAction::Step { dx: d.0, dy: d.1, facing: facing_of_step(d) },
                None => EnemyAction::Stay,
            }
        } else {
            patrol_spec(e.facing, free)
        }
    } else if !visible {
        patrol_spec(e.facing, free)
    } else if dist2 <= 576 {
        EnemyAction::Pathfind
    } else {
        match first_free(toward_steps_spec(dx, dy), free) {
            Some(d) => EnemyAction::Step { dx: d.0, dy: d.1, facing: e.facing },
            None => EnemyAction::Stay,
        }
    }
}

/// `|v|`.
pub open spec fn abs_spec(v: int) -> int {
    if v < 0 { -v } else { v }
}

/// The facing of a neighbour step.
pub open spec fn facing_of_step(d: (i32, i32)) -> Facing {
    if d.1 < 0 {
        if d.0 < 0 { Facing::NW } else if d.0 == 0 { Facing::N } else { Facing::NE }
    } else if d.1 == 0 {
        if d.0 < 0 { Facing::W } else { Facing::E }
    } else {
        if d.0 < 0 { Facing::SW } else if d.0 == 0 { Facing::S } else { Facing::SE }
    }
}

/// Whether a list of steps holds only the eight neighbour steps.
pub open spec fn unit_steps(dirs: Seq<(i32, i32)>) -> bool {
    forall|i: int| 0 <= i < dirs.len() ==> -1 <= #[trigger] dirs[i].0 <= 1 && -1 <= dirs[i].1 <= 1 && !(dirs[i].0 == 0 && dirs[i].1 == 0)
}

proof fn lemma_add_steps_unit(acc: Seq<(i32, i32)>, cands: Seq<(i32, i32)>)
    requires
        unit_steps(acc),
        forall|i: int| 0 <= i < cands.len() ==> -1 <= #[trigger] cands[i].0 <= 1 && -1 <= cands[i].1 <= 1,
    ensures
        unit_steps(add_steps(acc, cands)),
    decreases cands.len(),
{
    if cands.len() > 0 {
        let c = cands[0];
        let acc2 = if c != (0i32, 0i32) && !acc.contains(c) { acc.push(c) } else { acc };
        assert(unit_steps(acc2));
        let rest = cands.subrange(1, cands.len() as int);
        assert forall|i: int| 0 <= i < rest.len() implies -1 <= #[trigger] rest[i].0 <= 1 && -1 <= rest[i].1 <= 1 by {
            assert(rest[i] == cands[i + 1]);
        }
        lemma_add_steps_unit(acc2, rest);
    }
}

/// The first step of `dirs` whose neighbour is free.
fn first_free_step(dirs: &Vec<(i32, i32)>, free: &Vec<bool>) -> (r: Option<(i32, i32)>)
    requires
        free@.len() == 8,
        unit_steps(dirs@),
    ensures
        r == first_free(dirs@, free@),
{
    let mut i: usize = 0;
    assert(dirs@.subrange(0, dirs@.len() as int) =~= dirs@);
    while i < dirs.len()
        invariant
            i <= dirs@.len(),
            free@.len() == 8,
            unit_steps(dirs@),
            first_free(dirs@, free@) == first_free(dirs@.subrange(i as int, dirs@.len() as int), free@),
        decreases dirs@.len() - i,
    {
        let ghost rest = dirs@.subrange(i as int, dirs@.len() as int);
        assert(rest.subrange(1, rest.len() as int) =~= dirs@.subrange(i + 1, dirs@.len() as int));
        assert(rest[0] == dirs@[i as int]);
        let d = dirs[i];
        let k = ((d.1 + 1) * 3 + (d.0 + 1)) as usize;
        let k = if k > 4 { k - 1 } else { k };
        assert(k as int == neighbor_index(d));
        if free[k] {
            return Some(d);
        }
        i = i + 1;
    }
    proof {
        assert(dirs@.subrange(dirs@.len() as int, dirs@.len() as int).len() == 0);
    }
    None
}

fn patrol_action(facing: Facing, free: &Vec<bool>) -> (a: EnemyAction)
    requires
        free@.len() == 8,
    ensures
        a == patrol_spec(facing, free@),
{
    let (mx, my) = facing.delta();
    let k = ((my + 1) * 3 + (mx + 1)) as usize;
    let k = if k > 4 { k - 1 } else { k };
    let (moves, nf) = patrol_step(facing, free[k]);
    if moves {
        EnemyAction::Step { dx: mx, dy: my, facing }
    } else {
        EnemyAction::Turn(nf)
    }
}

pub(crate) fn step_facing(d: (i32, i32)) -> (f: Facing)
    ensures
        f == facing_of_step(d),
{
    if d.1 < 0 {
        if d.0 < 0 { Facing::NW } else if d.0 == 0 { Facing::N } else { Facing::NE }
    } else if d.1 == 0 {
        if d.0 < 0 { Facing::W } else { Facing::E }
    } else {
        if d.0 < 0 { Facing::SW } else if d.0 == 0 { Facing::S } else { Facing::SE }
    }
}

/// Decides a creature's turn (see `enemy_turn_spec`). `free` tells, for the
/// eight neighbours row by row from the top left, whether the creature may
/// step there: a walkable tile with no structure, creature or player.
pub fn enemy_turn(e: EnemySense, dx: i32, dy: i32, sees: bool, arts_tried: bool, turn: u64, free: &Vec<bool>) -> (a: EnemyAction)
    requires
        free@.len() == 8,
        -65536 <= dx <= 65536,
        -65536 <= dy <= 65536,
        turn + e.id <= u64::MAX,
    ensures
        a == enemy_turn_spec(e, dx as int, dy as int, sees, arts_tried, turn, free@),
{
    let x = dx as i64;
    let y = dy as i64;
    assert(0 <= x * x <= 65536 * 65536) by (nonlinear_arith)
        requires
            -65536 <= x <= 65536,
    ;
    assert(0 <= y * y <= 65536 * 65536) by (nonlinear_arith)
        requires
            -65536 <= y <= 65536,
    ;
    let dist2 = x * x + y * y;
    let ax = if x < 0 { -x } else { x };
    let ay = if y < 0 { -y } else { y };
    let cheb = if ax > ay { ax } else { ay };
    let visible = dist2 <= 49 && sees;
    if e.hostile && visible && 2 <= cheb && cheb <= 5 && !arts_tried {
        return EnemyAction::TrySpecials;
    }
    if e.hostile && cheb == 1 {
        return EnemyAction::Melee;
    }
    if e.traveler {
        if traveler_rests(e.flee, turn, e.id) {
            return EnemyAction::Rest;
        }
        if e.flee {
            let dirs = flee_directions(dx, dy);
            proof {
                lemma_flee_unit(dx as int, dy as int);
            }
            return match first_free_step(&dirs, free) {
                Some(d) => EnemyAction::Step { dx: d.0, dy: d.1, facing: step_facing(d) },
                None => EnemyAction::Stay,
            };
        }
        return patrol_action(e.facing, free);
    }
    if !visible {
        return patrol_action(e.facing, free);
    }
    if dist2 <= 576 {
        return EnemyAction::Pathfind;
    }
    let dirs = enemy_move_directions_toward(dx, dy);
    proof {
        lemma_toward_unit(dx as int, dy as int);
    }
    match first_free_step(&dirs, free) {
        Some(d) => EnemyAction::Step { dx: d.0, dy: d.1, facing: e.facing },
        None => EnemyAction::Stay,
    }
}

proof fn lemma_all_steps_unit()
    ensures
        forall|i: int| 0 <= i < all_steps().len() ==> -1 <= #[trigger] all_steps()[i].0 <= 1 && -1 <= all_steps()[i].1 <= 1,
{
}

proof fn lemma_flee_unit(dx: int, dy: int)
    ensures
        unit_steps(flee_steps_spec(dx, dy)),
{
    let sx = sign(dx) as i32;
    let sy = sign(dy) as i32;
    let nsx = (-sign(dx)) as i32;
    let nsy = (-sign(dy)) as i32;
    let first = seq![(nsx, nsy), (nsx, 0i32), (0i32, nsy), (sx, nsy), (nsx, sy), (sx, 0i32), (0i32, sy), (sx, sy)];
    assert(unit_steps(Seq::<(i32, i32)>::empty()));
    lemma_add_steps_unit(Seq::empty(), first);
    lemma_all_steps_unit();
    lemma_add_steps_unit(add_steps(Seq::empty(), first), all_steps());
}

proof fn lemma_toward_unit(dx: int, dy: int)
    ensures
        unit_steps(toward_steps_spec(dx, dy)),
{
    let sx = sign(dx) as i32;
    let sy = sign(dy) as i32;
    let nsx = (-sign(dx)) as i32;
    let nsy = (-sign(dy)) as i32;
    let first = seq![(sx, sy), (sx, 0i32), (0i32, sy), (nsx, sy), (sx, nsy), (nsx, 0i32), (0i32, nsy), (nsx, nsy)];
    assert(unit_steps(Seq::<(i32, i32)>::empty()));
    lemma_add_steps_unit(Seq::empty(), first);
    lemma_all_steps_unit();
    lemma_add_steps_unit(add_steps(Seq::empty(), first), all_steps());
}

// ---------------------------------------------------------------------------
// Finding a way to the player
// ---------------------------------------------------------------------------

/// Cells per side of the square a creature searches for a way: 24 cells
/// each way around it.
pub const PATH_SIDE: usize = 49;

/// Cells of that square.
pub const PATH_CELLS: usize = 2401;

/// Index of offset `(x, y)` in the search square, row by row.
pub open spec fn path_idx(x: int, y: int) -> int {
    (y + 24) * 49 + (x + 24)
}

/// Chebyshev distance between two offsets.
pub open spec fn cheb_dist(x: int, y: int) -> int {
    if abs_spec(x) > abs_spec(y) { abs_spec(x) } else { abs_spec(y) }
}

/// The breadth-first search from the creature, `q` being its queue of
/// `(x, y, first step x, first step y, depth)` entries (offsets from the
/// creature; a first step of `(0, 0)` marks the creature's own cell), `vis`
/// the cells already reached, processing entry `head` from direction `k`
/// on, with `fuel` entries left to process. Entries at depth 24 are not
/// expanded; each new cell within 24 cells that is free and not reached
/// joins the queue; the first new cell next to the player (the player at
/// offset `(px, py)`) ends the search with that cell's first step.
pub open spec fn bfs_spec(
    q: Seq<(i32, i32, i32, i32, u8)>,
    vis: Seq<bool>,
    head: int,
    k: int,
    fuel: nat,
    dirs: Seq<(i32, i32)>,
    free: Seq<bool>,
    px: int,
    py: int,
) -> Option<(i32, i32)>
    decreases fuel, if 0 <= k < dirs.len() { dirs.len() - k } else { 0 },
{
    if fuel == 0 || head < 0 || head >= q.len() {
        None
    } else if k < 0 || k >= dirs.len() || q[head].4 >= 24 {
        bfs_spec(q, vis, head + 1, 0, (fuel - 1) as nat, dirs, free, px, py)
    } else {
        let e = q[head];
        let d = dirs[k];
        let nx = e.0 + d.0;
        let ny = e.1 + d.1;
        if nx < -24 || nx > 24 || ny < -24 || ny > 24 || vis[path_idx(nx, ny)] || !free[path_idx(nx, ny)] {
            bfs_spec(q, vis, head, k + 1, fuel, dirs, free, px, py)
        } else {
            let step: (i32, i32) = if e.2 == 0 && e.3 == 0 { d } else { (e.2, e.3) };
            if cheb_dist(px - nx, py - ny) == 1 {
                Some(step)
            } else {
                bfs_spec(
                    q.push((nx as i32, ny as i32, step.0, step.1, (e.4 + 1) as u8)),
                    vis.update(path_idx(nx, ny), true),
                    head,
                    k + 1,
                    fuel,
                    dirs,
                    free,
                    px,
                    py,
                )
            }
        }
    }
}

/// A search whose queue holds only unit first steps, trying only unit
/// steps, finds a unit step.
proof fn lemma_bfs_unit(
    q: Seq<(i32, i32, i32, i32, u8)>,
    vis: Seq<bool>,
    head: int,
    k: int,
    fuel: nat,
    dirs: Seq<(i32, i32)>,
    free: Seq<bool>,
    px: int,
    py: int,
)
    requires
        queue_ok(q),
        unit_steps(dirs),
    ensures
        bfs_spec(q, vis, head, k, fuel, dirs, free, px, py) matches Some(s) ==> -1 <= s.0 <= 1 && -1 <= s.1 <= 1,
    decreases fuel, if 0 <= k < dirs.len() { dirs.len() - k } else { 0 },
{
    if fuel == 0 || head < 0 || head >= q.len() {
    } else if k < 0 || k >= dirs.len() || q[head].4 >= 24 {
        lemma_bfs_unit(q, vis, head + 1, 0, (fuel - 1) as nat, dirs, free, px, py);
    } else {
        let e = q[head];
        let d = dirs[k];
        let nx = e.0 + d.0;
        let ny = e.1 + d.1;
        if nx < -24 || nx > 24 || ny < -24 || ny > 24 || vis[path_idx(nx, ny)] || !free[path_idx(nx, ny)] {
            lemma_bfs_unit(q, vis, head, k + 1, fuel, dirs, free, px, py);
        } else {
            let step: (i32, i32) = if e.2 == 0 && e.3 == 0 { d } else { (e.2, e.3) };
            if cheb_dist(px - nx, py - ny) == 1 {
            } else {
                let q2 = q.push((nx as i32, ny as i32, step.0, step.1, (e.4 + 1) as u8));
                assert(queue_ok(q2)) by {
                    assert forall|i: int| 0 <= i < q2.len() implies -24 <= #[trigger] q2[i].0 <= 24 && -24 <= q2[i].1 <= 24
                        && q2[i].4 <= 24 && -1 <= q2[i].2 <= 1 && -1 <= q2[i].3 <= 1 by {
                        if i < q.len() {
                            assert(q2[i] == q[i]);
                        }
                    }
                }
                lemma_bfs_unit(q2, vis.update(path_idx(nx, ny), true), head, k + 1, fuel, dirs, free, px, py);
            }
        }
    }
}

/// The step the search finds is a unit step.
pub proof fn lemma_path_step_unit(dx: int, dy: int, free: Seq<bool>)
    ensures
        path_step_spec(dx, dy, free) matches Some(s) ==> -1 <= s.0 <= 1 && -1 <= s.1 <= 1,
{
    lemma_toward_unit(dx, dy);
    let q = seq![(0i32, 0i32, 0i32, 0i32, 0u8)];
    assert(queue_ok(q)) by {
        assert forall|i: int| 0 <= i < q.len() implies -24 <= #[trigger] q[i].0 <= 24 && -24 <= q[i].1 <= 24
            && q[i].4 <= 24 && -1 <= q[i].2 <= 1 && -1 <= q[i].3 <= 1 by {
            assert(q[i] == (0i32, 0i32, 0i32, 0i32, 0u8));
        }
    }
    lemma_bfs_unit(q, start_visits(), 0, 0, 2401, toward_steps_spec(dx, dy), free, dx, dy);
}

/// The first free step of a list of unit steps is a unit step.
proof fn lemma_first_free_unit(dirs: Seq<(i32, i32)>, free: Seq<bool>)
    requires
        unit_steps(dirs),
    ensures
        first_free(dirs, free) matches Some(s) ==> -1 <= s.0 <= 1 && -1 <= s.1 <= 1,
    decreases dirs.len(),
{
    if dirs.len() > 0 && !free[neighbor_index(dirs[0])] {
        let rest = dirs.subrange(1, dirs.len() as int);
        assert forall|i: int| 0 <= i < rest.len() implies -1 <= #[trigger] rest[i].0 <= 1 && -1 <= rest[i].1 <= 1
            && !(rest[i].0 == 0 && rest[i].1 == 0) by {
            assert(rest[i] == dirs[i + 1]);
        }
        lemma_first_free_unit(rest, free);
    }
}

/// Every step a creature's turn takes is a unit step.
pub proof fn lemma_turn_step_unit(e: EnemySense, dx: int, dy: int, sees: bool, arts_tried: bool, turn: u64, free: Seq<bool>)
    ensures
        enemy_turn_spec(e, dx, dy, sees, arts_tried, turn, free) matches EnemyAction::Step { dx: mx, dy: my, .. }
            ==> -1 <= mx <= 1 && -1 <= my <= 1,
{
    lemma_flee_unit(dx, dy);
    lemma_toward_unit(dx, dy);
    lemma_first_free_unit(flee_steps_spec(dx, dy), free);
    lemma_first_free_unit(toward_steps_spec(dx, dy), free);
}

/// The search square with only the creature's own cell reached.
pub open spec fn start_visits() -> Seq<bool> {
    Seq::new(2401, |i: int| i == 1200)
}

/// Entries of a search queue stay inside the square and within depth 24.
pub open spec fn queue_ok(q: Seq<(i32, i32, i32, i32, u8)>) -> bool {
    forall|i: int| 0 <= i < q.len() ==> -24 <= #[trigger] q[i].0 <= 24 && -24 <= q[i].1 <= 24 && q[i].4 <= 24
        && -1 <= q[i].2 <= 1 && -1 <= q[i].3 <= 1
}

/// The first step of a way from a creature to a cell next to the player,
/// found by a breadth-first search over the 49-by-49 square around the
/// creature (see `bfs_spec`), trying the steps toward the player first.
/// `(dx, dy)` is the way to the player; `free` tells for each cell of the
/// square, row by row, whether the creature may stand there.
/// The step the search around obstacles finds toward the player at
/// `(dx, dy)` (see `find_enemy_next_step`).
pub open spec fn path_step_spec(dx: int, dy: int, free: Seq<bool>) -> Option<(i32, i32)> {
    bfs_spec(seq![(0i32, 0i32, 0i32, 0i32, 0u8)], start_visits(), 0, 0, 2401, toward_steps_spec(dx, dy), free, dx, dy)
}

pub fn find_enemy_next_step(dx: i32, dy: i32, free: &Vec<bool>) -> (r: Option<(i32, i32)>)
    requires
        free@.len() == PATH_CELLS,
        -65536 <= dx <= 65536,
        -65536 <= dy <= 65536,
    ensures
        r == bfs_spec(
            seq![(0i32, 0i32, 0i32, 0i32, 0u8)],
            start_visits(),
            0,
            0,
            2401,
            toward_steps_spec(dx as int, dy as int),
            free@,
            dx as int,
            dy as int,
        ),
{
    let dirs = enemy_move_directions_toward(dx, dy);
    proof {
        lemma_toward_unit(dx as int, dy as int);
    }
    let ghost ds = dirs@;
    let mut q: Vec<(i32, i32, i32, i32, u8)> = Vec::new();
    q.push((0, 0, 0, 0, 0));
    let mut vis: Vec<bool> = Vec::new();
    let mut i: usize = 0;
    while i < PATH_CELLS
        invariant
            i <= PATH_CELLS,
            vis@.len() == i,
            forall|j: int| 0 <= j < i ==> vis@[j] == (j == 1200),
        decreases PATH_CELLS - i,
    {
        vis.push(i == 1200);
        i = i + 1;
    }
    assert(vis@ =~= start_visits());
    assert(q@ =~= seq![(0i32, 0i32, 0i32, 0i32, 0u8)]);
    let ghost total = bfs_spec(q@, vis@, 0, 0, 2401, ds, free@, dx as int, dy as int);
    assert(ds == toward_steps_spec(dx as int, dy as int));
    let mut head: usize = 0;
    let mut fuel: u64 = 2401;
    while head < q.len() && fuel > 0
        invariant
            free@.len() == PATH_CELLS,
            vis@.len() == PATH_CELLS,
            ds == dirs@,
            unit_steps(ds),
            queue_ok(q@),
            -65536 <= dx <= 65536,
            -65536 <= dy <= 65536,
            total == bfs_spec(q@, vis@, head as int, 0, fuel as nat, ds, free@, dx as int, dy as int),
            total == bfs_spec(seq![(0i32, 0i32, 0i32, 0i32, 0u8)], start_visits(), 0, 0, 2401, toward_steps_spec(dx as int, dy as int), free@, dx as int, dy as int),
        decreases fuel,
    {
        let e = q[head];
        if e.4 < 24 {
            let mut k: usize = 0;
            while k < dirs.len()
                invariant
                    free@.len() == PATH_CELLS,
                    vis@.len() == PATH_CELLS,
                    ds == dirs@,
                    unit_steps(ds),
                    queue_ok(q@),
                    head < q@.len(),
                    fuel > 0,
                    e == q@[head as int],
                    e.4 < 24,
                    k <= dirs@.len(),
                    -65536 <= dx <= 65536,
                    -65536 <= dy <= 65536,
                    total == bfs_spec(q@, vis@, head as int, k as int, fuel as nat, ds, free@, dx as int, dy as int),
                    total == bfs_spec(seq![(0i32, 0i32, 0i32, 0i32, 0u8)], start_visits(), 0, 0, 2401, toward_steps_spec(dx as int, dy as int), free@, dx as int, dy as int),
                decreases dirs@.len() - k,
            {
                let d = dirs[k];
                let nx = e.0 + d.0;
                let ny = e.1 + d.1;
                if nx < -24 || nx > 24 || ny < -24 || ny > 24 {
                    k = k + 1;
                    continue;
                }
                let idx = ((ny + 24) * 49 + (nx + 24)) as usize;
                assert(idx as int == path_idx(nx as int, ny as int));
                if vis[idx] || !free[idx] {
                    k = k + 1;
                    continue;
                }
                let step: (i32, i32) = if e.2 == 0 && e.3 == 0 { d } else { (e.2, e.3) };
                let gx = dx as i64 - nx as i64;
                let gy = dy as i64 - ny as i64;
                let ax = if gx < 0 { -gx } else { gx };
                let ay = if gy < 0 { -gy } else { gy };
                let c = if ax > ay { ax } else { ay };
                assert(cheb_dist(dx as int - nx as int, dy as int - ny as int) == c as int);
                if c == 1 {
                    assert(bfs_spec(q@, vis@, head as int, k as int, fuel as nat, ds, free@, dx as int, dy as int) == Some(step));
                    return Some(step);
                }
                let ghost oq = q@;
                q.push((nx, ny, step.0, step.1, e.4 + 1));
                vis.set(idx, true);
                assert(q@ == oq.push((nx, ny, step.0, step.1, (e.4 + 1) as u8)));
                k = k + 1;
            }
        }
        head = head + 1;
        fuel = fuel - 1;
    }
    None
}

/// Number of cells marked in `s`.
pub open spec fn count_marked(s: Seq<bool>) -> nat
    decreases s.len(),
{
    if s.len() == 0 {
        0
    } else {
        count_marked(s.drop_last()) + if s.last() { 1nat } else { 0nat }
    }
}

proof fn lemma_count_marked_bound(s: Seq<bool>)
    ensures
        count_marked(s) <= s.len(),
    decreases s.len(),
{
    if s.len() > 0 {
        lemma_count_marked_bound(s.drop_last());
    }
}

proof fn lemma_count_marked_update(s: Seq<bool>, i: int)
    requires
        0 <= i < s.len(),
        !s[i],
    ensures
        count_marked(s.update(i, true)) == count_marked(s) + 1,
    decreases s.len(),
{
    let t = s.update(i, true);
    if i == s.len() - 1 {
        assert(t.drop_last() =~= s.drop_last());
    } else {
        assert(t.drop_last() =~= s.drop_last().update(i, true));
        lemma_count_marked_update(s.drop_last(), i);
    }
}

proof fn lemma_count_start_prefix(m: int)
    requires
        0 <= m <= 2401,
    ensures
        count_marked(start_visits().subrange(0, m)) == if m > 1200 { 1nat } else { 0nat },
    decreases m,
{
    if m > 0 {
        lemma_count_start_prefix(m - 1);
        assert(start_visits().subrange(0, m).drop_last() =~= start_visits().subrange(0, m - 1));
    }
}

/// With the queue as long as the cells reached, the search gives the same
/// result for every budget that covers the rest of the square.
proof fn lemma_bfs_budget(
    q: Seq<(i32, i32, i32, i32, u8)>,
    vis: Seq<bool>,
    head: int,
    k: int,
    f1: nat,
    f2: nat,
    dirs: Seq<(i32, i32)>,
    free: Seq<bool>,
    px: int,
    py: int,
)
    requires
        vis.len() == 2401,
        count_marked(vis) == q.len(),
        queue_ok(q),
        unit_steps(dirs),
        0 <= head,
        0 <= k,
        f1 + head >= 2401,
        f2 + head >= 2401,
    ensures
        bfs_spec(q, vis, head, k, f1, dirs, free, px, py) == bfs_spec(q, vis, head, k, f2, dirs, free, px, py),
    decreases 2401 - head, if k < dirs.len() { dirs.len() - k } else { 0 },
{
    lemma_count_marked_bound(vis);
    if head >= q.len() {
        return;
    }
    assert(f1 > 0 && f2 > 0);
    if k >= dirs.len() || q[head].4 >= 24 {
        lemma_bfs_budget(q, vis, head + 1, 0, (f1 - 1) as nat, (f2 - 1) as nat, dirs, free, px, py);
    } else {
        let e = q[head];
        let d = dirs[k];
        let nx = e.0 + d.0;
        let ny = e.1 + d.1;
        if nx < -24 || nx > 24 || ny < -24 || ny > 24 || vis[path_idx(nx, ny)] || !free[path_idx(nx, ny)] {
            lemma_bfs_budget(q, vis, head, k + 1, f1, f2, dirs, free, px, py);
        } else {
            let step: (i32, i32) = if e.2 == 0 && e.3 == 0 { d } else { (e.2, e.3) };
            if cheb_dist(px - nx, py - ny) != 1 {
                let q2 = q.push((nx as i32, ny as i32, step.0, step.1, (e.4 + 1) as u8));
                let vis2 = vis.update(path_idx(nx, ny), true);
                lemma_count_marked_update(vis, path_idx(nx, ny));
                assert(queue_ok(q2)) by {
                    assert forall|i: int| 0 <= i < q2.len() implies -24 <= #[trigger] q2[i].0 <= 24 && -24 <= q2[i].1 <= 24
                        && q2[i].4 <= 24 && -1 <= q2[i].2 <= 1 && -1 <= q2[i].3 <= 1 by {
                        if i < q.len() {
                            assert(q2[i] == q[i]);
                        }
                    }
                }
                lemma_bfs_budget(q2, vis2, head, k + 1, f1, f2, dirs, free, px, py);
            }
        }
    }
}

/// The search's budget of 2401 entries never cuts it short: with any
/// larger budget it gives the same first step, since no more cells than the
/// square holds can join the queue.
pub proof fn lemma_search_budget_never_binds(dx: int, dy: int, free: Seq<bool>, fuel: nat)
    requires
        fuel >= 2401,
    ensures
        bfs_spec(seq![(0i32, 0i32, 0i32, 0i32, 0u8)], start_visits(), 0, 0, fuel, toward_steps_spec(dx, dy), free, dx, dy)
            == bfs_spec(seq![(0i32, 0i32, 0i32, 0i32, 0u8)], start_visits(), 0, 0, 2401, toward_steps_spec(dx, dy), free, dx, dy),
{
    lemma_count_start_prefix(2401);
    assert(start_visits().subrange(0, 2401) =~= start_visits());
    lemma_toward_unit(dx, dy);
    let q = seq![(0i32, 0i32, 0i32, 0i32, 0u8)];
    assert(queue_ok(q));
    lemma_bfs_budget(q, start_visits(), 0, 0, fuel, 2401, toward_steps_spec(dx, dy), free, dx, dy);
}

/// Whether a creature picks up what lies under it after its turn: a
/// traveller unless it rested, any other creature only while the player is
/// in its sight (seven cells and a clear line); never after a blow or an
/// art.
pub open spec fn picks_up_spec(e: EnemySense, dx: int, dy: int, sees: bool, action: EnemyAction) -> bool {
    let visible = dx * dx + dy * dy <= 49 && sees;
    match action {
        EnemyAction::Melee | EnemyAction::Rest | EnemyAction::TrySpecials => false,
        _ => e.traveler || visible,
    }
}

/// Whether a creature picks up the item under it after `action` (see
/// `picks_up_spec`).
pub fn creature_picks_up(e: EnemySense, dx: i32, dy: i32, sees: bool, action: EnemyAction) -> (b: bool)
    requires
        -65536 <= dx <= 65536,
        -65536 <= dy <= 65536,
    ensures
        b == picks_up_spec(e, dx as int, dy as int, sees, action),
{
    assert(0 <= dx * dx <= 0x1_0000_0000 && 0 <= dy * dy <= 0x1_0000_0000) by (nonlinear_arith)
        requires
            -65536 <= dx <= 65536,
            -65536 <= dy <= 65536,
    ;
    let d2 = dx as i64 * dx as i64 + dy as i64 * dy as i64;
    let visible = d2 <= 49 && sees;
    match action {
        EnemyAction::Melee | EnemyAction::Rest | EnemyAction::TrySpecials => false,
        _ => e.traveler || visible,
    }
}

// ---------------------------------------------------------------------------
// Creature arts
// ---------------------------------------------------------------------------

/// A creature's art at range.
#[derive(Clone, Copy, Debug, PartialEq, Eq, Structural)]
pub enum CreatureArt {
    /// A blow reaching the player for `damage` with its effects; the
    /// creature first turns to `facing`, when there is one.
    Blow { damage: i32, burning: u8, slowed: u8, facing: Option<Facing> },
    /// A dash of up to two cells toward the player along `facing`.
    Dash(Facing),
}

/// A straight line or a diagonal.
pub open spec fn aligned(dx: int, dy: int) -> bool {
    dx == 0 || dy == 0 || abs_spec(dx) == abs_spec(dy)
}

/// The facing toward offset `(dx, dy)`.
pub open spec fn facing_toward(dx: int, dy: int) -> Facing {
    facing_of_step((sign(dx) as i32, sign(dy) as i32))
}

/// The art the weapon a creature wields gives it against the player at
/// `(dx, dy)`, `cheb` cells away: the nadir blade along a line at two to
/// five cells (5 damage, two turns slowed), the iron of the fallen next to
/// the player (4, two turns slowed), the eastern rod along a line at two to
/// six (4, four turns burning), the southern rod along a line at two to
/// five (3, five turns slowed), the zenith rod a dash at two to six cells.
pub open spec fn weapon_art_spec(weapon: Option<Item>, cheb: int, dx: int, dy: int) -> Option<CreatureArt> {
    match weapon {
        Some(Item::GladiusNadir) => if 2 <= cheb <= 5 && aligned(dx, dy) {
            Some(CreatureArt::Blow { damage: 5, burning: 0, slowed: 2, facing: Some(facing_toward(dx, dy)) })
        } else {
            None
        },
        Some(Item::FerrumOccasus) => if cheb == 1 {
            Some(CreatureArt::Blow { damage: 4, burning: 0, slowed: 2, facing: None })
        } else {
            None
        },
        Some(Item::VirgaOriens) => if 2 <= cheb <= 6 && aligned(dx, dy) {
            Some(CreatureArt::Blow { damage: 4, burning: 4, slowed: 0, facing: Some(facing_toward(dx, dy)) })
        } else {
            None
        },
        Some(Item::VirgaMeridies) => if 2 <= cheb <= 5 && aligned(dx, dy) {
            Some(CreatureArt::Blow { damage: 3, burning: 0, slowed: 5, facing: Some(facing_toward(dx, dy)) })
        } else {
            None
        },
        Some(Item::VirgaZenith) => if 2 <= cheb <= 6 {
            Some(CreatureArt::Dash(facing_toward(dx, dy)))
        } else {
            None
        },
        _ => None,
    }
}

pub(crate) fn sign_i32(v: i32) -> (s: i32)
    ensures
        s == sign(v as int),
{
    if v < 0 { -1 } else if v > 0 { 1 } else { 0 }
}

/// The art a creature's weapon gives it (see `weapon_art_spec`).
pub fn weapon_art(weapon: Option<Item>, cheb: i32, dx: i32, dy: i32) -> (a: Option<CreatureArt>)
    requires
        -65536 <= dx <= 65536,
        -65536 <= dy <= 65536,
    ensures
        a == weapon_art_spec(weapon, cheb as int, dx as int, dy as int),
{
    let aligned_line = is_line_aligned(dx, dy);
    assert(aligned_line == aligned(dx as int, dy as int));
    let toward = step_facing((sign_i32(dx), sign_i32(dy)));
    match weapon {
        Some(Item::GladiusNadir) => if 2 <= cheb && cheb <= 5 && aligned_line {
            Some(CreatureArt::Blow { damage: 5, burning: 0, slowed: 2, facing: Some(toward) })
        } else {
            None
        },
        Some(Item::FerrumOccasus) => if cheb == 1 {
            Some(CreatureArt::Blow { damage: 4, burning: 0, slowed: 2, facing: None })
        } else {
            None
        },
        Some(Item::VirgaOriens) => if 2 <= cheb && cheb <= 6 && aligned_line {
            Some(CreatureArt::Blow { damage: 4, burning: 4, slowed: 0, facing: Some(toward) })
        } else {
            None
        },
        Some(Item::VirgaMeridies) => if 2 <= cheb && cheb <= 5 && aligned_line {
            Some(CreatureArt::Blow { damage: 3, burning: 0, slowed: 5, facing: Some(toward) })
        } else {
            None
        },
        Some(Item::VirgaZenith) => if 2 <= cheb && cheb <= 6 {
            Some(CreatureArt::Dash(toward))
        } else {
            None
        },
        _ => None,
    }
}

/// How far a dash goes: a cell for each free cell ahead, at most two,
/// stopping at the first that is not free.
pub fn dash_length(first_free: bool, second_free: bool) -> (n: u8)
    ensures
        n == (if !first_free { 0u8 } else if !second_free { 1u8 } else { 2u8 }),
{
    if !first_free {
        0
    } else if !second_free {
        1
    } else {
        2
    }
}

/// The built-in art of a creature kind, as damage, burning and slowing
/// turns and whether it is a flame: the relay surgeon burns every third
/// turn, the archive scribe slows every third turn (one later), the
/// carrier frame strikes along a line at two to four cells every other
/// turn, the specimen guard near research sites (score three or more)
/// along a line at two to four cells every third turn; the turn counted
/// is the game turn plus the creature's id.
pub open spec fn builtin_art_spec(kind: Seq<char>, turn: int, id: int, cheb: int, dx: int, dy: int, research: int) -> Option<(i32, u8, u8, bool)> {
    if kind == "relay_surgeon"@ && (turn + id) % 3 == 0 {
        Some((4i32, 3u8, 0u8, true))
    } else if kind == "archive_scribe"@ && (turn + id + 1) % 3 == 0 {
        Some((3i32, 0u8, 3u8, false))
    } else if kind == "carrier_frame"@ && 2 <= cheb <= 4 && aligned(dx, dy) && (turn + id) % 2 == 0 {
        Some((5i32, 0u8, 2u8, false))
    } else if kind == "specimen_guard"@ && research >= 3 && 2 <= cheb <= 4 && aligned(dx, dy) && (turn + id + 1) % 3 == 0 {
        Some((4i32, 0u8, 3u8, false))
    } else {
        None
    }
}

/// The built-in art of a creature (see `builtin_art_spec`).
pub fn builtin_art(kind: &str, turn: u64, id: u64, cheb: i32, dx: i32, dy: i32, research: u32) -> (a: Option<(i32, u8, u8, bool)>)
    requires
        turn + id + 1 <= u64::MAX,
        -65536 <= dx <= 65536,
        -65536 <= dy <= 65536,
    ensures
        a == builtin_art_spec(kind@, turn as int, id as int, cheb as int, dx as int, dy as int, research as int),
{
    let aligned_line = is_line_aligned(dx, dy);
    assert(aligned_line == aligned(dx as int, dy as int));
    let t = turn + id;
    if crate::strings::str_eq(kind, "relay_surgeon") && t % 3 == 0 {
        Some((4, 3, 0, true))
    } else if crate::strings::str_eq(kind, "archive_scribe") && (t + 1) % 3 == 0 {
        Some((3, 0, 3, false))
    } else if crate::strings::str_eq(kind, "carrier_frame") && 2 <= cheb && cheb <= 4 && aligned_line && t % 2 == 0 {
        Some((5, 0, 2, false))
    } else if crate::strings::str_eq(kind, "specimen_guard") && research >= 3 && 2 <= cheb && cheb <= 4 && aligned_line
        && (t + 1) % 3 == 0 {
        Some((4, 0, 3, false))
    } else {
        None
    }
}

} // verus!
