//! The creatures of a floor and what happens to them: the player's blow,
//! each creature's turn, and the blows that land on the player a few
//! frames later.
use vstd::prelude::*;

use crate::catalog::{CreatureDef, GameDefs};
use crate::combat::{apply_status_bundle, enemy_agility, max_u8, slowed_agility, StatusState};
use crate::defs::Faction;
use crate::enemies::{
    builtin_art, builtin_art_spec, creature_picks_up, dash_length, enemy_attack_spec, enemy_melee_damage, enemy_turn,
    enemy_turn_spec, facing_of_step, find_enemy_next_step, path_step_spec, picks_up_spec, resolve_player_melee,
    lemma_turn_step_unit, sign_i32, step_facing, weapon_art, weapon_art_spec, CreatureArt, EnemyAction, EnemySense, PATH_CELLS,
};
use crate::items::sign;
use crate::defs::is_weapon_item;
use crate::catalog::is_weapon_spec;
use crate::items::{Facing, Item};
use crate::progression::{calc_damage, evade_chance_spec, evade_fits};
use crate::spawning::{defeat_exp, defeat_exp_spec, roll_hits, roll_state, CarriedItem};
use crate::strings::str_eq;

verus! {

/// A creature on the floor.
#[derive(Clone)]
pub struct Creature {
    pub id: u64,
    /// Its kind, a creature id of the data file.
    pub kind: String,
    pub x: i32,
    pub y: i32,
    pub hp: i32,
    pub status: StatusState,
    pub facing: Facing,
    /// A traveller the player struck runs from the player.
    pub flee: bool,
    pub carried: Vec<CarriedItem>,
    pub weapon: Option<Item>,
}

/// The id of the creature kind travellers belong to.
pub open spec fn traveler_kind() -> Seq<char> {
    "traveler"@
}

/// The definition of kind `id`: the last entry with that id.
pub open spec fn last_def(cs: Seq<CreatureDef>, id: Seq<char>) -> Option<CreatureDef>
    decreases cs.len(),
{
    if cs.len() == 0 {
        None
    } else if cs.last().id@ == id {
        Some(cs.last())
    } else {
        last_def(cs.drop_last(), id)
    }
}

/// The numbers of a creature kind the fighting needs.
#[derive(Clone, Copy, Debug, PartialEq, Eq, Structural)]
pub struct KindStats {
    pub hp: i32,
    pub attack: i32,
    pub defense: i32,
    pub agility: i32,
    pub faction: Faction,
}

/// The fighting numbers of a definition.
pub open spec fn stats_of(d: CreatureDef) -> KindStats {
    KindStats { hp: d.hp, attack: d.attack, defense: d.defense, agility: d.agility, faction: d.faction }
}

/// The fighting numbers of kind `id`, from its last definition.
pub open spec fn kind_stats_spec(defs: GameDefs, id: Seq<char>) -> Option<KindStats> {
    match last_def(defs.creatures@, id) {
        Some(d) => Some(stats_of(d)),
        None => None,
    }
}

/// The fighting numbers of creature kind `id` (see `kind_stats_spec`).
pub fn kind_stats(defs: &GameDefs, id: &str) -> (r: Option<KindStats>)
    ensures
        r == kind_stats_spec(*defs, id@),
{
    let ghost cs = defs.creatures@;
    let mut i: usize = defs.creatures.len();
    assert(cs.take(cs.len() as int) =~= cs);
    while i > 0
        invariant
            i <= cs.len(),
            cs == defs.creatures@,
            last_def(cs, id@) == last_def(cs.take(i as int), id@),
        decreases i,
    {
        let ghost pre = cs.take(i as int);
        assert(pre.drop_last() =~= cs.take(i - 1));
        assert(pre.last() == cs[i - 1]);
        i = i - 1;
        if str_eq(defs.creatures[i].id.as_str(), id) {
            let d = &defs.creatures[i];
            return Some(KindStats { hp: d.hp, attack: d.attack, defense: d.defense, agility: d.agility, faction: d.faction });
        }
    }
    assert(cs.take(0) =~= Seq::<CreatureDef>::empty());
    None
}

/// The first creature standing on `(x, y)`.
pub open spec fn first_at(cs: Seq<Creature>, x: i32, y: i32) -> Option<int> {
    if exists|i: int| 0 <= i < cs.len() && (#[trigger] cs[i]).x == x && cs[i].y == y {
        Some(
            choose|i: int|
                0 <= i < cs.len() && (#[trigger] cs[i]).x == x && cs[i].y == y && forall|j: int|
                    0 <= j < i ==> !((#[trigger] cs[j]).x == x && cs[j].y == y),
        )
    } else {
        None
    }
}

/// The index of the first creature on `(x, y)`.
pub fn creature_index_at(cs: &Vec<Creature>, x: i32, y: i32) -> (r: Option<usize>)
    ensures
        match r {
            Some(i) => i < cs@.len() && first_at(cs@, x, y) == Some(i as int),
            None => first_at(cs@, x, y) is None,
        },
{
    let mut i: usize = 0;
    while i < cs.len()
        invariant
            i <= cs@.len(),
            forall|j: int| 0 <= j < i ==> !((#[trigger] cs@[j]).x == x && cs@[j].y == y),
        decreases cs@.len() - i,
    {
        if cs[i].x == x && cs[i].y == y {
            proof {
                let w = choose|k: int|
                    0 <= k < cs@.len() && (#[trigger] cs@[k]).x == x && cs@[k].y == y && forall|j: int|
                        0 <= j < k ==> !((#[trigger] cs@[j]).x == x && cs@[j].y == y);
                assert(0 <= i < cs@.len() && cs@[i as int].x == x && cs@[i as int].y == y);
                if w < i {
                } else if w > i {
                    assert(!(cs@[i as int].x == x && cs@[i as int].y == y));
                }
            }
            return Some(i);
        }
        i = i + 1;
    }
    None
}

/// How the player's blow at a cell ends.
pub enum AttackResult {
    /// No creature stands there.
    NoCreature,
    /// Creature `idx` evaded.
    Evaded { idx: usize },
    /// Creature `idx` took `damage` and still stands.
    Hit { idx: usize, damage: i32 },
    /// The creature fell to `damage` and left the floor; the player earns
    /// `exp`.
    Defeated { dead: Creature, damage: i32, exp: u32 },
}

/// The blow's numbers fit in `i32` for a creature `c` of kind stats `k`.
pub open spec fn blow_fits(c: Creature, k: KindStats, attack: i32, agility: i32) -> bool {
    let dmg: int = if attack - k.defense > 1 { attack - k.defense } else { 1 };
    &&& k.agility > i32::MIN + 3
    &&& evade_fits(agility as int, slowed_agility(k.agility as int, c.status))
    &&& i32::MIN <= attack - k.defense <= i32::MAX
    &&& i32::MIN <= c.hp - dmg
    &&& i32::MIN <= k.defense * 2 <= i32::MAX
    &&& (if k.hp > 1 { k.hp as int } else { 1 }) + k.attack <= i32::MAX
    &&& i32::MIN <= (if k.hp > 1 { k.hp as int } else { 1 }) + k.attack + k.defense * 2 <= i32::MAX
}

/// The player's blow, with `attack` and `agility`, at the creature first
/// standing on `(tx, ty)`, if any: its kind's data must be known and the
/// numbers fit.
pub open spec fn attack_ok(cs: Seq<Creature>, defs: GameDefs, tx: i32, ty: i32, attack: i32, agility: i32) -> bool {
    match first_at(cs, tx, ty) {
        None => true,
        Some(i) => kind_stats_spec(defs, cs[i].kind@) is Some && blow_fits(
            cs[i],
            kind_stats_spec(defs, cs[i].kind@)->0,
            attack,
            agility,
        ),
    }
}

fn in_i32(v: i64) -> (b: bool)
    ensures
        b == (i32::MIN <= v <= i32::MAX),
{
    i32::MIN as i64 <= v && v <= i32::MAX as i64
}

fn evade_fits_exec(a: i32, d: i32) -> (b: bool)
    ensures
        b == evade_fits(a as int, d as int),
{
    let a = a as i64;
    let d = d as i64;
    let diff4 = (d - a) * 4;
    let sum = a + d;
    let third = if sum >= 0 { sum / 3 } else { -((-sum) / 3) };
    in_i32(diff4) && in_i32(sum) && in_i32(14 + diff4) && in_i32(14 + diff4 - third)
}

/// Whether the player's blow at `(tx, ty)` with `attack` and `agility` may
/// be resolved (see `attack_ok`).
pub fn attack_fits(cs: &Vec<Creature>, defs: &GameDefs, tx: i32, ty: i32, attack: i32, agility: i32) -> (b: bool)
    ensures
        b == attack_ok(cs@, *defs, tx, ty, attack, agility),
{
    let i = match creature_index_at(cs, tx, ty) {
        Some(i) => i,
        None => return true,
    };
    let k = match kind_stats(defs, cs[i].kind.as_str()) {
        Some(k) => k,
        None => return false,
    };
    if k.agility <= i32::MIN + 3 {
        return false;
    }
    let theirs = enemy_agility(k.agility, cs[i].status);
    let raw = attack as i64 - k.defense as i64;
    let dmg: i64 = if raw > 1 { raw } else { 1 };
    let base: i64 = if k.hp > 1 { k.hp as i64 } else { 1 };
    evade_fits_exec(agility, theirs) && in_i32(raw) && i32::MIN as i64 <= cs[i].hp as i64 - dmg && in_i32(
        k.defense as i64 * 2,
    ) && base + (k.attack as i64) <= i32::MAX as i64 && in_i32(base + k.attack as i64 + k.defense as i64 * 2)
}

/// Running counts of one game, shown when it ends.
#[derive(Clone, Copy, Debug, PartialEq, Eq, Structural)]
pub struct Tally {
    pub enemies_defeated: u32,
    pub damage_dealt: u32,
    pub items_picked: u32,
    pub steps: u32,
}

/// `a + d`, held at `u32::MAX`.
pub open spec fn sat_add(a: u32, d: int) -> u32 {
    if a + d > u32::MAX {
        u32::MAX
    } else {
        (a + d) as u32
    }
}

impl Tally {
    /// All counts at zero.
    pub fn new() -> (t: Tally)
        ensures
            t == (Tally { enemies_defeated: 0, damage_dealt: 0, items_picked: 0, steps: 0 }),
    {
        Tally { enemies_defeated: 0, damage_dealt: 0, items_picked: 0, steps: 0 }
    }

    /// One more step taken.
    pub fn count_step(&mut self)
        ensures
            *final(self) == (Tally { steps: sat_add(old(self).steps, 1), ..*old(self) }),
    {
        self.steps = self.steps.saturating_add(1);
    }

    /// One more item picked up.
    pub fn count_pickup(&mut self)
        ensures
            *final(self) == (Tally { items_picked: sat_add(old(self).items_picked, 1), ..*old(self) }),
    {
        self.items_picked = self.items_picked.saturating_add(1);
    }

    /// `damage` more dealt to creatures.
    pub fn count_damage(&mut self, damage: i32)
        requires
            damage >= 0,
        ensures
            *final(self) == (Tally { damage_dealt: sat_add(old(self).damage_dealt, damage as int), ..*old(self) }),
    {
        self.damage_dealt = self.damage_dealt.saturating_add(damage as u32);
    }

    /// One more creature defeated.
    pub fn count_defeat(&mut self)
        ensures
            *final(self) == (Tally { enemies_defeated: sat_add(old(self).enemies_defeated, 1), ..*old(self) }),
    {
        self.enemies_defeated = self.enemies_defeated.saturating_add(1);
    }
}

/// The stained cells after blood is shed on `p`: each cell is held once.
pub open spec fn stained(b: Seq<(i32, i32)>, p: (i32, i32)) -> Seq<(i32, i32)> {
    if b.contains(p) {
        b
    } else {
        b.push(p)
    }
}

/// Marks `(x, y)` as stained with blood.
pub fn add_stain(blood: &mut Vec<(i32, i32)>, x: i32, y: i32)
    ensures
        final(blood)@ == stained(old(blood)@, (x, y)),
{
    let mut i: usize = 0;
    while i < blood.len()
        invariant
            i <= blood@.len(),
            forall|j: int| 0 <= j < i ==> blood@[j] != (x, y),
        decreases blood@.len() - i,
    {
        if blood[i].0 == x && blood[i].1 == y {
            assert(blood@.contains((x, y))) by {
                assert(blood@[i as int] == (x, y));
            }
            return;
        }
        i = i + 1;
    }
    assert(!blood@.contains((x, y)));
    blood.push((x, y));
}

/// Creature `i` falls: it leaves the floor, its blood stains its cell and
/// the defeat is counted. Returns the fallen creature.
pub fn creature_falls(creatures: &mut Vec<Creature>, i: usize, tally: &mut Tally, blood: &mut Vec<(i32, i32)>) -> (dead:
    Creature)
    requires
        i < old(creatures)@.len(),
    ensures
        dead == old(creatures)@[i as int],
        final(creatures)@ == old(creatures)@.remove(i as int),
        *final(tally) == (Tally { enemies_defeated: sat_add(old(tally).enemies_defeated, 1), ..*old(tally) }),
        final(blood)@ == stained(old(blood)@, (dead.x, dead.y)),
{
    tally.count_defeat();
    let dead = creatures.remove(i);
    add_stain(blood, dead.x, dead.y);
    dead
}

/// The creature after taking `dmg`: its HP lowered, and a traveller set
/// to flee.
pub open spec fn struck(c: Creature, dmg: int) -> Creature {
    Creature { hp: (c.hp - dmg) as i32, flee: c.flee || c.kind@ == traveler_kind(), ..c }
}

#[verifier::rlimit(60)]
/// The player strikes the creature on `(tx, ty)`, the cell ahead: it
/// evades with the chance the two agilities give (a slowed creature is
/// slower); else it takes the attack minus its defence (at least one), a
/// struck traveller flees, and a creature whose HP falls to zero or below
/// leaves the floor, stains its cell with blood and gives the player
/// experience by its kind. The damage and the defeat are counted.
pub fn player_attack(
    creatures: &mut Vec<Creature>,
    defs: &GameDefs,
    tx: i32,
    ty: i32,
    attack: i32,
    agility: i32,
    rng_state: &mut u64,
    tally: &mut Tally,
    blood: &mut Vec<(i32, i32)>,
) -> (r: AttackResult)
    requires
        attack_ok(old(creatures)@, *defs, tx, ty, attack, agility),
    ensures
        match first_at(old(creatures)@, tx, ty) {
            None => {
                &&& r is NoCreature
                &&& final(creatures)@ == old(creatures)@
                &&& *final(rng_state) == *old(rng_state)
                &&& *final(tally) == *old(tally)
                &&& final(blood)@ == old(blood)@
            },
            Some(i) => {
                let c = old(creatures)@[i];
                let k = kind_stats_spec(*defs, c.kind@)->0;
                let chance = evade_chance_spec(agility as int, slowed_agility(k.agility as int, c.status)) as u8;
                let dmg: int = if attack - k.defense > 1 { attack - k.defense } else { 1 };
                &&& *final(rng_state) == roll_state(*old(rng_state), chance)
                &&& if roll_hits(*old(rng_state), chance) {
                    &&& r == AttackResult::Evaded { idx: i as usize }
                    &&& final(creatures)@ == old(creatures)@
                    &&& *final(tally) == *old(tally)
                    &&& final(blood)@ == old(blood)@
                } else if c.hp - dmg > 0 {
                    &&& r == AttackResult::Hit { idx: i as usize, damage: dmg as i32 }
                    &&& final(creatures)@ == old(creatures)@.update(i, struck(c, dmg))
                    &&& *final(tally) == (Tally { damage_dealt: sat_add(old(tally).damage_dealt, dmg), ..*old(tally) })
                    &&& final(blood)@ == old(blood)@
                } else {
                    &&& r == AttackResult::Defeated {
                        dead: struck(c, dmg),
                        damage: dmg as i32,
                        exp: defeat_exp_spec(k.hp, k.attack, k.defense) as u32,
                    }
                    &&& final(creatures)@ == old(creatures)@.remove(i)
                    &&& *final(tally) == (Tally {
                        damage_dealt: sat_add(old(tally).damage_dealt, dmg),
                        enemies_defeated: sat_add(old(tally).enemies_defeated, 1),
                        ..*old(tally)
                    })
                    &&& final(blood)@ == stained(old(blood)@, (c.x, c.y))
                }
            },
        },
{
    let i = match creature_index_at(creatures, tx, ty) {
        Some(i) => i,
        None => return AttackResult::NoCreature,
    };
    let k = match kind_stats(defs, creatures[i].kind.as_str()) {
        Some(k) => k,
        None => return AttackResult::NoCreature,
    };
    let their_agility = enemy_agility(k.agility, creatures[i].status);
    let hp = creatures[i].hp;
    match resolve_player_melee(attack, agility, k.defense, their_agility, hp, rng_state) {
        crate::enemies::MeleeOutcome::Evaded => AttackResult::Evaded { idx: i },
        crate::enemies::MeleeOutcome::Hit { damage, hp_left } => {
            let ghost before = creatures@;
            tally.count_damage(damage);
            let mut c = creatures.remove(i);
            c.hp = hp_left;
            if str_eq(c.kind.as_str(), "traveler") {
                c.flee = true;
            }
            assert(c == struck(before[i as int], damage as int));
            if hp_left > 0 {
                creatures.insert(i, c);
                assert(creatures@ =~= before.update(i as int, struck(before[i as int], damage as int)));
                AttackResult::Hit { idx: i, damage }
            } else {
                tally.count_defeat();
                add_stain(blood, c.x, c.y);
                let exp = defeat_exp(k.hp, k.attack, k.defense);
                AttackResult::Defeated { dead: c, damage, exp }
            }
        },
    }
}

// ---------------------------------------------------------------------------
// The player's step
// ---------------------------------------------------------------------------

/// Who stands on the cell the player steps toward.
#[derive(Clone, Copy, Debug, PartialEq, Eq, Structural)]
pub enum Occupant {
    Empty,
    Hostile,
    /// A neutral creature; `fleeing` once it runs from the player.
    Neutral { fleeing: bool },
}

/// What the cell the player steps toward holds.
#[derive(Clone, Copy, Debug, PartialEq, Eq, Structural)]
pub struct CellAhead {
    pub occupant: Occupant,
    /// Its terrain can be walked on.
    pub walkable: bool,
    /// A stone tablet or a structure stands there.
    pub obstacle: bool,
}

/// How a step ends.
#[derive(Clone, Copy, Debug, PartialEq, Eq, Structural)]
pub enum MoveResult {
    /// The player stands on the new cell.
    Moved,
    /// The player only turned toward the cell.
    RotatedOnly,
    /// Nothing changed but what the step may say.
    Blocked,
}

/// What a step says.
#[derive(Clone, Copy, Debug, PartialEq, Eq, Structural)]
pub enum MoveNote {
    Quiet,
    /// A hostile creature bars the way.
    EnemyBlocks,
    /// A neutral creature speaks to the player.
    NeutralTalk,
    /// A neutral creature that flees the player speaks.
    NeutralFlee,
}

/// A step's outcome: the player's facing after it, how it ended, what it
/// says, and whether a turn passes.
#[derive(Clone, Copy, Debug, PartialEq, Eq, Structural)]
pub struct MoveStep {
    pub facing: Facing,
    pub result: MoveResult,
    pub note: MoveNote,
    pub turn: bool,
}

/// The facing a step by `(dx, dy)` gives: toward the step, or unchanged for
/// no step.
pub open spec fn step_facing_ok(old: Facing, dx: i32, dy: i32, f: Facing) -> bool {
    if dx == 0 && dy == 0 {
        f == old
    } else {
        f.delta_spec() == (sign(dx as int) as i32, sign(dy as int) as i32)
    }
}

/// A step onto a cell: the player turns toward it; a creature there bars
/// the way (a neutral one speaks; a hostile one is named unless the player
/// only turned); else the player moves when the cell is walkable and free
/// of a tablet or structure. Only a step that moves takes a turn.
pub open spec fn move_spec(old: Facing, f: Facing, a: CellAhead) -> MoveStep {
    let rotated = f != old;
    let stopped = if rotated { MoveResult::RotatedOnly } else { MoveResult::Blocked };
    match a.occupant {
        Occupant::Neutral { fleeing } => MoveStep {
            facing: f,
            result: stopped,
            note: if fleeing { MoveNote::NeutralFlee } else { MoveNote::NeutralTalk },
            turn: false,
        },
        Occupant::Hostile => MoveStep {
            facing: f,
            result: stopped,
            note: if rotated { MoveNote::Quiet } else { MoveNote::EnemyBlocks },
            turn: false,
        },
        Occupant::Empty => if a.walkable && !a.obstacle {
            MoveStep { facing: f, result: MoveResult::Moved, note: MoveNote::Quiet, turn: true }
        } else {
            MoveStep { facing: f, result: stopped, note: MoveNote::Quiet, turn: false }
        },
    }
}

/// The player, facing `old`, steps by `(dx, dy)` toward a cell holding
/// `ahead` (see `move_spec`).
pub fn move_outcome(old: Facing, dx: i32, dy: i32, ahead: CellAhead) -> (r: MoveStep)
    ensures
        step_facing_ok(old, dx, dy, r.facing),
        r == move_spec(old, r.facing, ahead),
        r.turn == (r.result == MoveResult::Moved),
{
    let f = match Facing::from_delta(dx, dy) {
        Some(f) => f,
        None => old,
    };
    let rotated = f != old;
    let stopped = if rotated { MoveResult::RotatedOnly } else { MoveResult::Blocked };
    match ahead.occupant {
        Occupant::Neutral { fleeing } => MoveStep {
            facing: f,
            result: stopped,
            note: if fleeing { MoveNote::NeutralFlee } else { MoveNote::NeutralTalk },
            turn: false,
        },
        Occupant::Hostile => MoveStep {
            facing: f,
            result: stopped,
            note: if rotated { MoveNote::Quiet } else { MoveNote::EnemyBlocks },
            turn: false,
        },
        Occupant::Empty => if ahead.walkable && !ahead.obstacle {
            MoveStep { facing: f, result: MoveResult::Moved, note: MoveNote::Quiet, turn: true }
        } else {
            MoveStep { facing: f, result: stopped, note: MoveNote::Quiet, turn: false }
        },
    }
}

/// A step that does not move the player leaves everything but the facing
/// as it was and takes no turn; a step with no direction neither turns nor
/// moves the player.
pub proof fn lemma_failed_step_takes_no_turn(old: Facing, dx: i32, dy: i32, f: Facing, a: CellAhead)
    requires
        step_facing_ok(old, dx, dy, f),
    ensures
        move_spec(old, f, a).result != MoveResult::Moved ==> !move_spec(old, f, a).turn,
        move_spec(old, f, a).result == MoveResult::Moved <==> (a.occupant == Occupant::Empty && a.walkable
            && !a.obstacle),
        (dx == 0 && dy == 0) ==> move_spec(old, f, a).result != MoveResult::RotatedOnly,
{
}

/// A creature after a technique's blow: the damage is the attack plus the
/// technique's bonus, less the defence (at least one); a traveller flees
/// when the technique makes it flee; the technique's effects are applied.
pub open spec fn blow_spec(
    c: Creature,
    k: KindStats,
    attack: i32,
    bonus: i32,
    burning: u8,
    slowed: u8,
    flee: bool,
) -> Creature {
    let raw = attack + bonus - k.defense;
    let dmg: int = if raw > 1 { raw } else { 1 };
    Creature {
        hp: (c.hp - dmg) as i32,
        flee: c.flee || (flee && c.kind@ == traveler_kind()),
        status: StatusState {
            burning_turns: max_u8(c.status.burning_turns, burning),
            slowed_turns: max_u8(c.status.slowed_turns, slowed),
        },
        ..c
    }
}

/// A technique's blow, with the player's `attack` plus `bonus`, on creature
/// `c` of kind stats `k` (see `blow_spec`). Returns the creature after it
/// and whether it fell; the damage is counted.
pub fn technique_blow(
    c: Creature,
    k: KindStats,
    attack: i32,
    bonus: i32,
    burning: u8,
    slowed: u8,
    flee: bool,
    tally: &mut Tally,
) -> (r: (Creature, bool))
    requires
        i32::MIN <= attack + bonus <= i32::MAX,
        i32::MIN <= attack + bonus - k.defense <= i32::MAX,
        i32::MIN <= c.hp - (if attack + bonus - k.defense > 1 { attack + bonus - k.defense } else { 1 }),
    ensures
        r.0 == blow_spec(c, k, attack, bonus, burning, slowed, flee),
        r.1 == (r.0.hp <= 0),
        *final(tally) == (Tally { damage_dealt: sat_add(old(tally).damage_dealt, c.hp - r.0.hp), ..*old(tally) }),
{
    let damage = calc_damage(attack + bonus, k.defense);
    tally.count_damage(damage);
    let mut c = c;
    c.hp = c.hp - damage;
    if flee && str_eq(c.kind.as_str(), "traveler") {
        c.flee = true;
    }
    apply_status_bundle(&mut c.status, burning, slowed);
    let fell = c.hp <= 0;
    (c, fell)
}

// ---------------------------------------------------------------------------
// A creature's turn
// ---------------------------------------------------------------------------

/// A creature's blow on its way to the player: it lands (or is evaded)
/// once `delay` frames have passed.
pub struct PendingHit {
    /// The attacker's kind, for the log.
    pub kind: String,
    pub damage: i32,
    pub burning: u8,
    pub slowed: u8,
    pub delay: u8,
    /// Where the attacker stood.
    pub from: (i32, i32),
    /// The attacker's agility when it struck.
    pub agility: i32,
}

/// What the world around a creature says for its turn.
pub struct TurnView {
    /// The player's offset from the creature.
    pub dx: i32,
    pub dy: i32,
    /// A clear line from the creature to the player.
    pub sees: bool,
    /// The eight neighbours, row by row from the top left: free to step on.
    pub free: Vec<bool>,
    /// The square of 49 by 49 cells around the creature: free to step on.
    pub square: Vec<bool>,
    /// The two cells toward the player along its facing to the player:
    /// free for a dash.
    pub dash_free: (bool, bool),
    pub turn: u64,
    /// The creature's blow bonus, burning and slowing turns where it stands.
    pub melee: (i32, u8, u8),
    pub player_defense: i32,
    /// How much research stands around the creature.
    pub research: u32,
}

/// The frames before the `order`-th blow of a turn shows: four, then six
/// more per earlier blow, at most 255.
pub open spec fn blow_delay(order: u16) -> u8 {
    if 4 + 6 * order < 255 { (4 + 6 * order) as u8 } else { 255u8 }
}

fn blow_delay_exec(order: u16) -> (d: u8)
    ensures
        d == blow_delay(order),
{
    let delay: u32 = 4 + (order as u32) * 6;
    if delay < 255 {
        delay as u8
    } else {
        255
    }
}

/// The count of blows after one more.
pub open spec fn next_order(order: u16) -> u16 {
    if order < u16::MAX { (order + 1) as u16 } else { order }
}

/// The creature's blow on its way.
pub open spec fn hit_of(c: Creature, k: KindStats, damage: i32, burning: u8, slowed: u8, delay: u8) -> PendingHit {
    PendingHit {
        kind: c.kind,
        damage,
        burning,
        slowed,
        delay,
        from: (c.x, c.y),
        agility: slowed_agility(k.agility as int, c.status) as i32,
    }
}

/// A weapon's blow at the player's side lands at once; one from afar after
/// the base delay.
pub open spec fn art_delay(facing: Option<Facing>) -> u8 {
    if facing is None { 0 } else { 4 }
}

/// The creature moved by `(mx, my)`.
pub open spec fn moved(c: Creature, mx: int, my: int) -> Creature {
    Creature { x: (c.x + mx) as i32, y: (c.y + my) as i32, ..c }
}

/// The creature turned to `f`.
pub open spec fn turned(c: Creature, f: Facing) -> Creature {
    Creature { facing: f, ..c }
}

/// How the creature stands to the player.
pub open spec fn sense_of(c: Creature, k: KindStats) -> EnemySense {
    EnemySense {
        hostile: k.faction == Faction::Hostile,
        traveler: c.kind@ == traveler_kind(),
        flee: c.flee,
        facing: c.facing,
        id: c.id,
    }
}

/// The outcome of a creature's turn: the creature after it, the blow it
/// sent, the count of blows this turn, and whether it picks up what lies
/// under it.
pub struct TurnOutcome {
    pub creature: Creature,
    pub hit: Option<PendingHit>,
    pub order: u16,
    pub picks_up: bool,
}

/// What an action other than an art does: a blow is sent after the
/// turn's earlier blows; a step moves and turns; a turn turns; a search
/// around obstacles moves by the step it finds.
pub open spec fn act_spec(c: Creature, k: KindStats, v: TurnView, order: u16, a: EnemyAction) -> TurnOutcome {
    let picks = picks_up_spec(sense_of(c, k), v.dx as int, v.dy as int, v.sees, a);
    match a {
        EnemyAction::Melee => {
            let atk = enemy_attack_spec(k.attack, v.melee.0, c.weapon);
            let dmg: int = if atk - v.player_defense > 1 { atk - v.player_defense } else { 1 };
            TurnOutcome {
                creature: c,
                hit: Some(hit_of(c, k, dmg as i32, v.melee.1, v.melee.2, blow_delay(order))),
                order: next_order(order),
                picks_up: picks,
            }
        },
        EnemyAction::Step { dx, dy, facing } => TurnOutcome {
            creature: turned(moved(c, dx as int, dy as int), facing),
            hit: None,
            order,
            picks_up: picks,
        },
        EnemyAction::Turn(f) => TurnOutcome { creature: turned(c, f), hit: None, order, picks_up: picks },
        EnemyAction::Pathfind => TurnOutcome {
            creature: match path_step_spec(v.dx as int, v.dy as int, v.square@) {
                Some(d) => moved(c, d.0 as int, d.1 as int),
                None => c,
            },
            hit: None,
            order,
            picks_up: picks,
        },
        _ => TurnOutcome { creature: c, hit: None, order, picks_up: picks },
    }
}

/// Chebyshev distance to the player.
pub open spec fn cheb_of(v: TurnView) -> int {
    let ax: int = if v.dx < 0 { -v.dx } else { v.dx as int };
    let ay: int = if v.dy < 0 { -v.dy } else { v.dy as int };
    if ax > ay { ax } else { ay }
}

/// The creature's own art, when its weapon gave none; else the action
/// `enemy_turn_spec` decides with the arts tried.
pub open spec fn builtin_phase(c1: Creature, k: KindStats, v: TurnView, order: u16, cheb: int, toward: Facing) -> TurnOutcome {
    match builtin_art_spec(c1.kind@, v.turn as int, c1.id as int, cheb, v.dx as int, v.dy as int, v.research as int) {
        Some(b) => TurnOutcome {
            creature: turned(c1, toward),
            hit: Some(hit_of(c1, k, b.0, b.1, b.2, blow_delay(order))),
            order: next_order(order),
            picks_up: false,
        },
        None => act_spec(
            c1,
            k,
            v,
            order,
            enemy_turn_spec(sense_of(c1, k), v.dx as int, v.dy as int, v.sees, true, v.turn, v.free@),
        ),
    }
}

/// A creature's turn: when it may use its arts, its weapon's art first (a
/// blow, or a dash of up to two free cells toward the player), then its
/// kind's own (a blow after the turn's earlier blows, turning toward the
/// player); when neither is used, or it may not, the action
/// `enemy_turn_spec` decides, carried out by `act_spec`.
pub open spec fn creature_turn_spec(c: Creature, k: KindStats, v: TurnView, order: u16) -> TurnOutcome {
    let first = enemy_turn_spec(sense_of(c, k), v.dx as int, v.dy as int, v.sees, false, v.turn, v.free@);
    let cheb = cheb_of(v);
    let toward = facing_of_step((sign(v.dx as int) as i32, sign(v.dy as int) as i32));
    if first is TrySpecials {
        let w = weapon_art_spec(c.weapon, cheb, v.dx as int, v.dy as int);
        let dash_n: int = if !v.dash_free.0 { 0 } else if !v.dash_free.1 { 1 } else { 2 };
        match w {
            Some(CreatureArt::Blow { damage, burning, slowed, facing }) => TurnOutcome {
                creature: match facing { Some(f) => turned(c, f), None => c },
                hit: Some(hit_of(c, k, damage, burning, slowed, art_delay(facing))),
                order,
                picks_up: false,
            },
            _ => if w is Some && dash_n > 0 {
                let f = w->Some_0->Dash_0;
                TurnOutcome {
                    creature: moved(turned(c, f), dash_n * f.delta_spec().0, dash_n * f.delta_spec().1),
                    hit: None,
                    order,
                    picks_up: false,
                }
            } else {
                builtin_phase(if w is Some { turned(c, w->Some_0->Dash_0) } else { c }, k, v, order, cheb, toward)
            },
        }
    } else {
        act_spec(c, k, v, order, first)
    }
}

/// The numbers of a creature's turn fit: the creature stays well inside
/// the plane, the player is within reach of its search, the turn counter
/// leaves room, its kind is known, and its blow's arithmetic fits `i32`.
pub open spec fn turn_fits(c: Creature, k: KindStats, v: TurnView) -> bool {
    &&& -0x7fff_0000 <= c.x <= 0x7fff_0000
    &&& -0x7fff_0000 <= c.y <= 0x7fff_0000
    &&& -65536 <= v.dx <= 65536
    &&& -65536 <= v.dy <= 65536
    &&& v.turn + c.id + 1 <= u64::MAX
    &&& v.free@.len() == 8
    &&& v.square@.len() == PATH_CELLS
    &&& k.agility > i32::MIN + 3
    &&& i32::MIN <= k.attack + v.melee.0 <= i32::MAX
    &&& i32::MIN <= enemy_attack_spec(k.attack, v.melee.0, c.weapon) <= i32::MAX
    &&& i32::MIN <= enemy_attack_spec(k.attack, v.melee.0, c.weapon) - v.player_defense <= i32::MAX
}

fn turned_exec(c: Creature, f: Facing) -> (r: Creature)
    ensures
        r == turned(c, f),
{
    let mut c = c;
    c.facing = f;
    c
}

fn moved_exec(c: Creature, mx: i32, my: i32) -> (r: Creature)
    requires
        i32::MIN <= c.x + mx <= i32::MAX,
        i32::MIN <= c.y + my <= i32::MAX,
    ensures
        r == moved(c, mx as int, my as int),
{
    let mut c = c;
    c.x = c.x + mx;
    c.y = c.y + my;
    c
}

fn hit_exec(c: &Creature, k: KindStats, damage: i32, burning: u8, slowed: u8, delay: u8) -> (h: PendingHit)
    requires
        k.agility > i32::MIN + 3,
    ensures
        h == hit_of(*c, k, damage, burning, slowed, delay),
{
    PendingHit {
        kind: c.kind.clone(),
        damage,
        burning,
        slowed,
        delay,
        from: (c.x, c.y),
        agility: enemy_agility(k.agility, c.status),
    }
}

fn act_exec(c: Creature, k: KindStats, v: &TurnView, order: u16, a: EnemyAction) -> (r: TurnOutcome)
    requires
        turn_fits(c, k, *v),
        a matches EnemyAction::Step { dx, dy, .. } ==> -1 <= dx <= 1 && -1 <= dy <= 1,
    ensures
        r == act_spec(c, k, *v, order, a),
{
    let picks = creature_picks_up(sense_exec(&c, k), v.dx, v.dy, v.sees, a);
    match a {
        EnemyAction::Melee => {
            let dmg = enemy_melee_damage(k.attack, v.melee.0, c.weapon, v.player_defense);
            let hit = hit_exec(&c, k, dmg, v.melee.1, v.melee.2, blow_delay_exec(order));
            let next = if order < u16::MAX { order + 1 } else { order };
            TurnOutcome { creature: c, hit: Some(hit), order: next, picks_up: picks }
        },
        EnemyAction::Step { dx, dy, facing } => {
            let c2 = turned_exec(moved_exec(c, dx, dy), facing);
            TurnOutcome { creature: c2, hit: None, order, picks_up: picks }
        },
        EnemyAction::Turn(f) => TurnOutcome { creature: turned_exec(c, f), hit: None, order, picks_up: picks },
        EnemyAction::Pathfind => {
            let c2 = match find_enemy_next_step(v.dx, v.dy, &v.square) {
                Some(d) => {
                    proof {
                        crate::enemies::lemma_path_step_unit(v.dx as int, v.dy as int, v.square@);
                    }
                    moved_exec(c, d.0, d.1)
                },
                None => c,
            };
            TurnOutcome { creature: c2, hit: None, order, picks_up: picks }
        },
        _ => TurnOutcome { creature: c, hit: None, order, picks_up: picks },
    }
}

fn sense_exec(c: &Creature, k: KindStats) -> (e: EnemySense)
    ensures
        e == sense_of(*c, k),
{
    EnemySense {
        hostile: k.faction == Faction::Hostile,
        traveler: str_eq(c.kind.as_str(), "traveler"),
        flee: c.flee,
        facing: c.facing,
        id: c.id,
    }
}


fn turn_exec(c: Creature, k: KindStats, v: &TurnView, order: u16) -> (r: TurnOutcome)
    requires
        turn_fits(c, k, *v),
    ensures
        r == creature_turn_spec(c, k, *v, order),
{
    let first = enemy_turn(sense_exec(&c, k), v.dx, v.dy, v.sees, false, v.turn, &v.free);
    proof {
        lemma_turn_step_unit(sense_of(c, k), v.dx as int, v.dy as int, v.sees, false, v.turn, v.free@);
    }
    match first {
        EnemyAction::TrySpecials => {},
        _ => return act_exec(c, k, v, order, first),
    }
    let ax = if v.dx < 0 { -v.dx } else { v.dx };
    let ay = if v.dy < 0 { -v.dy } else { v.dy };
    let cheb = if ax > ay { ax } else { ay };
    let toward = step_facing((sign_i32(v.dx), sign_i32(v.dy)));
    let w = weapon_art(c.weapon, cheb, v.dx, v.dy);
    let c1 = match w {
        Some(CreatureArt::Blow { damage, burning, slowed, facing }) => {
            let delay: u8 = match facing { Some(_) => 4, None => 0 };
            let hit = hit_exec(&c, k, damage, burning, slowed, delay);
            let c2 = match facing { Some(f) => turned_exec(c, f), None => c };
            return TurnOutcome { creature: c2, hit: Some(hit), order, picks_up: false };
        },
        Some(CreatureArt::Dash(f)) => {
            let n = dash_length(v.dash_free.0, v.dash_free.1);
            let c2 = turned_exec(c, f);
            if n > 0 {
                let (fx, fy) = f.delta();
                let step = if n == 1 { 1i32 } else { 2i32 };
                return TurnOutcome { creature: moved_exec(c2, step * fx, step * fy), hit: None, order, picks_up: false };
            }
            c2
        },
        None => c,
    };
    match builtin_art(c1.kind.as_str(), v.turn, c1.id, cheb, v.dx, v.dy, v.research) {
        Some(b) => {
            let hit = hit_exec(&c1, k, b.0, b.1, b.2, blow_delay_exec(order));
            let next = if order < u16::MAX { order + 1 } else { order };
            TurnOutcome { creature: turned_exec(c1, toward), hit: Some(hit), order: next, picks_up: false }
        },
        None => {
            let a = enemy_turn(sense_exec(&c1, k), v.dx, v.dy, v.sees, true, v.turn, &v.free);
            proof {
                lemma_turn_step_unit(sense_of(c1, k), v.dx as int, v.dy as int, v.sees, true, v.turn, v.free@);
            }
            act_exec(c1, k, v, order, a)
        },
    }
}

/// Law: in its turn a creature moves at most two cells along each axis (one
/// for a step, two for a dash), and keeps its id, kind, HP and status.
pub proof fn lemma_turn_moves_little(c: Creature, k: KindStats, v: TurnView, order: u16)
    requires
        -0x7fff_0000 <= c.x <= 0x7fff_0000,
        -0x7fff_0000 <= c.y <= 0x7fff_0000,
    ensures
        ({
            let r = creature_turn_spec(c, k, v, order).creature;
            &&& -2 <= r.x - c.x <= 2
            &&& -2 <= r.y - c.y <= 2
            &&& r.id == c.id && r.kind == c.kind && r.hp == c.hp && r.status == c.status
        }),
{
    lemma_turn_step_unit(sense_of(c, k), v.dx as int, v.dy as int, v.sees, false, v.turn, v.free@);
    crate::enemies::lemma_path_step_unit(v.dx as int, v.dy as int, v.square@);
    let w = weapon_art_spec(c.weapon, cheb_of(v), v.dx as int, v.dy as int);
    let c1 = if w is Some && w->Some_0 is Dash { turned(c, w->Some_0->Dash_0) } else { c };
    lemma_turn_step_unit(sense_of(c1, k), v.dx as int, v.dy as int, v.sees, true, v.turn, v.free@);
    lemma_turn_step_unit(sense_of(c, k), v.dx as int, v.dy as int, v.sees, true, v.turn, v.free@);
}

/// The kind of creature `c` is known and its turn's numbers fit.
pub open spec fn creature_turn_ok(c: Creature, defs: GameDefs, v: TurnView) -> bool {
    kind_stats_spec(defs, c.kind@) is Some && turn_fits(c, kind_stats_spec(defs, c.kind@)->0, v)
}

/// Whether creature `i` may take its turn with view `v` (see
/// `creature_turn_ok`).
pub fn creature_turn_fits(cs: &Vec<Creature>, defs: &GameDefs, i: usize, v: &TurnView) -> (b: bool)
    requires
        i < cs@.len(),
    ensures
        b == creature_turn_ok(cs@[i as int], *defs, *v),
{
    let c = &cs[i];
    let k = match kind_stats(defs, c.kind.as_str()) {
        Some(k) => k,
        None => return false,
    };
    let w: i64 = match c.weapon {
        Some(it) => crate::combat::item_attack_bonus(it) as i64,
        None => 0,
    };
    let atk = k.attack as i64 + v.melee.0 as i64;
    -0x7fff_0000 <= c.x && c.x <= 0x7fff_0000 && -0x7fff_0000 <= c.y && c.y <= 0x7fff_0000 && -65536 <= v.dx
        && v.dx <= 65536 && -65536 <= v.dy && v.dy <= 65536 && (v.turn as u128) + (c.id as u128) + 1
        <= u64::MAX as u128 && v.free.len() == 8 && v.square.len() == PATH_CELLS && k.agility > i32::MIN + 3
        && in_i32(atk) && in_i32(atk + w) && in_i32(atk + w - v.player_defense as i64)
}

/// Creature `i` takes its turn (see `creature_turn_spec`): the creature is
/// replaced by its state after the turn, a blow it sends joins the blows
/// on their way, and `order` counts the turn's blows. Returns whether the
/// creature picks up what lies under it.
pub fn creature_turn(
    creatures: &mut Vec<Creature>,
    pending: &mut Vec<PendingHit>,
    defs: &GameDefs,
    i: usize,
    v: &TurnView,
    order: &mut u16,
) -> (picks_up: bool)
    requires
        i < old(creatures)@.len(),
        creature_turn_ok(old(creatures)@[i as int], *defs, *v),
    ensures
        ({
            let c = old(creatures)@[i as int];
            let r = creature_turn_spec(c, kind_stats_spec(*defs, c.kind@)->0, *v, *old(order));
            &&& final(creatures)@ == old(creatures)@.update(i as int, r.creature)
            &&& final(pending)@ == (match r.hit {
                Some(h) => old(pending)@.push(h),
                None => old(pending)@,
            })
            &&& *final(order) == r.order
            &&& picks_up == r.picks_up
        }),
{
    let ghost before = creatures@;
    let k = match kind_stats(defs, creatures[i].kind.as_str()) {
        Some(k) => k,
        None => return false,
    };
    let c = creatures.remove(i);
    let r = turn_exec(c, k, v, *order);
    creatures.insert(i, r.creature);
    assert(creatures@ =~= before.update(i as int, r.creature));
    match r.hit {
        Some(h) => pending.push(h),
        None => {},
    }
    *order = r.order;
    r.picks_up
}

/// Creature `i` picks up `item` from under it.
pub fn creature_take_item(creatures: &mut Vec<Creature>, i: usize, item: Item)
    requires
        i < old(creatures)@.len(),
    ensures
        final(creatures)@.len() == old(creatures)@.len(),
        forall|j: int| 0 <= j < old(creatures)@.len() && j != i ==> final(creatures)@[j] == old(creatures)@[j],
        final(creatures)@[i as int].carried@ == old(creatures)@[i as int].carried@.push(
            CarriedItem { item, drop_chance: 100 },
        ),
        final(creatures)@[i as int].weapon == (if is_weapon_spec(item) { Some(item) } else { old(creatures)@[i as int].weapon }),
        final(creatures)@[i as int].id == old(creatures)@[i as int].id,
        final(creatures)@[i as int].kind == old(creatures)@[i as int].kind,
        final(creatures)@[i as int].x == old(creatures)@[i as int].x,
        final(creatures)@[i as int].y == old(creatures)@[i as int].y,
        final(creatures)@[i as int].hp == old(creatures)@[i as int].hp,
        final(creatures)@[i as int].status == old(creatures)@[i as int].status,
        final(creatures)@[i as int].facing == old(creatures)@[i as int].facing,
        final(creatures)@[i as int].flee == old(creatures)@[i as int].flee,
{
    let ghost before = creatures@;
    let mut c = creatures.remove(i);
    if is_weapon_item(item) {
        c.weapon = Some(item);
    }
    c.carried.push(CarriedItem { item, drop_chance: 100 });
    creatures.insert(i, c);
    assert forall|j: int| 0 <= j < before.len() && j != i implies creatures@[j] == before[j] by {
        if j < i {
        } else {
        }
    }
}

// ---------------------------------------------------------------------------
// Blows on their way
// ---------------------------------------------------------------------------

/// The blows among the first `n` whose delay is over, in order.
pub open spec fn due_hits(s: Seq<PendingHit>, n: nat) -> Seq<PendingHit>
    decreases n,
{
    if n == 0 {
        Seq::empty()
    } else if s[n - 1].delay == 0 {
        due_hits(s, (n - 1) as nat).push(s[n - 1])
    } else {
        due_hits(s, (n - 1) as nat)
    }
}

/// The blows among the first `n` still on their way, one frame nearer.
pub open spec fn waiting_hits(s: Seq<PendingHit>, n: nat) -> Seq<PendingHit>
    decreases n,
{
    if n == 0 {
        Seq::empty()
    } else if s[n - 1].delay == 0 {
        waiting_hits(s, (n - 1) as nat)
    } else {
        waiting_hits(s, (n - 1) as nat).push(PendingHit { delay: (s[n - 1].delay - 1) as u8, ..s[n - 1] })
    }
}

/// One frame passes: the blows whose delay is over land now (returned in
/// the order they were sent); the others come one frame nearer.
pub fn advance_hits(pending: &mut Vec<PendingHit>) -> (due: Vec<PendingHit>)
    ensures
        due@ == due_hits(old(pending)@, old(pending)@.len()),
        final(pending)@ == waiting_hits(old(pending)@, old(pending)@.len()),
{
    let ghost s = pending@;
    let mut due: Vec<PendingHit> = Vec::new();
    let mut rest: Vec<PendingHit> = Vec::new();
    let mut taken: Vec<PendingHit> = Vec::new();
    std::mem::swap(&mut taken, pending);
    let mut k: usize = 0;
    while k < taken.len()
        invariant
            taken@ == s,
            k <= s.len(),
            due@ == due_hits(s, k as nat),
            rest@ == waiting_hits(s, k as nat),
        decreases s.len() - k,
    {
        let d = taken[k].delay;
        let h = PendingHit {
            kind: taken[k].kind.clone(),
            damage: taken[k].damage,
            burning: taken[k].burning,
            slowed: taken[k].slowed,
            delay: if d == 0 { 0 } else { d - 1 },
            from: taken[k].from,
            agility: taken[k].agility,
        };
        if d == 0 {
            assert(h == s[k as int]);
            due.push(h);
        } else {
            rest.push(h);
        }
        k = k + 1;
    }
    *pending = rest;
    due
}

} // verus!
