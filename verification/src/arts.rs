//! The player's techniques: what a scroll, a pulse bomb or an ancient
//! weapon casts, and where along the player's facing (or around the player)
//! it lands, given what lies on the cells ahead.
use vstd::prelude::*;

use crate::enemies::{before, enemy_turn_order, is_turn_order, lemma_turn_order_is_permutation, listed};
use crate::items::{sign, Item};
use crate::player::Spell;

verus! {

/// One cell ahead of the player, counted from the first step.
#[derive(Clone, Copy, Debug, PartialEq, Eq, Structural)]
pub struct RayCell {
    /// Walkable and not blocked by a structure.
    pub open: bool,
    /// A creature stands on it.
    pub creature: bool,
}

/// Open and empty.
pub open spec fn clear(c: RayCell) -> bool {
    c.open && !c.creature
}

/// The first `n` cells are open and empty.
pub open spec fn clear_before(cells: Seq<RayCell>, n: int) -> bool {
    forall|k: int| 0 <= k < n ==> #[trigger] clear(cells[k])
}

/// The first `n` cells are open.
pub open spec fn open_before(cells: Seq<RayCell>, n: int) -> bool {
    forall|k: int| 0 <= k < n ==> #[trigger] cells[k].open
}

/// How many cells a ray of `range` can look at.
pub open spec fn ray_limit(cells: Seq<RayCell>, range: int) -> int {
    if range < cells.len() { range } else { cells.len() as int }
}

/// Where a ray that stops at the first creature ends.
#[derive(Clone, Copy, Debug, PartialEq, Eq, Structural)]
pub enum LineStrike {
    /// The creature `step` cells ahead is struck.
    Hit(u8),
    /// No creature was met; the ray crossed `reach` cells.
    Miss(u8),
}

/// What a ray of `range` that stops at walls and at the first creature
/// does: it strikes the creature on the first cell that is not empty, when
/// that cell is open; otherwise it ends before that cell (or at its range).
pub open spec fn line_strike_ok(cells: Seq<RayCell>, range: int, r: LineStrike) -> bool {
    let lim = ray_limit(cells, range);
    match r {
        LineStrike::Hit(step) => {
            &&& 1 <= step <= lim
            &&& clear_before(cells, step - 1)
            &&& cells[step - 1].open
            &&& cells[step - 1].creature
        },
        LineStrike::Miss(reach) => {
            &&& reach <= lim
            &&& clear_before(cells, reach as int)
            &&& (reach == lim || !cells[reach as int].open)
        },
    }
}

/// The ray of a line technique or a thrown item, up to `range` cells.
pub fn line_strike(cells: &Vec<RayCell>, range: u8) -> (r: LineStrike)
    ensures
        line_strike_ok(cells@, range as int, r),
{
    let lim: usize = if (range as usize) < cells.len() { range as usize } else { cells.len() };
    let mut k: usize = 0;
    while k < lim
        invariant
            lim == ray_limit(cells@, range as int),
            lim <= range,
            k <= lim,
            clear_before(cells@, k as int),
        decreases lim - k,
    {
        let c = cells[k];
        if !c.open {
            return LineStrike::Miss(k as u8);
        }
        if c.creature {
            return LineStrike::Hit((k + 1) as u8);
        }
        k = k + 1;
    }
    LineStrike::Miss(k as u8)
}

/// The steps of the creatures among the first `n` cells, nearest first.
pub open spec fn creature_steps(cells: Seq<RayCell>, n: nat) -> Seq<u8>
    decreases n,
{
    if n == 0 {
        Seq::empty()
    } else if cells[n - 1].creature {
        creature_steps(cells, (n - 1) as nat).push(n as u8)
    } else {
        creature_steps(cells, (n - 1) as nat)
    }
}

/// The ray of a piercing technique: it crosses every open cell up to its
/// range and strikes each creature on them. Returns the steps struck,
/// nearest first, and the cells crossed.
pub fn piercing_strike(cells: &Vec<RayCell>, range: u8) -> (r: (Vec<u8>, u8))
    ensures
        r.1 <= ray_limit(cells@, range as int),
        open_before(cells@, r.1 as int),
        r.1 == ray_limit(cells@, range as int) || !cells@[r.1 as int].open,
        r.0@ == creature_steps(cells@, r.1 as nat),
{
    let lim: usize = if (range as usize) < cells.len() { range as usize } else { cells.len() };
    let mut steps: Vec<u8> = Vec::new();
    let mut k: usize = 0;
    while k < lim
        invariant
            lim == ray_limit(cells@, range as int),
            lim <= range,
            k <= lim,
            open_before(cells@, k as int),
            steps@ == creature_steps(cells@, k as nat),
        decreases lim - k,
    {
        let c = cells[k];
        if !c.open {
            return (steps, k as u8);
        }
        if c.creature {
            steps.push((k + 1) as u8);
        }
        k = k + 1;
    }
    (steps, k as u8)
}

/// How many of the first `limit` flags are true before the first false one.
pub open spec fn free_run_ok(free: Seq<bool>, limit: int, n: int) -> bool {
    let lim = if limit < free.len() { limit } else { free.len() as int };
    &&& 0 <= n <= lim
    &&& forall|k: int| 0 <= k < n ==> #[trigger] free[k]
    &&& (n == lim || !free[n])
}

/// The cells a blink or a knockback moves over: the free cells ahead, at
/// most `limit` of them, up to the first that is not free.
pub fn free_run(free: &Vec<bool>, limit: u8) -> (n: u8)
    ensures
        free_run_ok(free@, limit as int, n as int),
{
    let lim: usize = if (limit as usize) < free.len() { limit as usize } else { free.len() };
    let mut k: usize = 0;
    while k < lim
        invariant
            lim == (if (limit as int) < free@.len() { limit as int } else { free@.len() as int }),
            lim <= limit,
            k <= lim,
            forall|j: int| 0 <= j < k ==> #[trigger] free@[j],
        decreases lim - k,
    {
        if !free[k] {
            return k as u8;
        }
        k = k + 1;
    }
    k as u8
}

/// The zenith transit looks this many cells ahead.
pub const TRANSIT_RANGE: u8 = 6;
/// A transit that meets no barrier goes at most this far.
pub const TRANSIT_NEAR: u8 = 3;

/// Cell `s` (counted from one) can be landed on.
pub open spec fn landing(cells: Seq<RayCell>, s: int) -> bool {
    clear(cells[s - 1])
}

/// Cell `s` can be landed on and a barrier stands before it.
pub open spec fn beyond_barrier(cells: Seq<RayCell>, s: int) -> bool {
    landing(cells, s) && exists|k: int| 0 <= k < s - 1 && !(#[trigger] cells[k]).open
}

/// Cell `s`, at most the near distance, can be landed on with no barrier
/// before it.
pub open spec fn near_landing(cells: Seq<RayCell>, s: int) -> bool {
    s <= TRANSIT_NEAR && landing(cells, s) && open_before(cells, s - 1)
}

/// The zenith transit lands on the first landable cell past a barrier
/// within its range; with none, on the farthest landable near cell that no
/// barrier precedes; with neither, it fails.
pub open spec fn transit_ok(cells: Seq<RayCell>, r: Option<u8>) -> bool {
    let lim = ray_limit(cells, TRANSIT_RANGE as int);
    let none_beyond = forall|t: int| 1 <= t <= lim ==> !#[trigger] beyond_barrier(cells, t);
    match r {
        Some(s) => {
            &&& 1 <= s <= lim
            &&& {
                ||| beyond_barrier(cells, s as int) && forall|t: int| 1 <= t < s ==> !#[trigger] beyond_barrier(cells, t)
                ||| none_beyond && near_landing(cells, s as int) && forall|t: int|
                    s < t <= lim ==> !#[trigger] near_landing(cells, t)
            }
        },
        None => none_beyond && forall|t: int| 1 <= t <= lim ==> !#[trigger] near_landing(cells, t),
    }
}

/// Where the zenith transit carries the player, in steps ahead.
pub fn transit_step(cells: &Vec<RayCell>) -> (r: Option<u8>)
    ensures
        transit_ok(cells@, r),
{
    let lim: usize = if (TRANSIT_RANGE as usize) < cells.len() { TRANSIT_RANGE as usize } else { cells.len() };
    let mut crossed = false;
    let mut fallback: u8 = 0;
    let mut k: usize = 0;
    while k < lim
        invariant
            lim == ray_limit(cells@, TRANSIT_RANGE as int),
            lim <= TRANSIT_RANGE,
            k <= lim,
            crossed <==> exists|j: int| 0 <= j < k && !(#[trigger] cells@[j]).open,
            forall|t: int| 1 <= t <= k ==> !#[trigger] beyond_barrier(cells@, t),
            fallback <= k,
            fallback == 0 || near_landing(cells@, fallback as int),
            forall|t: int| fallback < t <= k ==> !#[trigger] near_landing(cells@, t),
        decreases lim - k,
    {
        let c = cells[k];
        if !c.open {
            crossed = true;
            proof {
                assert(!beyond_barrier(cells@, k + 1));
                assert(!near_landing(cells@, k + 1));
            }
        } else if c.creature {
            proof {
                assert(!landing(cells@, k + 1));
            }
        } else if crossed {
            proof {
                let j = choose|j: int| 0 <= j < k && !(#[trigger] cells@[j]).open;
                assert(beyond_barrier(cells@, k + 1));
            }
            return Some((k + 1) as u8);
        } else {
            proof {
                assert(open_before(cells@, k as int));
                assert(!beyond_barrier(cells@, k + 1));
            }
            if k + 1 <= TRANSIT_NEAR as usize {
                fallback = (k + 1) as u8;
            } else {
                assert(!near_landing(cells@, k + 1));
            }
        }
        k = k + 1;
    }
    if fallback > 0 {
        Some(fallback)
    } else {
        None
    }
}


// ---------------------------------------------------------------------------
// Techniques around the player
// ---------------------------------------------------------------------------

/// The offset `d` lies within `radius` of the player (Euclidean).
pub open spec fn in_burst(d: (i32, i32), radius: int) -> bool {
    d.0 * d.0 + d.1 * d.1 <= radius * radius
}

fn in_burst_exec(d: (i32, i32), radius: i32) -> (b: bool)
    ensures
        b == in_burst(d, radius as int),
{
    let x = d.0 as i128;
    let y = d.1 as i128;
    let r = radius as i128;
    assert(0 <= x * x <= 0x4000_0000_0000_0000 && 0 <= y * y <= 0x4000_0000_0000_0000 && 0 <= r * r <= 0x4000_0000_0000_0000)
        by (nonlinear_arith)
        requires
            -0x8000_0000 <= x <= 0x8000_0000,
            -0x8000_0000 <= y <= 0x8000_0000,
            -0x8000_0000 <= r <= 0x8000_0000,
    ;
    x * x + y * y <= r * r
}

/// The positions among the first `n` offsets within `radius`, in list order.
pub open spec fn burst_prefix(offsets: Seq<(i32, i32)>, radius: int, n: nat) -> Seq<usize>
    decreases n,
{
    if n == 0 {
        Seq::empty()
    } else if in_burst(offsets[n - 1], radius) {
        burst_prefix(offsets, radius, (n - 1) as nat).push((n - 1) as usize)
    } else {
        burst_prefix(offsets, radius, (n - 1) as nat)
    }
}

/// The creatures a burst of `radius` strikes, given their offsets from the
/// player, in the order they are listed.
pub fn burst_targets(offsets: &Vec<(i32, i32)>, radius: i32) -> (r: Vec<usize>)
    ensures
        r@ == burst_prefix(offsets@, radius as int, offsets@.len()),
{
    let mut r: Vec<usize> = Vec::new();
    let mut k: usize = 0;
    while k < offsets.len()
        invariant
            k <= offsets@.len(),
            r@ == burst_prefix(offsets@, radius as int, k as nat),
        decreases offsets@.len() - k,
    {
        if in_burst_exec(offsets[k], radius) {
            r.push(k);
        }
        k = k + 1;
    }
    r
}

/// The nova reaches this far around the player.
pub const NOVA_RADIUS: i32 = 4;

/// The creatures a nova strikes: every creature within its radius, by id,
/// ascending (equal ids in list order). `offsets[i]` is where creature `i`
/// stands from the player and `ids[i]` its id.
pub fn nova_targets(ids: &Vec<u64>, offsets: &Vec<(i32, i32)>) -> (r: Vec<usize>)
    requires
        ids@.len() == offsets@.len(),
    ensures
        forall|m: int| 0 <= m < r@.len() ==> #[trigger] r@[m] < ids@.len() && in_burst(
            offsets@[r@[m] as int],
            NOVA_RADIUS as int,
        ),
        forall|m: int, l: int| 0 <= m < l < r@.len() ==> before(ids@, r@[m] as int, r@[l] as int),
        forall|p: int| 0 <= p < ids@.len() && in_burst(offsets@[p], NOVA_RADIUS as int) ==> listed(r@, p),
{
    let order = enemy_turn_order(ids);
    proof {
        lemma_turn_order_is_permutation(ids@, order@);
    }
    let mut r: Vec<usize> = Vec::new();
    let mut k: usize = 0;
    while k < order.len()
        invariant
            ids@.len() == offsets@.len(),
            is_turn_order(ids@, order@),
            k <= order@.len(),
            forall|m: int| 0 <= m < r@.len() ==> #[trigger] r@[m] < ids@.len() && in_burst(
                offsets@[r@[m] as int],
                NOVA_RADIUS as int,
            ),
            forall|m: int| #![trigger r@[m]] 0 <= m < r@.len() ==> exists|j: int| 0 <= j < k && #[trigger] order@[j] == r@[m],
            forall|m: int, l: int| 0 <= m < l < r@.len() ==> before(ids@, r@[m] as int, r@[l] as int),
            forall|j: int| 0 <= j < k && in_burst(offsets@[#[trigger] order@[j] as int], NOVA_RADIUS as int) ==> listed(
                r@,
                order@[j] as int,
            ),
        decreases order@.len() - k,
    {
        let i = order[k];
        if in_burst_exec(offsets[i], NOVA_RADIUS) {
            let ghost old_r = r@;
            r.push(i);
            proof {
                assert forall|m: int, l: int| 0 <= m < l < r@.len() implies before(ids@, r@[m] as int, r@[l] as int) by {
                    if l == old_r.len() {
                        let j = choose|j: int| 0 <= j < k && #[trigger] order@[j] == old_r[m];
                        assert(before(ids@, order@[j] as int, order@[k as int] as int));
                    } else {
                        assert(r@[m] == old_r[m] && r@[l] == old_r[l]);
                    }
                }
                assert forall|m: int| #![trigger r@[m]] 0 <= m < r@.len() implies exists|j: int| 0 <= j < k + 1 && #[trigger] order@[j] == r@[m] by {
                    if m < old_r.len() {
                        let j = choose|j: int| 0 <= j < k && #[trigger] order@[j] == old_r[m];
                        assert(order@[j] == r@[m]);
                    } else {
                        assert(order@[k as int] == r@[m]);
                    }
                }
                assert forall|j: int| 0 <= j < k + 1 && in_burst(offsets@[#[trigger] order@[j] as int], NOVA_RADIUS as int) implies listed(
                    r@,
                    order@[j] as int,
                ) by {
                    if j < k {
                        let m = choose|m: int| 0 <= m < old_r.len() && #[trigger] old_r[m] == order@[j];
                        assert(r@[m] == old_r[m]);
                    } else {
                        assert(r@[old_r.len() as int] == order@[j]);
                    }
                }
            }
        }
        k = k + 1;
    }
    proof {
        assert forall|p: int| 0 <= p < ids@.len() && in_burst(offsets@[p], NOVA_RADIUS as int) implies listed(r@, p) by {
            assert(listed(order@, p));
            let j = choose|j: int| 0 <= j < order@.len() && #[trigger] order@[j] == p;
            assert(in_burst(offsets@[order@[j] as int], NOVA_RADIUS as int));
        }
    }
    r
}

/// The direction a creature at `(ex, ey)` is pushed away from `(ox, oy)`:
/// one step along each axis away from the origin; none when they share a
/// cell.
pub fn knockback_direction(ex: i32, ey: i32, ox: i32, oy: i32) -> (d: Option<(i32, i32)>)
    ensures
        d == (if ex == ox && ey == oy {
            None::<(i32, i32)>
        } else {
            Some((sign(ex - ox) as i32, sign(ey - oy) as i32))
        }),
{
    if ex == ox && ey == oy {
        return None;
    }
    let sx: i32 = if ex < ox { -1 } else if ex > ox { 1 } else { 0 };
    let sy: i32 = if ey < oy { -1 } else if ey > oy { 1 } else { 0 };
    Some((sx, sy))
}

// ---------------------------------------------------------------------------
// What each source casts
// ---------------------------------------------------------------------------

/// A technique of the player's.
#[derive(Clone, Copy, Debug, PartialEq, Eq, Structural)]
pub enum Technique {
    /// A ray of `range` cells that strikes the first creature on it with
    /// `bonus` added to the attack; a flame when `flame`.
    Line { range: u8, bonus: i32, burning: u8, slowed: u8, flame: bool },
    /// A ray of `range` cells that strikes every creature on it.
    Piercing { range: u8, bonus: i32, burning: u8, slowed: u8 },
    /// A burst that strikes every creature within `radius` and pushes it
    /// back up to `knockback` cells.
    Burst { radius: i32, bonus: i32, burning: u8, slowed: u8, knockback: u8 },
    /// A nova that strikes every creature within `radius`, by id.
    Nova { radius: i32, bonus: i32 },
    /// A blink of up to `range` free cells ahead.
    Blink { range: u8 },
    /// The zenith transit through a barrier ahead.
    Transit,
}

/// The technique a scroll's spell casts: flame a line of six (+4, a
/// flame), ember a line of five (+2, four turns burning, a flame), blink
/// four cells, bind a line of five (+1, four turns slowed), repulse a burst
/// of two (+1, two turns slowed, pushed two cells), nova a radius of four
/// (+2).
pub open spec fn spell_technique_spec(spell: Spell) -> Technique {
    match spell {
        Spell::Flame => Technique::Line { range: 6, bonus: 4, burning: 0, slowed: 0, flame: true },
        Spell::Ember => Technique::Line { range: 5, bonus: 2, burning: 4, slowed: 0, flame: true },
        Spell::Blink => Technique::Blink { range: 4 },
        Spell::Bind => Technique::Line { range: 5, bonus: 1, burning: 0, slowed: 4, flame: false },
        Spell::Repulse => Technique::Burst { radius: 2, bonus: 1, burning: 0, slowed: 2, knockback: 2 },
        Spell::Nova => Technique::Nova { radius: NOVA_RADIUS, bonus: 2 },
    }
}

/// The technique a spell casts (see `spell_technique_spec`).
pub fn spell_technique(spell: Spell) -> (t: Technique)
    ensures
        t == spell_technique_spec(spell),
{
    match spell {
        Spell::Flame => Technique::Line { range: 6, bonus: 4, burning: 0, slowed: 0, flame: true },
        Spell::Ember => Technique::Line { range: 5, bonus: 2, burning: 4, slowed: 0, flame: true },
        Spell::Blink => Technique::Blink { range: 4 },
        Spell::Bind => Technique::Line { range: 5, bonus: 1, burning: 0, slowed: 4, flame: false },
        Spell::Repulse => Technique::Burst { radius: 2, bonus: 1, burning: 0, slowed: 2, knockback: 2 },
        Spell::Nova => Technique::Nova { radius: NOVA_RADIUS, bonus: 2 },
    }
}

/// A pulse bomb bursts around the player: radius one, +3, three turns
/// slowed, pushed one cell.
pub fn pulse_bomb_technique() -> (t: Technique)
    ensures
        t == (Technique::Burst { radius: 1, bonus: 3, burning: 0, slowed: 3, knockback: 1 }),
{
    Technique::Burst { radius: 1, bonus: 3, burning: 0, slowed: 3, knockback: 1 }
}

/// The art of an equipped ancient weapon: the nadir blade pierces a line of
/// five (+4, one turn slowed), the iron of the fallen bursts at radius one
/// (+2, two turns slowed, pushed two cells), the eastern rod a flame line of
/// six (+3, four turns burning), the southern rod a line of five (+2, five
/// turns slowed), the zenith rod the transit. Other items have none.
pub open spec fn ancient_technique_spec(item: Item) -> Option<Technique> {
    match item {
        Item::GladiusNadir => Some(Technique::Piercing { range: 5, bonus: 4, burning: 0, slowed: 1 }),
        Item::FerrumOccasus => Some(Technique::Burst { radius: 1, bonus: 2, burning: 0, slowed: 2, knockback: 2 }),
        Item::VirgaOriens => Some(Technique::Line { range: 6, bonus: 3, burning: 4, slowed: 0, flame: true }),
        Item::VirgaMeridies => Some(Technique::Line { range: 5, bonus: 2, burning: 0, slowed: 5, flame: false }),
        Item::VirgaZenith => Some(Technique::Transit),
        _ => None,
    }
}

/// The art of an ancient weapon (see `ancient_technique_spec`).
pub fn ancient_technique(item: Item) -> (t: Option<Technique>)
    ensures
        t == ancient_technique_spec(item),
{
    match item {
        Item::GladiusNadir => Some(Technique::Piercing { range: 5, bonus: 4, burning: 0, slowed: 1 }),
        Item::FerrumOccasus => Some(Technique::Burst { radius: 1, bonus: 2, burning: 0, slowed: 2, knockback: 2 }),
        Item::VirgaOriens => Some(Technique::Line { range: 6, bonus: 3, burning: 4, slowed: 0, flame: true }),
        Item::VirgaMeridies => Some(Technique::Line { range: 5, bonus: 2, burning: 0, slowed: 5, flame: false }),
        Item::VirgaZenith => Some(Technique::Transit),
        _ => None,
    }
}

} // verus!
