//! Creatures born of the dark: every few turns one appears on a dark cell
//! around the player, where the fewest creatures already are.
use vstd::prelude::*;

use crate::noise::lcg_next;
use crate::spawning::{rand_spec, rand_u32};

verus! {

/// A creature may be born of the dark every this many turns.
pub const DARK_SPAWN_INTERVAL_TURNS: u64 = 6;
/// Cells searched reach this far from the player.
pub const DARK_SPAWN_RADIUS: i32 = 24;
/// Cells nearer than this (squared) are never used.
pub const DARK_SPAWN_MIN_DIST2: i32 = 25;
/// Creatures within this many cells (Chebyshev) crowd a cell.
pub const DARK_SPAWN_DENSITY_RADIUS: i32 = 6;

/// Whether turn `turn` may bring a creature of the dark.
pub fn dark_spawn_due(turn: u64) -> (b: bool)
    ensures
        b == (turn != 0 && turn % DARK_SPAWN_INTERVAL_TURNS == 0),
{
    turn != 0 && turn % DARK_SPAWN_INTERVAL_TURNS == 0
}

/// Offset `(dx, dy)` lies in the ring searched: no nearer than five cells
/// and no farther than the radius (Euclidean).
pub open spec fn in_dark_ring_spec(dx: int, dy: int) -> bool {
    DARK_SPAWN_MIN_DIST2 <= dx * dx + dy * dy <= DARK_SPAWN_RADIUS * DARK_SPAWN_RADIUS
}

/// Whether offset `(dx, dy)` lies in the ring searched.
pub fn in_dark_ring(dx: i32, dy: i32) -> (b: bool)
    requires
        -DARK_SPAWN_RADIUS <= dx <= DARK_SPAWN_RADIUS,
        -DARK_SPAWN_RADIUS <= dy <= DARK_SPAWN_RADIUS,
    ensures
        b == in_dark_ring_spec(dx as int, dy as int),
{
    assert(0 <= dx * dx <= 576 && 0 <= dy * dy <= 576) by (nonlinear_arith)
        requires
            -24 <= dx <= 24,
            -24 <= dy <= 24,
    ;
    let d2 = dx * dx + dy * dy;
    DARK_SPAWN_MIN_DIST2 <= d2 && d2 <= DARK_SPAWN_RADIUS * DARK_SPAWN_RADIUS
}

/// Creature `p` crowds cell `(x, y)`.
pub open spec fn crowds(p: (i32, i32), x: i32, y: i32) -> bool {
    -DARK_SPAWN_DENSITY_RADIUS <= p.0 - x <= DARK_SPAWN_DENSITY_RADIUS && -DARK_SPAWN_DENSITY_RADIUS <= p.1 - y
        <= DARK_SPAWN_DENSITY_RADIUS
}

/// How many of the first `n` creatures crowd `(x, y)`.
pub open spec fn crowd_count(ps: Seq<(i32, i32)>, x: i32, y: i32, n: nat) -> nat
    decreases n,
{
    if n == 0 {
        0
    } else {
        crowd_count(ps, x, y, (n - 1) as nat) + if crowds(ps[n - 1], x, y) { 1nat } else { 0nat }
    }
}

proof fn lemma_crowd_count_le(ps: Seq<(i32, i32)>, x: i32, y: i32, n: nat)
    ensures
        crowd_count(ps, x, y, n) <= n,
    decreases n,
{
    if n > 0 {
        lemma_crowd_count_le(ps, x, y, (n - 1) as nat);
    }
}

/// How crowded cell `(x, y)` is: the creatures (at `positions`) within
/// six cells of it.
pub fn density_score(positions: &Vec<(i32, i32)>, x: i32, y: i32) -> (n: usize)
    ensures
        n == crowd_count(positions@, x, y, positions@.len()),
{
    let mut n: usize = 0;
    let mut k: usize = 0;
    while k < positions.len()
        invariant
            k <= positions@.len(),
            n == crowd_count(positions@, x, y, k as nat),
        decreases positions@.len() - k,
    {
        proof {
            lemma_crowd_count_le(positions@, x, y, k as nat);
        }
        let (px, py) = positions[k];
        let near = x as i64 - 6 <= px as i64 && px as i64 <= x as i64 + 6 && y as i64 - 6 <= py as i64 && py as i64
            <= y as i64 + 6;
        if near {
            n = n + 1;
        }
        k = k + 1;
    }
    n
}

/// The smallest crowding among the first `n` cells that may be used
/// (`Some` density), if any.
pub open spec fn least_crowded(ds: Seq<Option<usize>>, n: nat) -> Option<usize>
    decreases n,
{
    if n == 0 {
        None
    } else {
        let before = least_crowded(ds, (n - 1) as nat);
        match ds[n - 1] {
            None => before,
            Some(d) => match before {
                None => Some(d),
                Some(m) => Some(if d < m { d } else { m }),
            },
        }
    }
}

/// The positions among the first `n` cells usable at crowding `m`.
pub open spec fn ties_at(ds: Seq<Option<usize>>, m: usize, n: nat) -> Seq<usize>
    decreases n,
{
    if n == 0 {
        Seq::empty()
    } else if ds[n - 1] == Some(m) {
        ties_at(ds, m, (n - 1) as nat).push((n - 1) as usize)
    } else {
        ties_at(ds, m, (n - 1) as nat)
    }
}

/// The least crowding is no more than any usable cell's, and is one of them.
proof fn lemma_least_is_min(ds: Seq<Option<usize>>, n: nat)
    requires
        n <= ds.len(),
    ensures
        forall|i: int| 0 <= i < n && #[trigger] ds[i] is Some ==> least_crowded(ds, n) is Some && least_crowded(ds, n)->0
            <= ds[i]->0,
        least_crowded(ds, n) is None ==> forall|i: int| 0 <= i < n ==> #[trigger] ds[i] is None,
    decreases n,
{
    if n > 0 {
        lemma_least_is_min(ds, (n - 1) as nat);
    }
}

/// No usable cell sits at a crowding below the least.
proof fn lemma_no_ties_below(ds: Seq<Option<usize>>, m: usize, n: nat)
    requires
        n <= ds.len(),
        forall|i: int| 0 <= i < n && #[trigger] ds[i] is Some ==> m < ds[i]->0,
    ensures
        ties_at(ds, m, n) == Seq::<usize>::empty(),
    decreases n,
{
    if n > 0 {
        lemma_no_ties_below(ds, m, (n - 1) as nat);
    }
}

/// Where a creature of the dark is born, given each searched cell's
/// crowding (`None` where no creature may stand: lit, seen, taken or out
/// of the ring): one of the least crowded cells, drawn with the game's
/// generator; none, leaving the generator untouched, when no cell can be
/// used.
pub fn pick_dark_spawn(densities: &Vec<Option<usize>>, rng_state: &mut u64) -> (r: Option<usize>)
    ensures
        match least_crowded(densities@, densities@.len()) {
            None => r is None && *final(rng_state) == *old(rng_state),
            Some(m) => {
                let ties = ties_at(densities@, m, densities@.len());
                &&& ties.len() > 0
                &&& r == Some(ties[(rand_spec(*old(rng_state)) as int) % (ties.len() as int)])
                &&& *final(rng_state) == lcg_next(*old(rng_state))
            },
        },
{
    let ghost ds = densities@;
    let mut best: Option<usize> = None;
    let mut ties: Vec<usize> = Vec::new();
    let mut k: usize = 0;
    while k < densities.len()
        invariant
            ds == densities@,
            k <= ds.len(),
            best == least_crowded(ds, k as nat),
            best is Some ==> ties@ == ties_at(ds, best->0, k as nat) && ties@.len() > 0,
            best is None ==> ties@.len() == 0,
        decreases ds.len() - k,
    {
        proof {
            lemma_least_is_min(ds, k as nat);
        }
        match densities[k] {
            None => {},
            Some(d) => match best {
                None => {
                    proof {
                        lemma_no_ties_below(ds, d, k as nat);
                    }
                    best = Some(d);
                    ties = Vec::new();
                    ties.push(k);
                },
                Some(m) => {
                    if d < m {
                        proof {
                            lemma_no_ties_below(ds, d, k as nat);
                        }
                        best = Some(d);
                        ties = Vec::new();
                        ties.push(k);
                    } else if d == m {
                        ties.push(k);
                    }
                },
            },
        }
        k = k + 1;
    }
    if ties.len() == 0 {
        proof {
            if best is Some {
                assert(ties@.len() > 0);
            }
        }
        return None;
    }
    let roll = rand_u32(rng_state);
    let i = (roll as usize) % ties.len();
    Some(ties[i])
}

} // verus!
