//! Experience and levels, combat formulas, status effects and equipment bonuses.
use vstd::prelude::*;

use crate::inventory::{FORGE_SCROLL_ATK_BONUS_MAX, Inventory, InventoryItem};
use crate::items::Item;
use crate::strings::{decimal, decimal_string};

verus! {

/// Experience the first level asks for.
pub const LEVEL_EXP_BASE: u32 = 20;

/// Extra experience each further level asks for.
pub const LEVEL_EXP_STEP: u32 = 12;

/// MP gained at each level-up.
pub const LEVEL_UP_MP_GAIN: i32 = 2;

/// Max HP gained at each level-up.
pub const LEVEL_UP_HP_GAIN: i32 = 3;

/// Experience needed to leave `level`.
pub open spec fn exp_needed_spec(level: u32) -> int {
    LEVEL_EXP_BASE + (if level >= 1 { level - 1 } else { 0 }) * LEVEL_EXP_STEP
}

/// Experience needed to leave `level`.
pub fn exp_needed_for_level(level: u32) -> (e: u32)
    requires
        exp_needed_spec(level) <= u32::MAX,
    ensures
        e == exp_needed_spec(level),
{
    let gained = level.saturating_sub(1);
    assert(gained * LEVEL_EXP_STEP <= u32::MAX);
    LEVEL_EXP_BASE + (gained * LEVEL_EXP_STEP)
}

/// `x` saturated into the range of `i32`.
pub open spec fn sat_i32(x: int) -> i32 {
    if x > i32::MAX {
        i32::MAX
    } else if x < i32::MIN {
        i32::MIN
    } else {
        x as i32
    }
}

/// The player's level, experience and the pools that levels raise.
#[derive(Clone, Copy, Debug, PartialEq, Eq, Structural)]
pub struct Progress {
    pub level: u32,
    pub exp: u32,
    pub next_exp: u32,
    pub player_max_hp: i32,
    pub player_mp: i32,
    pub player_max_mp: i32,
    pub stat_total_exp: u32,
}

/// One level-up: the cost is paid, the level rises, the next cost is set, max
/// HP and max MP grow, and MP grows by the same amount up to its new maximum.
pub open spec fn level_up_step(p: Progress) -> Progress {
    let level: u32 = p.level.saturating_add(1);
    let max_mp = sat_i32(p.player_max_mp + LEVEL_UP_MP_GAIN);
    let mp = if p.player_mp + LEVEL_UP_MP_GAIN < max_mp { p.player_mp + LEVEL_UP_MP_GAIN } else { max_mp as int };
    Progress {
        level,
        exp: (p.exp - p.next_exp) as u32,
        next_exp: exp_needed_spec(level) as u32,
        player_max_hp: sat_i32(p.player_max_hp + LEVEL_UP_HP_GAIN),
        player_mp: mp as i32,
        player_max_mp: max_mp,
        stat_total_exp: p.stat_total_exp,
    }
}

/// Level-ups while the experience covers the next cost.
pub open spec fn level_ups(p: Progress) -> Progress
    decreases p.exp,
{
    if p.next_exp > 0 && p.exp >= p.next_exp {
        level_ups(level_up_step(p))
    } else {
        p
    }
}

/// Number of level-ups that `level_ups` performs.
pub open spec fn level_up_count(p: Progress) -> nat
    decreases p.exp,
{
    if p.next_exp > 0 && p.exp >= p.next_exp {
        1 + level_up_count(level_up_step(p))
    } else {
        0
    }
}

/// Gaining `amount` experience: experience and its total grow (saturating),
/// then as many level-ups follow as the experience pays for.
pub open spec fn gain_exp_spec(p: Progress, amount: u32) -> Progress {
    if amount == 0 {
        p
    } else {
        level_ups(Progress { exp: p.exp.saturating_add(amount), stat_total_exp: p.stat_total_exp.saturating_add(amount), ..p })
    }
}

/// The most level-ups that gaining `amount` experience can pay for: one for
/// the current cost (at least one point), then one per twenty points, as
/// every later cost is at least twenty.
pub open spec fn max_level_ups(p: Progress, amount: u32) -> int {
    p.exp.saturating_add(amount) / 20 + 1
}

/// Gaining `amount` experience keeps the level-up arithmetic in range: the
/// current cost is positive (a restored game always has one), the levels
/// reached keep their cost within `u32`, and MP and max MP, raised by two
/// per level, stay within `i32`.
pub open spec fn progress_in_range(p: Progress, amount: u32) -> bool {
    &&& p.next_exp >= 1
    &&& exp_needed_spec((p.level + max_level_ups(p, amount) + 1) as u32) <= u32::MAX
    &&& p.level + max_level_ups(p, amount) + 1 <= u32::MAX
    &&& p.player_mp + 2 <= i32::MAX
    &&& p.player_max_mp + 2 * max_level_ups(p, amount) + 2 <= i32::MAX
}

proof fn lemma_exp_needed_monotone(a: u32, b: u32)
    requires
        a <= b,
    ensures
        exp_needed_spec(a) <= exp_needed_spec(b),
{
    assert((if a >= 1 { a - 1 } else { 0 }) * LEVEL_EXP_STEP <= (if b >= 1 { b - 1 } else { 0 }) * LEVEL_EXP_STEP) by (nonlinear_arith)
        requires
            a <= b,
    ;
}

impl Progress {
    /// Adds `amount` experience and applies every level-up it pays for.
    /// Returns the number of level-ups.
    pub fn gain_exp(&mut self, amount: u32) -> (gained: u32)
        requires
            progress_in_range(*old(self), amount),
        ensures
            *final(self) == gain_exp_spec(*old(self), amount),
            gained == (if amount == 0 { 0 } else { level_up_count(Progress { exp: old(self).exp.saturating_add(amount), stat_total_exp: old(self).stat_total_exp.saturating_add(amount), ..*old(self) }) }),
            amount > 0 ==> final(self).exp < final(self).next_exp,
            final(self).level == old(self).level + gained,
    {
        if amount == 0 {
            return 0;
        }
        self.exp = self.exp.saturating_add(amount);
        self.stat_total_exp = self.stat_total_exp.saturating_add(amount);
        let ghost start = *self;
        let ghost total: int = self.exp as int;
        let mut count: u32 = 0;
        let ghost mut consumed: int = 0;
        while self.exp >= self.next_exp
            invariant
                level_ups(*self) == level_ups(start),
                count as nat + level_up_count(*self) == level_up_count(start),
                total == start.exp,
                total / 20 + 1 == max_level_ups(*old(self), amount),
                start.level + total / 20 + 2 <= u32::MAX,
                exp_needed_spec((start.level + total / 20 + 2) as u32) <= u32::MAX,
                start.player_max_mp + 2 * (total / 20 + 1) + 2 <= i32::MAX,
                self.level == start.level + count,
                self.next_exp >= 1,
                count > 0 ==> self.player_mp <= self.player_max_mp,
                count == 0 ==> self.player_mp == start.player_mp,
                start.player_mp + 2 <= i32::MAX,
                self.player_max_mp == start.player_max_mp + 2 * count,
                self.exp + consumed == start.exp,
                consumed >= 0,
                count == 0 || 20 * count <= consumed + 20,
                count == 0 ==> consumed == 0,
                count > 0 ==> self.next_exp >= 20,
                self.stat_total_exp == start.stat_total_exp,
            decreases self.exp,
        {
            assert(count <= total / 20 + 1) by (nonlinear_arith)
                requires
                    count == 0 || 20 * count <= consumed + 20,
                    consumed <= total,
                    consumed >= 0,
            ;
            let ghost before = *self;
            let cost = self.next_exp;
            self.exp = self.exp - cost;
            self.level = self.level + 1;
            proof {
                lemma_exp_needed_monotone(self.level, (start.level + total / 20 + 2) as u32);
            }
            self.next_exp = exp_needed_for_level(self.level);
            self.player_max_hp = if self.player_max_hp > i32::MAX - LEVEL_UP_HP_GAIN {
                i32::MAX
            } else {
                self.player_max_hp + LEVEL_UP_HP_GAIN
            };
            self.player_max_mp = self.player_max_mp + LEVEL_UP_MP_GAIN;
            let raised = self.player_mp + LEVEL_UP_MP_GAIN;
            self.player_mp = if raised < self.player_max_mp {
                raised
            } else {
                self.player_max_mp
            };
            proof {
                consumed = consumed + cost;
                assert(*self == level_up_step(before));
            }
            count = count + 1;
        }
        count
    }
}

/// Damage dealt: attack minus defence, at least one.
pub fn calc_damage(attack: i32, defense: i32) -> (d: i32)
    requires
        i32::MIN <= attack - defense <= i32::MAX,
    ensures
        d == if attack - defense > 1 { attack - defense } else { 1 },
{
    let raw = attack - defense;
    if raw > 1 {
        raw
    } else {
        1
    }
}

/// Integer division by three rounding toward zero, as Rust's `/` does.
pub open spec fn div3_toward_zero(x: int) -> int {
    if x >= 0 {
        x / 3
    } else {
        -((-x) / 3)
    }
}

/// Chance (percent) that a defender evades: it grows with the defender's lead
/// in agility and shrinks when both sides are fast, within 1..=60.
pub open spec fn evade_chance_spec(attacker_agility: int, defender_agility: int) -> int {
    let chance = 14 + (defender_agility - attacker_agility) * 4 - div3_toward_zero(attacker_agility + defender_agility);
    if chance < 1 {
        1
    } else if chance > 60 {
        60
    } else {
        chance
    }
}

/// Law: the evade chance is 14 percent, plus 4 for each point of agility
/// the defender has over the attacker, less a third (rounded toward zero)
/// of the two agilities together, kept within 1 and 60 percent; a defender
/// one point quicker never evades less often, and a quicker attacker never
/// makes it evade more often.
pub proof fn lemma_evade_chance(a: int, d: int)
    ensures
        ({
            let s = a + d;
            let third = if s >= 0 { s / 3 } else { -((-s) / 3) };
            let raw = 14 + 4 * (d - a) - third;
            evade_chance_spec(a, d) == (if raw < 1 { 1 } else if raw > 60 { 60 } else { raw })
        }),
        1 <= evade_chance_spec(a, d) <= 60,
        evade_chance_spec(a, d) <= evade_chance_spec(a, d + 1),
        evade_chance_spec(a + 1, d) <= evade_chance_spec(a, d),
{
    let s = a + d;
    assert(div3_toward_zero(s + 1) <= div3_toward_zero(s) + 1);
    assert(div3_toward_zero(s + 1) >= div3_toward_zero(s));
}

/// The evade chance's intermediate values fit in `i32`.
pub open spec fn evade_fits(a: int, d: int) -> bool {
    &&& i32::MIN <= (d - a) * 4 <= i32::MAX
    &&& i32::MIN <= a + d <= i32::MAX
    &&& i32::MIN <= 14 + (d - a) * 4 <= i32::MAX
    &&& i32::MIN <= 14 + (d - a) * 4 - div3_toward_zero(a + d) <= i32::MAX
}

/// Chance (percent) that a defender evades an attack.
pub fn evade_chance_percent(attacker_agility: i32, defender_agility: i32) -> (c: u8)
    requires
        evade_fits(attacker_agility as int, defender_agility as int),
    ensures
        c == evade_chance_spec(attacker_agility as int, defender_agility as int),
        1 <= c <= 60,
{
    let diff_term = (defender_agility - attacker_agility) * 4;
    let sum = attacker_agility + defender_agility;
    let speed_pressure = sum / 3;
    let chance = 14 + diff_term - speed_pressure;
    let r = if chance < 1 {
        1
    } else if chance > 60 {
        60
    } else {
        chance
    };
    r as u8
}

} // verus!
