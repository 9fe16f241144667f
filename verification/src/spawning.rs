//! Who and what appears where: the game's random number generator, biome and
//! research-site weightings of creatures, the floors creatures first appear
//! on, item pools by biome and weighted picks.
use vstd::prelude::*;

use crate::items::{Facing, Item, StructureKind, facing_at};
use crate::noise::{LCG_MULTIPLIER, lcg_next};
use crate::player::is_wieldable;
use crate::strings::{decimal, decimal_chars, digit_char, str_eq, string_from_chars};
use crate::worldgen::BiomeId;

verus! {

// ---------------------------------------------------------------------------
// Random numbers
// ---------------------------------------------------------------------------

/// The upper half of the generator's next state.
pub open spec fn rand_spec(state: u64) -> u32 {
    (lcg_next(state) >> 32u64) as u32
}

/// Advances the game's generator and returns the upper half of its state.
pub fn rand_u32(rng_state: &mut u64) -> (r: u32)
    ensures
        *final(rng_state) == lcg_next(*old(rng_state)),
        r == rand_spec(*old(rng_state)),
{
    *rng_state = rng_state.wrapping_mul(LCG_MULTIPLIER).wrapping_add(1);
    (*rng_state >> 32u64) as u32
}

/// A number in `min_incl..=max_incl` drawn from the generator.
pub fn rand_range_i32(rng_state: &mut u64, min_incl: i32, max_incl: i32) -> (r: i32)
    requires
        min_incl <= max_incl,
        max_incl - min_incl < i32::MAX,
    ensures
        *final(rng_state) == lcg_next(*old(rng_state)),
        r == min_incl + rand_spec(*old(rng_state)) % ((max_incl - min_incl + 1) as u32),
        min_incl <= r <= max_incl,
{
    let span = (max_incl - min_incl + 1) as u32;
    let v = rand_u32(rng_state) % span;
    min_incl + v as i32
}

/// A roll that succeeds with `chance` percent; a zero chance fails without
/// drawing.
pub fn roll_percent(rng_state: &mut u64, chance: u8) -> (hit: bool)
    ensures
        chance == 0 ==> !hit && *final(rng_state) == *old(rng_state),
        chance > 0 ==> *final(rng_state) == lcg_next(*old(rng_state)) && hit == (rand_spec(
            *old(rng_state),
        ) % 100 < chance),
{
    if chance == 0 {
        return false;
    }
    rand_u32(rng_state) % 100 < chance as u32
}

/// A facing drawn from the generator.
pub fn random_facing(rng_state: &mut u64) -> (f: Facing)
    ensures
        *final(rng_state) == lcg_next(*old(rng_state)),
        f == facing_at((rand_spec(*old(rng_state)) % 8) as int),
{
    let k = rand_u32(rng_state) % 8;
    Facing::at(k as u8)
}

// ---------------------------------------------------------------------------
// Creature weightings
// ---------------------------------------------------------------------------

/// Creatures of the burnt husk family.
pub open spec fn husk_family(id: Seq<char>) -> bool {
    id == "melted_husk"@ || id == "engorged_husk"@ || id == "ash_eater"@ || id == "buried_ember"@
}

/// Creatures of the vessel family.
pub open spec fn vessel_family(id: Seq<char>) -> bool {
    id == "feral_vessel"@ || id == "dominion_vessel"@ || id == "scavenger_knight"@ || id
        == "seal_hound"@ || id == "specimen_guard"@
}

/// Creatures of the choir family.
pub open spec fn choir_family(id: Seq<char>) -> bool {
    id == "choir_mote"@ || id == "night_choir"@ || id == "prayer_remnant"@ || id == "incense_shell"@
}

/// Creatures of the frame family.
pub open spec fn frame_family(id: Seq<char>) -> bool {
    id == "grave_frame"@ || id == "cathedral_frame"@ || id == "stone_warden"@ || id
        == "tomb_warden"@ || id == "coffin_bearer"@ || id == "carrier_frame"@
}

fn is_husk_family(id: &str) -> (b: bool)
    ensures
        b == husk_family(id@),
{
    str_eq(id, "melted_husk") || str_eq(id, "engorged_husk") || str_eq(id, "ash_eater") || str_eq(
        id,
        "buried_ember",
    )
}

fn is_vessel_family(id: &str) -> (b: bool)
    ensures
        b == vessel_family(id@),
{
    str_eq(id, "feral_vessel") || str_eq(id, "dominion_vessel") || str_eq(id, "scavenger_knight")
        || str_eq(id, "seal_hound") || str_eq(id, "specimen_guard")
}

fn is_choir_family(id: &str) -> (b: bool)
    ensures
        b == choir_family(id@),
{
    str_eq(id, "choir_mote") || str_eq(id, "night_choir") || str_eq(id, "prayer_remnant") || str_eq(
        id,
        "incense_shell",
    )
}

fn is_frame_family(id: &str) -> (b: bool)
    ensures
        b == frame_family(id@),
{
    str_eq(id, "grave_frame") || str_eq(id, "cathedral_frame") || str_eq(id, "stone_warden")
        || str_eq(id, "tomb_warden") || str_eq(id, "coffin_bearer") || str_eq(id, "carrier_frame")
}

/// How much more (percent) a creature spawns in a biome. The sixteen biomes
/// form a 4x4 grid; each family favours its own corner of it.
pub open spec fn biome_multiplier_spec(biome: u8, id: Seq<char>) -> u32 {
    let bx = biome % 4;
    let by = biome / 4;
    if husk_family(id) {
        if (bx == 1 || bx == 2) && (by == 0 || by == 1) {
            220
        } else if (bx == 1 || bx == 2) && by == 2 {
            140
        } else {
            70
        }
    } else if vessel_family(id) {
        if (bx == 2 || bx == 3) && (by == 1 || by == 2) {
            220
        } else if bx == 1 && (by == 1 || by == 2) {
            130
        } else {
            55
        }
    } else if choir_family(id) {
        if (bx == 2 || bx == 3) && (by == 2 || by == 3) {
            220
        } else if bx == 1 && (by == 2 || by == 3) {
            125
        } else {
            55
        }
    } else if frame_family(id) {
        if bx == 0 || bx == 3 || by == 0 || by == 3 {
            190
        } else {
            75
        }
    } else {
        100
    }
}

/// Law: how each family's kinds spawn across the 4x4 biome grid (column
/// `biome % 4`, row `biome / 4`): the burnt husks (melted husk, engorged
/// husk, ash eater, buried ember) 220% in columns 1-2 of rows 0-1, 140% in
/// columns 1-2 of row 2, 70% elsewhere; the vessels (feral vessel,
/// dominion vessel, scavenger knight, seal hound, specimen guard) 220% in
/// columns 2-3 of rows 1-2, 130% in column 1 of rows 1-2, 55% elsewhere;
/// the choir (choir mote, night choir, prayer remnant, incense shell) 220%
/// in columns 2-3 of rows 2-3, 125% in column 1 of rows 2-3, 55%
/// elsewhere; the frames (grave frame, cathedral frame, stone warden, tomb
/// warden, coffin bearer, carrier frame) 190% on the grid's edge and 75%
/// inside; every other kind 100% everywhere.
pub proof fn lemma_biome_multipliers(biome: u8, id: Seq<char>)
    requires
        biome < 16,
    ensures
        ({
            let bx = biome % 4;
            let by = biome / 4;
            let husk: u32 = if (bx == 1 || bx == 2) && by <= 1 {
                220
            } else if (bx == 1 || bx == 2) && by == 2 {
                140
            } else {
                70
            };
            let vessel: u32 = if bx >= 2 && (by == 1 || by == 2) {
                220
            } else if bx == 1 && (by == 1 || by == 2) {
                130
            } else {
                55
            };
            let choir: u32 = if bx >= 2 && by >= 2 {
                220
            } else if bx == 1 && by >= 2 {
                125
            } else {
                55
            };
            let frame: u32 = if bx == 0 || bx == 3 || by == 0 || by == 3 { 190 } else { 75 };
            &&& biome_multiplier_spec(biome, "melted_husk"@) == (if (bx == 1
                || bx == 2) && by <= 1 { 220u32 } else if (bx == 1
                || bx == 2) && by == 2 { 140u32 } else { 70u32 })
            &&& biome_multiplier_spec(biome, "engorged_husk"@) == (if (bx == 1
                || bx == 2) && by <= 1 { 220u32 } else if (bx == 1
                || bx == 2) && by == 2 { 140u32 } else { 70u32 })
            &&& biome_multiplier_spec(biome, "ash_eater"@) == (if (bx == 1
                || bx == 2) && by <= 1 { 220u32 } else if (bx == 1
                || bx == 2) && by == 2 { 140u32 } else { 70u32 })
            &&& biome_multiplier_spec(biome, "buried_ember"@) == (if (bx == 1
                || bx == 2) && by <= 1 { 220u32 } else if (bx == 1
                || bx == 2) && by == 2 { 140u32 } else { 70u32 })
            &&& biome_multiplier_spec(biome, "feral_vessel"@) == (if bx >= 2 && (by == 1
                || by == 2) { 220u32 } else if bx == 1 && (by == 1 || by == 2) { 130u32 } else { 55u32 })
            &&& biome_multiplier_spec(biome, "dominion_vessel"@) == (if bx >= 2 && (by == 1
                || by == 2) { 220u32 } else if bx == 1 && (by == 1 || by == 2) { 130u32 } else { 55u32 })
            &&& biome_multiplier_spec(biome, "scavenger_knight"@) == (if bx >= 2 && (by == 1
                || by == 2) { 220u32 } else if bx == 1 && (by == 1 || by == 2) { 130u32 } else { 55u32 })
            &&& biome_multiplier_spec(biome, "seal_hound"@) == (if bx >= 2 && (by == 1
                || by == 2) { 220u32 } else if bx == 1 && (by == 1 || by == 2) { 130u32 } else { 55u32 })
            &&& biome_multiplier_spec(biome, "specimen_guard"@) == (if bx >= 2 && (by == 1
                || by == 2) { 220u32 } else if bx == 1 && (by == 1 || by == 2) { 130u32 } else { 55u32 })
            &&& biome_multiplier_spec(biome, "choir_mote"@) == choir
            &&& biome_multiplier_spec(biome, "night_choir"@) == choir
            &&& biome_multiplier_spec(biome, "prayer_remnant"@) == choir
            &&& biome_multiplier_spec(biome, "incense_shell"@) == choir
            &&& biome_multiplier_spec(biome, "grave_frame"@) == (if bx == 0 || bx == 3 || by == 0
                || by == 3 { 190u32 } else { 75u32 })
            &&& biome_multiplier_spec(biome, "cathedral_frame"@) == (if bx == 0 || bx == 3 || by == 0
                || by == 3 { 190u32 } else { 75u32 })
            &&& biome_multiplier_spec(biome, "stone_warden"@) == (if bx == 0 || bx == 3 || by == 0
                || by == 3 { 190u32 } else { 75u32 })
            &&& biome_multiplier_spec(biome, "tomb_warden"@) == (if bx == 0 || bx == 3 || by == 0
                || by == 3 { 190u32 } else { 75u32 })
            &&& biome_multiplier_spec(biome, "coffin_bearer"@) == (if bx == 0 || bx == 3 || by == 0
                || by == 3 { 190u32 } else { 75u32 })
            &&& biome_multiplier_spec(biome, "carrier_frame"@) == (if bx == 0 || bx == 3 || by == 0
                || by == 3 { 190u32 } else { 75u32 })
        }),
        !(id == "melted_husk"@ || id == "engorged_husk"@ || id == "ash_eater"@ || id == "buried_ember"@
            || id == "feral_vessel"@ || id == "dominion_vessel"@ || id == "scavenger_knight"@
            || id == "seal_hound"@ || id == "specimen_guard"@ || id == "choir_mote"@ || id == "night_choir"@
            || id == "prayer_remnant"@ || id == "incense_shell"@ || id == "grave_frame"@
            || id == "cathedral_frame"@ || id == "stone_warden"@ || id == "tomb_warden"@
            || id == "coffin_bearer"@ || id == "carrier_frame"@) ==> biome_multiplier_spec(biome, id) == 100,
{
    reveal_strlit("melted_husk");
    reveal_strlit("engorged_husk");
    reveal_strlit("ash_eater");
    reveal_strlit("buried_ember");
    reveal_strlit("feral_vessel");
    reveal_strlit("dominion_vessel");
    reveal_strlit("scavenger_knight");
    reveal_strlit("seal_hound");
    reveal_strlit("specimen_guard");
    reveal_strlit("choir_mote");
    reveal_strlit("night_choir");
    reveal_strlit("prayer_remnant");
    reveal_strlit("incense_shell");
    reveal_strlit("grave_frame");
    reveal_strlit("cathedral_frame");
    reveal_strlit("stone_warden");
    reveal_strlit("tomb_warden");
    reveal_strlit("coffin_bearer");
    reveal_strlit("carrier_frame");
    reveal_strlit("archive_scribe");
    reveal_strlit("relay_surgeon");
    reveal_strlit("flayed_specimen");
    assert("engorged_husk"@.len() != "melted_husk"@.len());
    assert("ash_eater"@.len() != "melted_husk"@.len());
    assert("ash_eater"@.len() != "engorged_husk"@.len());
    assert("buried_ember"@.len() != "melted_husk"@.len());
    assert("buried_ember"@.len() != "engorged_husk"@.len());
    assert("buried_ember"@.len() != "ash_eater"@.len());
    assert("feral_vessel"@.len() != "melted_husk"@.len());
    assert("feral_vessel"@.len() != "engorged_husk"@.len());
    assert("feral_vessel"@.len() != "ash_eater"@.len());
    assert("feral_vessel"@[0] != "buried_ember"@[0]);
    assert("dominion_vessel"@.len() != "melted_husk"@.len());
    assert("dominion_vessel"@.len() != "engorged_husk"@.len());
    assert("dominion_vessel"@.len() != "ash_eater"@.len());
    assert("dominion_vessel"@.len() != "buried_ember"@.len());
    assert("dominion_vessel"@.len() != "feral_vessel"@.len());
    assert("scavenger_knight"@.len() != "melted_husk"@.len());
    assert("scavenger_knight"@.len() != "engorged_husk"@.len());
    assert("scavenger_knight"@.len() != "ash_eater"@.len());
    assert("scavenger_knight"@.len() != "buried_ember"@.len());
    assert("scavenger_knight"@.len() != "feral_vessel"@.len());
    assert("scavenger_knight"@.len() != "dominion_vessel"@.len());
    assert("seal_hound"@.len() != "melted_husk"@.len());
    assert("seal_hound"@.len() != "engorged_husk"@.len());
    assert("seal_hound"@.len() != "ash_eater"@.len());
    assert("seal_hound"@.len() != "buried_ember"@.len());
    assert("seal_hound"@.len() != "feral_vessel"@.len());
    assert("seal_hound"@.len() != "dominion_vessel"@.len());
    assert("seal_hound"@.len() != "scavenger_knight"@.len());
    assert("specimen_guard"@.len() != "melted_husk"@.len());
    assert("specimen_guard"@.len() != "engorged_husk"@.len());
    assert("specimen_guard"@.len() != "ash_eater"@.len());
    assert("specimen_guard"@.len() != "buried_ember"@.len());
    assert("specimen_guard"@.len() != "feral_vessel"@.len());
    assert("specimen_guard"@.len() != "dominion_vessel"@.len());
    assert("specimen_guard"@.len() != "scavenger_knight"@.len());
    assert("specimen_guard"@.len() != "seal_hound"@.len());
    assert("choir_mote"@.len() != "melted_husk"@.len());
    assert("choir_mote"@.len() != "engorged_husk"@.len());
    assert("choir_mote"@.len() != "ash_eater"@.len());
    assert("choir_mote"@.len() != "buried_ember"@.len());
    assert("choir_mote"@.len() != "feral_vessel"@.len());
    assert("choir_mote"@.len() != "dominion_vessel"@.len());
    assert("choir_mote"@.len() != "scavenger_knight"@.len());
    assert("choir_mote"@[0] != "seal_hound"@[0]);
    assert("choir_mote"@.len() != "specimen_guard"@.len());
    assert("night_choir"@[0] != "melted_husk"@[0]);
    assert("night_choir"@.len() != "engorged_husk"@.len());
    assert("night_choir"@.len() != "ash_eater"@.len());
    assert("night_choir"@.len() != "buried_ember"@.len());
    assert("night_choir"@.len() != "feral_vessel"@.len());
    assert("night_choir"@.len() != "dominion_vessel"@.len());
    assert("night_choir"@.len() != "scavenger_knight"@.len());
    assert("night_choir"@.len() != "seal_hound"@.len());
    assert("night_choir"@.len() != "specimen_guard"@.len());
    assert("night_choir"@.len() != "choir_mote"@.len());
    assert("prayer_remnant"@.len() != "melted_husk"@.len());
    assert("prayer_remnant"@.len() != "engorged_husk"@.len());
    assert("prayer_remnant"@.len() != "ash_eater"@.len());
    assert("prayer_remnant"@.len() != "buried_ember"@.len());
    assert("prayer_remnant"@.len() != "feral_vessel"@.len());
    assert("prayer_remnant"@.len() != "dominion_vessel"@.len());
    assert("prayer_remnant"@.len() != "scavenger_knight"@.len());
    assert("prayer_remnant"@.len() != "seal_hound"@.len());
    assert("prayer_remnant"@[0] != "specimen_guard"@[0]);
    assert("prayer_remnant"@.len() != "choir_mote"@.len());
    assert("prayer_remnant"@.len() != "night_choir"@.len());
    assert("incense_shell"@.len() != "melted_husk"@.len());
    assert("incense_shell"@[0] != "engorged_husk"@[0]);
    assert("incense_shell"@.len() != "ash_eater"@.len());
    assert("incense_shell"@.len() != "buried_ember"@.len());
    assert("incense_shell"@.len() != "feral_vessel"@.len());
    assert("incense_shell"@.len() != "dominion_vessel"@.len());
    assert("incense_shell"@.len() != "scavenger_knight"@.len());
    assert("incense_shell"@.len() != "seal_hound"@.len());
    assert("incense_shell"@.len() != "specimen_guard"@.len());
    assert("incense_shell"@.len() != "choir_mote"@.len());
    assert("incense_shell"@.len() != "night_choir"@.len());
    assert("incense_shell"@.len() != "prayer_remnant"@.len());
    assert("grave_frame"@[0] != "melted_husk"@[0]);
    assert("grave_frame"@.len() != "engorged_husk"@.len());
    assert("grave_frame"@.len() != "ash_eater"@.len());
    assert("grave_frame"@.len() != "buried_ember"@.len());
    assert("grave_frame"@.len() != "feral_vessel"@.len());
    assert("grave_frame"@.len() != "dominion_vessel"@.len());
    assert("grave_frame"@.len() != "scavenger_knight"@.len());
    assert("grave_frame"@.len() != "seal_hound"@.len());
    assert("grave_frame"@.len() != "specimen_guard"@.len());
    assert("grave_frame"@.len() != "choir_mote"@.len());
    assert("grave_frame"@[0] != "night_choir"@[0]);
    assert("grave_frame"@.len() != "prayer_remnant"@.len());
    assert("grave_frame"@.len() != "incense_shell"@.len());
    assert("cathedral_frame"@.len() != "melted_husk"@.len());
    assert("cathedral_frame"@.len() != "engorged_husk"@.len());
    assert("cathedral_frame"@.len() != "ash_eater"@.len());
    assert("cathedral_frame"@.len() != "buried_ember"@.len());
    assert("cathedral_frame"@.len() != "feral_vessel"@.len());
    assert("cathedral_frame"@[0] != "dominion_vessel"@[0]);
    assert("cathedral_frame"@.len() != "scavenger_knight"@.len());
    assert("cathedral_frame"@.len() != "seal_hound"@.len());
    assert("cathedral_frame"@.len() != "specimen_guard"@.len());
    assert("cathedral_frame"@.len() != "choir_mote"@.len());
    assert("cathedral_frame"@.len() != "night_choir"@.len());
    assert("cathedral_frame"@.len() != "prayer_remnant"@.len());
    assert("cathedral_frame"@.len() != "incense_shell"@.len());
    assert("cathedral_frame"@.len() != "grave_frame"@.len());
    assert("stone_warden"@.len() != "melted_husk"@.len());
    assert("stone_warden"@.len() != "engorged_husk"@.len());
    assert("stone_warden"@.len() != "ash_eater"@.len());
    assert("stone_warden"@[0] != "buried_ember"@[0]);
    assert("stone_warden"@[0] != "feral_vessel"@[0]);
    assert("stone_warden"@.len() != "dominion_vessel"@.len());
    assert("stone_warden"@.len() != "scavenger_knight"@.len());
    assert("stone_warden"@.len() != "seal_hound"@.len());
    assert("stone_warden"@.len() != "specimen_guard"@.len());
    assert("stone_warden"@.len() != "choir_mote"@.len());
    assert("stone_warden"@.len() != "night_choir"@.len());
    assert("stone_warden"@.len() != "prayer_remnant"@.len());
    assert("stone_warden"@.len() != "incense_shell"@.len());
    assert("stone_warden"@.len() != "grave_frame"@.len());
    assert("stone_warden"@.len() != "cathedral_frame"@.len());
    assert("tomb_warden"@[0] != "melted_husk"@[0]);
    assert("tomb_warden"@.len() != "engorged_husk"@.len());
    assert("tomb_warden"@.len() != "ash_eater"@.len());
    assert("tomb_warden"@.len() != "buried_ember"@.len());
    assert("tomb_warden"@.len() != "feral_vessel"@.len());
    assert("tomb_warden"@.len() != "dominion_vessel"@.len());
    assert("tomb_warden"@.len() != "scavenger_knight"@.len());
    assert("tomb_warden"@.len() != "seal_hound"@.len());
    assert("tomb_warden"@.len() != "specimen_guard"@.len());
    assert("tomb_warden"@.len() != "choir_mote"@.len());
    assert("tomb_warden"@[0] != "night_choir"@[0]);
    assert("tomb_warden"@.len() != "prayer_remnant"@.len());
    assert("tomb_warden"@.len() != "incense_shell"@.len());
    assert("tomb_warden"@[0] != "grave_frame"@[0]);
    assert("tomb_warden"@.len() != "cathedral_frame"@.len());
    assert("tomb_warden"@.len() != "stone_warden"@.len());
    assert("coffin_bearer"@.len() != "melted_husk"@.len());
    assert("coffin_bearer"@[0] != "engorged_husk"@[0]);
    assert("coffin_bearer"@.len() != "ash_eater"@.len());
    assert("coffin_bearer"@.len() != "buried_ember"@.len());
    assert("coffin_bearer"@.len() != "feral_vessel"@.len());
    assert("coffin_bearer"@.len() != "dominion_vessel"@.len());
    assert("coffin_bearer"@.len() != "scavenger_knight"@.len());
    assert("coffin_bearer"@.len() != "seal_hound"@.len());
    assert("coffin_bearer"@.len() != "specimen_guard"@.len());
    assert("coffin_bearer"@.len() != "choir_mote"@.len());
    assert("coffin_bearer"@.len() != "night_choir"@.len());
    assert("coffin_bearer"@.len() != "prayer_remnant"@.len());
    assert("coffin_bearer"@[0] != "incense_shell"@[0]);
    assert("coffin_bearer"@.len() != "grave_frame"@.len());
    assert("coffin_bearer"@.len() != "cathedral_frame"@.len());
    assert("coffin_bearer"@.len() != "stone_warden"@.len());
    assert("coffin_bearer"@.len() != "tomb_warden"@.len());
    assert("carrier_frame"@.len() != "melted_husk"@.len());
    assert("carrier_frame"@[0] != "engorged_husk"@[0]);
    assert("carrier_frame"@.len() != "ash_eater"@.len());
    assert("carrier_frame"@.len() != "buried_ember"@.len());
    assert("carrier_frame"@.len() != "feral_vessel"@.len());
    assert("carrier_frame"@.len() != "dominion_vessel"@.len());
    assert("carrier_frame"@.len() != "scavenger_knight"@.len());
    assert("carrier_frame"@.len() != "seal_hound"@.len());
    assert("carrier_frame"@.len() != "specimen_guard"@.len());
    assert("carrier_frame"@.len() != "choir_mote"@.len());
    assert("carrier_frame"@.len() != "night_choir"@.len());
    assert("carrier_frame"@.len() != "prayer_remnant"@.len());
    assert("carrier_frame"@[0] != "incense_shell"@[0]);
    assert("carrier_frame"@.len() != "grave_frame"@.len());
    assert("carrier_frame"@.len() != "cathedral_frame"@.len());
    assert("carrier_frame"@.len() != "stone_warden"@.len());
    assert("carrier_frame"@.len() != "tomb_warden"@.len());
    assert("carrier_frame"@[1] != "coffin_bearer"@[1]);
    assert("archive_scribe"@.len() != "melted_husk"@.len());
    assert("archive_scribe"@.len() != "engorged_husk"@.len());
    assert("archive_scribe"@.len() != "ash_eater"@.len());
    assert("archive_scribe"@.len() != "buried_ember"@.len());
    assert("archive_scribe"@.len() != "feral_vessel"@.len());
    assert("archive_scribe"@.len() != "dominion_vessel"@.len());
    assert("archive_scribe"@.len() != "scavenger_knight"@.len());
    assert("archive_scribe"@.len() != "seal_hound"@.len());
    assert("archive_scribe"@[0] != "specimen_guard"@[0]);
    assert("archive_scribe"@.len() != "choir_mote"@.len());
    assert("archive_scribe"@.len() != "night_choir"@.len());
    assert("archive_scribe"@[0] != "prayer_remnant"@[0]);
    assert("archive_scribe"@.len() != "incense_shell"@.len());
    assert("archive_scribe"@.len() != "grave_frame"@.len());
    assert("archive_scribe"@.len() != "cathedral_frame"@.len());
    assert("archive_scribe"@.len() != "stone_warden"@.len());
    assert("archive_scribe"@.len() != "tomb_warden"@.len());
    assert("archive_scribe"@.len() != "coffin_bearer"@.len());
    assert("archive_scribe"@.len() != "carrier_frame"@.len());
    assert("relay_surgeon"@.len() != "melted_husk"@.len());
    assert("relay_surgeon"@[0] != "engorged_husk"@[0]);
    assert("relay_surgeon"@.len() != "ash_eater"@.len());
    assert("relay_surgeon"@.len() != "buried_ember"@.len());
    assert("relay_surgeon"@.len() != "feral_vessel"@.len());
    assert("relay_surgeon"@.len() != "dominion_vessel"@.len());
    assert("relay_surgeon"@.len() != "scavenger_knight"@.len());
    assert("relay_surgeon"@.len() != "seal_hound"@.len());
    assert("relay_surgeon"@.len() != "specimen_guard"@.len());
    assert("relay_surgeon"@.len() != "choir_mote"@.len());
    assert("relay_surgeon"@.len() != "night_choir"@.len());
    assert("relay_surgeon"@.len() != "prayer_remnant"@.len());
    assert("relay_surgeon"@[0] != "incense_shell"@[0]);
    assert("relay_surgeon"@.len() != "grave_frame"@.len());
    assert("relay_surgeon"@.len() != "cathedral_frame"@.len());
    assert("relay_surgeon"@.len() != "stone_warden"@.len());
    assert("relay_surgeon"@.len() != "tomb_warden"@.len());
    assert("relay_surgeon"@[0] != "coffin_bearer"@[0]);
    assert("relay_surgeon"@[0] != "carrier_frame"@[0]);
    assert("relay_surgeon"@.len() != "archive_scribe"@.len());
    assert("flayed_specimen"@.len() != "melted_husk"@.len());
    assert("flayed_specimen"@.len() != "engorged_husk"@.len());
    assert("flayed_specimen"@.len() != "ash_eater"@.len());
    assert("flayed_specimen"@.len() != "buried_ember"@.len());
    assert("flayed_specimen"@.len() != "feral_vessel"@.len());
    assert("flayed_specimen"@[0] != "dominion_vessel"@[0]);
    assert("flayed_specimen"@.len() != "scavenger_knight"@.len());
    assert("flayed_specimen"@.len() != "seal_hound"@.len());
    assert("flayed_specimen"@.len() != "specimen_guard"@.len());
    assert("flayed_specimen"@.len() != "choir_mote"@.len());
    assert("flayed_specimen"@.len() != "night_choir"@.len());
    assert("flayed_specimen"@.len() != "prayer_remnant"@.len());
    assert("flayed_specimen"@.len() != "incense_shell"@.len());
    assert("flayed_specimen"@.len() != "grave_frame"@.len());
    assert("flayed_specimen"@[0] != "cathedral_frame"@[0]);
    assert("flayed_specimen"@.len() != "stone_warden"@.len());
    assert("flayed_specimen"@.len() != "tomb_warden"@.len());
    assert("flayed_specimen"@.len() != "coffin_bearer"@.len());
    assert("flayed_specimen"@.len() != "carrier_frame"@.len());
    assert("flayed_specimen"@.len() != "archive_scribe"@.len());
    assert("flayed_specimen"@.len() != "relay_surgeon"@.len());
}

/// Law: near research sites scoring `score` (none at score 0) the archive
/// scribe spawns 40% more per point up to 420%; the relay surgeon 34% more
/// per point up to 380%; carrier frames, specimen guards and flayed
/// specimens 24% more up to 300%; night choirs, cathedral frames, scavenger
/// knights and dominion vessels 14% more up to 220%; melted husks, feral
/// vessels, choir motes, ash eaters and prayer remnants 9% less per point
/// down to 35%; every other kind as usual (100%).
pub proof fn lemma_research_multipliers(score: u32, id: Seq<char>)
    ensures
        ({
            let rise = |k: int, cap: int| if score == 0 {
                100
            } else if 100 + k * score < cap {
                100 + k * score
            } else {
                cap
            };
            let fall = if score == 0 {
                100
            } else if 100 - 9 * score > 35 {
                100 - 9 * score
            } else {
                35
            };
            &&& research_multiplier_spec(score, "archive_scribe"@) == rise(40, 420)
            &&& research_multiplier_spec(score, "relay_surgeon"@) == rise(34, 380)
            &&& research_multiplier_spec(score, "carrier_frame"@) == rise(24, 300)
            &&& research_multiplier_spec(score, "specimen_guard"@) == rise(24, 300)
            &&& research_multiplier_spec(score, "flayed_specimen"@) == rise(24, 300)
            &&& research_multiplier_spec(score, "night_choir"@) == rise(14, 220)
            &&& research_multiplier_spec(score, "cathedral_frame"@) == rise(14, 220)
            &&& research_multiplier_spec(score, "scavenger_knight"@) == rise(14, 220)
            &&& research_multiplier_spec(score, "dominion_vessel"@) == rise(14, 220)
            &&& research_multiplier_spec(score, "melted_husk"@) == fall
            &&& research_multiplier_spec(score, "feral_vessel"@) == fall
            &&& research_multiplier_spec(score, "choir_mote"@) == fall
            &&& research_multiplier_spec(score, "ash_eater"@) == fall
            &&& research_multiplier_spec(score, "prayer_remnant"@) == fall
        }),
        !(id == "archive_scribe"@ || id == "relay_surgeon"@ || id == "carrier_frame"@
            || id == "specimen_guard"@ || id == "flayed_specimen"@ || id == "night_choir"@
            || id == "cathedral_frame"@ || id == "scavenger_knight"@ || id == "dominion_vessel"@
            || id == "melted_husk"@ || id == "feral_vessel"@ || id == "choir_mote"@ || id == "ash_eater"@
            || id == "prayer_remnant"@) ==> research_multiplier_spec(score, id) == 100,
{
    reveal_strlit("melted_husk");
    reveal_strlit("engorged_husk");
    reveal_strlit("ash_eater");
    reveal_strlit("buried_ember");
    reveal_strlit("feral_vessel");
    reveal_strlit("dominion_vessel");
    reveal_strlit("scavenger_knight");
    reveal_strlit("seal_hound");
    reveal_strlit("specimen_guard");
    reveal_strlit("choir_mote");
    reveal_strlit("night_choir");
    reveal_strlit("prayer_remnant");
    reveal_strlit("incense_shell");
    reveal_strlit("grave_frame");
    reveal_strlit("cathedral_frame");
    reveal_strlit("stone_warden");
    reveal_strlit("tomb_warden");
    reveal_strlit("coffin_bearer");
    reveal_strlit("carrier_frame");
    reveal_strlit("archive_scribe");
    reveal_strlit("relay_surgeon");
    reveal_strlit("flayed_specimen");
    assert("engorged_husk"@.len() != "melted_husk"@.len());
    assert("ash_eater"@.len() != "melted_husk"@.len());
    assert("ash_eater"@.len() != "engorged_husk"@.len());
    assert("buried_ember"@.len() != "melted_husk"@.len());
    assert("buried_ember"@.len() != "engorged_husk"@.len());
    assert("buried_ember"@.len() != "ash_eater"@.len());
    assert("feral_vessel"@.len() != "melted_husk"@.len());
    assert("feral_vessel"@.len() != "engorged_husk"@.len());
    assert("feral_vessel"@.len() != "ash_eater"@.len());
    assert("feral_vessel"@[0] != "buried_ember"@[0]);
    assert("dominion_vessel"@.len() != "melted_husk"@.len());
    assert("dominion_vessel"@.len() != "engorged_husk"@.len());
    assert("dominion_vessel"@.len() != "ash_eater"@.len());
    assert("dominion_vessel"@.len() != "buried_ember"@.len());
    assert("dominion_vessel"@.len() != "feral_vessel"@.len());
    assert("scavenger_knight"@.len() != "melted_husk"@.len());
    assert("scavenger_knight"@.len() != "engorged_husk"@.len());
    assert("scavenger_knight"@.len() != "ash_eater"@.len());
    assert("scavenger_knight"@.len() != "buried_ember"@.len());
    assert("scavenger_knight"@.len() != "feral_vessel"@.len());
    assert("scavenger_knight"@.len() != "dominion_vessel"@.len());
    assert("seal_hound"@.len() != "melted_husk"@.len());
    assert("seal_hound"@.len() != "engorged_husk"@.len());
    assert("seal_hound"@.len() != "ash_eater"@.len());
    assert("seal_hound"@.len() != "buried_ember"@.len());
    assert("seal_hound"@.len() != "feral_vessel"@.len());
    assert("seal_hound"@.len() != "dominion_vessel"@.len());
    assert("seal_hound"@.len() != "scavenger_knight"@.len());
    assert("specimen_guard"@.len() != "melted_husk"@.len());
    assert("specimen_guard"@.len() != "engorged_husk"@.len());
    assert("specimen_guard"@.len() != "ash_eater"@.len());
    assert("specimen_guard"@.len() != "buried_ember"@.len());
    assert("specimen_guard"@.len() != "feral_vessel"@.len());
    assert("specimen_guard"@.len() != "dominion_vessel"@.len());
    assert("specimen_guard"@.len() != "scavenger_knight"@.len());
    assert("specimen_guard"@.len() != "seal_hound"@.len());
    assert("choir_mote"@.len() != "melted_husk"@.len());
    assert("choir_mote"@.len() != "engorged_husk"@.len());
    assert("choir_mote"@.len() != "ash_eater"@.len());
    assert("choir_mote"@.len() != "buried_ember"@.len());
    assert("choir_mote"@.len() != "feral_vessel"@.len());
    assert("choir_mote"@.len() != "dominion_vessel"@.len());
    assert("choir_mote"@.len() != "scavenger_knight"@.len());
    assert("choir_mote"@[0] != "seal_hound"@[0]);
    assert("choir_mote"@.len() != "specimen_guard"@.len());
    assert("night_choir"@[0] != "melted_husk"@[0]);
    assert("night_choir"@.len() != "engorged_husk"@.len());
    assert("night_choir"@.len() != "ash_eater"@.len());
    assert("night_choir"@.len() != "buried_ember"@.len());
    assert("night_choir"@.len() != "feral_vessel"@.len());
    assert("night_choir"@.len() != "dominion_vessel"@.len());
    assert("night_choir"@.len() != "scavenger_knight"@.len());
    assert("night_choir"@.len() != "seal_hound"@.len());
    assert("night_choir"@.len() != "specimen_guard"@.len());
    assert("night_choir"@.len() != "choir_mote"@.len());
    assert("prayer_remnant"@.len() != "melted_husk"@.len());
    assert("prayer_remnant"@.len() != "engorged_husk"@.len());
    assert("prayer_remnant"@.len() != "ash_eater"@.len());
    assert("prayer_remnant"@.len() != "buried_ember"@.len());
    assert("prayer_remnant"@.len() != "feral_vessel"@.len());
    assert("prayer_remnant"@.len() != "dominion_vessel"@.len());
    assert("prayer_remnant"@.len() != "scavenger_knight"@.len());
    assert("prayer_remnant"@.len() != "seal_hound"@.len());
    assert("prayer_remnant"@[0] != "specimen_guard"@[0]);
    assert("prayer_remnant"@.len() != "choir_mote"@.len());
    assert("prayer_remnant"@.len() != "night_choir"@.len());
    assert("incense_shell"@.len() != "melted_husk"@.len());
    assert("incense_shell"@[0] != "engorged_husk"@[0]);
    assert("incense_shell"@.len() != "ash_eater"@.len());
    assert("incense_shell"@.len() != "buried_ember"@.len());
    assert("incense_shell"@.len() != "feral_vessel"@.len());
    assert("incense_shell"@.len() != "dominion_vessel"@.len());
    assert("incense_shell"@.len() != "scavenger_knight"@.len());
    assert("incense_shell"@.len() != "seal_hound"@.len());
    assert("incense_shell"@.len() != "specimen_guard"@.len());
    assert("incense_shell"@.len() != "choir_mote"@.len());
    assert("incense_shell"@.len() != "night_choir"@.len());
    assert("incense_shell"@.len() != "prayer_remnant"@.len());
    assert("grave_frame"@[0] != "melted_husk"@[0]);
    assert("grave_frame"@.len() != "engorged_husk"@.len());
    assert("grave_frame"@.len() != "ash_eater"@.len());
    assert("grave_frame"@.len() != "buried_ember"@.len());
    assert("grave_frame"@.len() != "feral_vessel"@.len());
    assert("grave_frame"@.len() != "dominion_vessel"@.len());
    assert("grave_frame"@.len() != "scavenger_knight"@.len());
    assert("grave_frame"@.len() != "seal_hound"@.len());
    assert("grave_frame"@.len() != "specimen_guard"@.len());
    assert("grave_frame"@.len() != "choir_mote"@.len());
    assert("grave_frame"@[0] != "night_choir"@[0]);
    assert("grave_frame"@.len() != "prayer_remnant"@.len());
    assert("grave_frame"@.len() != "incense_shell"@.len());
    assert("cathedral_frame"@.len() != "melted_husk"@.len());
    assert("cathedral_frame"@.len() != "engorged_husk"@.len());
    assert("cathedral_frame"@.len() != "ash_eater"@.len());
    assert("cathedral_frame"@.len() != "buried_ember"@.len());
    assert("cathedral_frame"@.len() != "feral_vessel"@.len());
    assert("cathedral_frame"@[0] != "dominion_vessel"@[0]);
    assert("cathedral_frame"@.len() != "scavenger_knight"@.len());
    assert("cathedral_frame"@.len() != "seal_hound"@.len());
    assert("cathedral_frame"@.len() != "specimen_guard"@.len());
    assert("cathedral_frame"@.len() != "choir_mote"@.len());
    assert("cathedral_frame"@.len() != "night_choir"@.len());
    assert("cathedral_frame"@.len() != "prayer_remnant"@.len());
    assert("cathedral_frame"@.len() != "incense_shell"@.len());
    assert("cathedral_frame"@.len() != "grave_frame"@.len());
    assert("stone_warden"@.len() != "melted_husk"@.len());
    assert("stone_warden"@.len() != "engorged_husk"@.len());
    assert("stone_warden"@.len() != "ash_eater"@.len());
    assert("stone_warden"@[0] != "buried_ember"@[0]);
    assert("stone_warden"@[0] != "feral_vessel"@[0]);
    assert("stone_warden"@.len() != "dominion_vessel"@.len());
    assert("stone_warden"@.len() != "scavenger_knight"@.len());
    assert("stone_warden"@.len() != "seal_hound"@.len());
    assert("stone_warden"@.len() != "specimen_guard"@.len());
    assert("stone_warden"@.len() != "choir_mote"@.len());
    assert("stone_warden"@.len() != "night_choir"@.len());
    assert("stone_warden"@.len() != "prayer_remnant"@.len());
    assert("stone_warden"@.len() != "incense_shell"@.len());
    assert("stone_warden"@.len() != "grave_frame"@.len());
    assert("stone_warden"@.len() != "cathedral_frame"@.len());
    assert("tomb_warden"@[0] != "melted_husk"@[0]);
    assert("tomb_warden"@.len() != "engorged_husk"@.len());
    assert("tomb_warden"@.len() != "ash_eater"@.len());
    assert("tomb_warden"@.len() != "buried_ember"@.len());
    assert("tomb_warden"@.len() != "feral_vessel"@.len());
    assert("tomb_warden"@.len() != "dominion_vessel"@.len());
    assert("tomb_warden"@.len() != "scavenger_knight"@.len());
    assert("tomb_warden"@.len() != "seal_hound"@.len());
    assert("tomb_warden"@.len() != "specimen_guard"@.len());
    assert("tomb_warden"@.len() != "choir_mote"@.len());
    assert("tomb_warden"@[0] != "night_choir"@[0]);
    assert("tomb_warden"@.len() != "prayer_remnant"@.len());
    assert("tomb_warden"@.len() != "incense_shell"@.len());
    assert("tomb_warden"@[0] != "grave_frame"@[0]);
    assert("tomb_warden"@.len() != "cathedral_frame"@.len());
    assert("tomb_warden"@.len() != "stone_warden"@.len());
    assert("coffin_bearer"@.len() != "melted_husk"@.len());
    assert("coffin_bearer"@[0] != "engorged_husk"@[0]);
    assert("coffin_bearer"@.len() != "ash_eater"@.len());
    assert("coffin_bearer"@.len() != "buried_ember"@.len());
    assert("coffin_bearer"@.len() != "feral_vessel"@.len());
    assert("coffin_bearer"@.len() != "dominion_vessel"@.len());
    assert("coffin_bearer"@.len() != "scavenger_knight"@.len());
    assert("coffin_bearer"@.len() != "seal_hound"@.len());
    assert("coffin_bearer"@.len() != "specimen_guard"@.len());
    assert("coffin_bearer"@.len() != "choir_mote"@.len());
    assert("coffin_bearer"@.len() != "night_choir"@.len());
    assert("coffin_bearer"@.len() != "prayer_remnant"@.len());
    assert("coffin_bearer"@[0] != "incense_shell"@[0]);
    assert("coffin_bearer"@.len() != "grave_frame"@.len());
    assert("coffin_bearer"@.len() != "cathedral_frame"@.len());
    assert("coffin_bearer"@.len() != "stone_warden"@.len());
    assert("coffin_bearer"@.len() != "tomb_warden"@.len());
    assert("carrier_frame"@.len() != "melted_husk"@.len());
    assert("carrier_frame"@[0] != "engorged_husk"@[0]);
    assert("carrier_frame"@.len() != "ash_eater"@.len());
    assert("carrier_frame"@.len() != "buried_ember"@.len());
    assert("carrier_frame"@.len() != "feral_vessel"@.len());
    assert("carrier_frame"@.len() != "dominion_vessel"@.len());
    assert("carrier_frame"@.len() != "scavenger_knight"@.len());
    assert("carrier_frame"@.len() != "seal_hound"@.len());
    assert("carrier_frame"@.len() != "specimen_guard"@.len());
    assert("carrier_frame"@.len() != "choir_mote"@.len());
    assert("carrier_frame"@.len() != "night_choir"@.len());
    assert("carrier_frame"@.len() != "prayer_remnant"@.len());
    assert("carrier_frame"@[0] != "incense_shell"@[0]);
    assert("carrier_frame"@.len() != "grave_frame"@.len());
    assert("carrier_frame"@.len() != "cathedral_frame"@.len());
    assert("carrier_frame"@.len() != "stone_warden"@.len());
    assert("carrier_frame"@.len() != "tomb_warden"@.len());
    assert("carrier_frame"@[1] != "coffin_bearer"@[1]);
    assert("archive_scribe"@.len() != "melted_husk"@.len());
    assert("archive_scribe"@.len() != "engorged_husk"@.len());
    assert("archive_scribe"@.len() != "ash_eater"@.len());
    assert("archive_scribe"@.len() != "buried_ember"@.len());
    assert("archive_scribe"@.len() != "feral_vessel"@.len());
    assert("archive_scribe"@.len() != "dominion_vessel"@.len());
    assert("archive_scribe"@.len() != "scavenger_knight"@.len());
    assert("archive_scribe"@.len() != "seal_hound"@.len());
    assert("archive_scribe"@[0] != "specimen_guard"@[0]);
    assert("archive_scribe"@.len() != "choir_mote"@.len());
    assert("archive_scribe"@.len() != "night_choir"@.len());
    assert("archive_scribe"@[0] != "prayer_remnant"@[0]);
    assert("archive_scribe"@.len() != "incense_shell"@.len());
    assert("archive_scribe"@.len() != "grave_frame"@.len());
    assert("archive_scribe"@.len() != "cathedral_frame"@.len());
    assert("archive_scribe"@.len() != "stone_warden"@.len());
    assert("archive_scribe"@.len() != "tomb_warden"@.len());
    assert("archive_scribe"@.len() != "coffin_bearer"@.len());
    assert("archive_scribe"@.len() != "carrier_frame"@.len());
    assert("relay_surgeon"@.len() != "melted_husk"@.len());
    assert("relay_surgeon"@[0] != "engorged_husk"@[0]);
    assert("relay_surgeon"@.len() != "ash_eater"@.len());
    assert("relay_surgeon"@.len() != "buried_ember"@.len());
    assert("relay_surgeon"@.len() != "feral_vessel"@.len());
    assert("relay_surgeon"@.len() != "dominion_vessel"@.len());
    assert("relay_surgeon"@.len() != "scavenger_knight"@.len());
    assert("relay_surgeon"@.len() != "seal_hound"@.len());
    assert("relay_surgeon"@.len() != "specimen_guard"@.len());
    assert("relay_surgeon"@.len() != "choir_mote"@.len());
    assert("relay_surgeon"@.len() != "night_choir"@.len());
    assert("relay_surgeon"@.len() != "prayer_remnant"@.len());
    assert("relay_surgeon"@[0] != "incense_shell"@[0]);
    assert("relay_surgeon"@.len() != "grave_frame"@.len());
    assert("relay_surgeon"@.len() != "cathedral_frame"@.len());
    assert("relay_surgeon"@.len() != "stone_warden"@.len());
    assert("relay_surgeon"@.len() != "tomb_warden"@.len());
    assert("relay_surgeon"@[0] != "coffin_bearer"@[0]);
    assert("relay_surgeon"@[0] != "carrier_frame"@[0]);
    assert("relay_surgeon"@.len() != "archive_scribe"@.len());
    assert("flayed_specimen"@.len() != "melted_husk"@.len());
    assert("flayed_specimen"@.len() != "engorged_husk"@.len());
    assert("flayed_specimen"@.len() != "ash_eater"@.len());
    assert("flayed_specimen"@.len() != "buried_ember"@.len());
    assert("flayed_specimen"@.len() != "feral_vessel"@.len());
    assert("flayed_specimen"@[0] != "dominion_vessel"@[0]);
    assert("flayed_specimen"@.len() != "scavenger_knight"@.len());
    assert("flayed_specimen"@.len() != "seal_hound"@.len());
    assert("flayed_specimen"@.len() != "specimen_guard"@.len());
    assert("flayed_specimen"@.len() != "choir_mote"@.len());
    assert("flayed_specimen"@.len() != "night_choir"@.len());
    assert("flayed_specimen"@.len() != "prayer_remnant"@.len());
    assert("flayed_specimen"@.len() != "incense_shell"@.len());
    assert("flayed_specimen"@.len() != "grave_frame"@.len());
    assert("flayed_specimen"@[0] != "cathedral_frame"@[0]);
    assert("flayed_specimen"@.len() != "stone_warden"@.len());
    assert("flayed_specimen"@.len() != "tomb_warden"@.len());
    assert("flayed_specimen"@.len() != "coffin_bearer"@.len());
    assert("flayed_specimen"@.len() != "carrier_frame"@.len());
    assert("flayed_specimen"@.len() != "archive_scribe"@.len());
    assert("flayed_specimen"@.len() != "relay_surgeon"@.len());
}

/// How much more (percent) a creature spawns in a biome.
pub fn biome_enemy_multiplier(biome: BiomeId, creature_id: &str) -> (m: u32)
    ensures
        m == biome_multiplier_spec(biome.0, creature_id@),
{
    let bx = biome.0 % 4;
    let by = biome.0 / 4;
    if is_husk_family(creature_id) {
        if (bx == 1 || bx == 2) && (by == 0 || by == 1) {
            220
        } else if (bx == 1 || bx == 2) && by == 2 {
            140
        } else {
            70
        }
    } else if is_vessel_family(creature_id) {
        if (bx == 2 || bx == 3) && (by == 1 || by == 2) {
            220
        } else if bx == 1 && (by == 1 || by == 2) {
            130
        } else {
            55
        }
    } else if is_choir_family(creature_id) {
        if (bx == 2 || bx == 3) && (by == 2 || by == 3) {
            220
        } else if bx == 1 && (by == 2 || by == 3) {
            125
        } else {
            55
        }
    } else if is_frame_family(creature_id) {
        if bx == 0 || bx == 3 || by == 0 || by == 3 {
            190
        } else {
            75
        }
    } else {
        100
    }
}

pub open spec fn min_int(a: int, b: int) -> int {
    if a < b {
        a
    } else {
        b
    }
}

/// How much more (percent) a creature spawns near research sites scoring
/// `score`: scholars and surgeons gather there, husks and motes avoid it.
pub open spec fn research_multiplier_spec(score: u32, id: Seq<char>) -> int {
    if score == 0 {
        100
    } else if id == "archive_scribe"@ {
        min_int(100 + 40 * score, 420)
    } else if id == "relay_surgeon"@ {
        min_int(100 + 34 * score, 380)
    } else if id == "carrier_frame"@ || id == "specimen_guard"@ || id == "flayed_specimen"@ {
        min_int(100 + 24 * score, 300)
    } else if id == "night_choir"@ || id == "cathedral_frame"@ || id == "scavenger_knight"@ || id
        == "dominion_vessel"@ {
        min_int(100 + 14 * score, 220)
    } else if id == "melted_husk"@ || id == "feral_vessel"@ || id == "choir_mote"@ || id
        == "ash_eater"@ || id == "prayer_remnant"@ {
        if 100 - 9 * score > 35 {
            100 - 9 * score
        } else {
            35
        }
    } else {
        100
    }
}

/// How much more (percent) a creature spawns near research sites.
pub fn research_spawn_multiplier(score: u32, creature_id: &str) -> (m: u32)
    requires
        score <= 100_000_000,
    ensures
        m == research_multiplier_spec(score, creature_id@),
{
    if score == 0 {
        return 100;
    }
    let id = creature_id;
    if str_eq(id, "archive_scribe") {
        let v = 100 + score * 40;
        if v < 420 {
            v
        } else {
            420
        }
    } else if str_eq(id, "relay_surgeon") {
        let v = 100 + score * 34;
        if v < 380 {
            v
        } else {
            380
        }
    } else if str_eq(id, "carrier_frame") || str_eq(id, "specimen_guard") || str_eq(
        id,
        "flayed_specimen",
    ) {
        let v = 100 + score * 24;
        if v < 300 {
            v
        } else {
            300
        }
    } else if str_eq(id, "night_choir") || str_eq(id, "cathedral_frame") || str_eq(
        id,
        "scavenger_knight",
    ) || str_eq(id, "dominion_vessel") {
        let v = 100 + score * 14;
        if v < 220 {
            v
        } else {
            220
        }
    } else if str_eq(id, "melted_husk") || str_eq(id, "feral_vessel") || str_eq(id, "choir_mote")
        || str_eq(id, "ash_eater") || str_eq(id, "prayer_remnant") {
        let v: i32 = 100i32 - (score as i32) * 9;
        if v > 35 {
            v as u32
        } else {
            35
        }
    } else {
        100
    }
}

/// The first floor on which a creature may appear (1 for the others).
pub open spec fn first_floor(id: Seq<char>) -> u32 {
    if id == "prayer_remnant"@ {
        1
    } else if id == "stone_warden"@ || id == "grave_frame"@ || id == "incense_shell"@ || id
        == "engorged_husk"@ {
        3
    } else if id == "tomb_warden"@ || id == "scavenger_knight"@ || id == "dominion_vessel"@ || id
        == "night_choir"@ || id == "cathedral_frame"@ {
        4
    } else if id == "coffin_bearer"@ || id == "archive_scribe"@ || id == "seal_hound"@ || id
        == "buried_ember"@ {
        5
    } else if id == "carrier_frame"@ || id == "relay_surgeon"@ || id == "specimen_guard"@ {
        7
    } else if id == "flayed_specimen"@ {
        9
    } else {
        0
    }
}

/// Whether a creature may appear on `floor`.
pub fn enemy_allowed_on_floor(id: &str, floor: u32) -> (b: bool)
    ensures
        b == (floor >= first_floor(id@)),
{
    let first: u32 = if str_eq(id, "prayer_remnant") {
        1
    } else if str_eq(id, "stone_warden") || str_eq(id, "grave_frame") || str_eq(id, "incense_shell")
        || str_eq(id, "engorged_husk") {
        3
    } else if str_eq(id, "tomb_warden") || str_eq(id, "scavenger_knight") || str_eq(
        id,
        "dominion_vessel",
    ) || str_eq(id, "night_choir") || str_eq(id, "cathedral_frame") {
        4
    } else if str_eq(id, "coffin_bearer") || str_eq(id, "archive_scribe") || str_eq(id, "seal_hound")
        || str_eq(id, "buried_ember") {
        5
    } else if str_eq(id, "carrier_frame") || str_eq(id, "relay_surgeon") || str_eq(
        id,
        "specimen_guard",
    ) {
        7
    } else if str_eq(id, "flayed_specimen") {
        9
    } else {
        0
    };
    floor >= first
}

/// Law: each gated creature kind may appear from its own floor of the
/// data table on, on every floor after it and on none before it: the
/// prayer remnant from floor 1; stone wardens, grave frames, incense
/// shells and engorged husks from 3; tomb wardens, scavenger knights,
/// dominion vessels, night choirs and cathedral frames from 4; coffin
/// bearers, archive scribes, seal hounds and buried embers from 5; carrier
/// frames, relay surgeons and specimen guards from 7; flayed specimens
/// from 9. Every other kind may appear on every floor.
pub proof fn lemma_floor_gates(id: Seq<char>, f: u32)
    ensures
        (f >= first_floor("prayer_remnant"@)) == (f >= 1),
        (f >= first_floor("stone_warden"@)) == (f >= 3),
        (f >= first_floor("grave_frame"@)) == (f >= 3),
        (f >= first_floor("incense_shell"@)) == (f >= 3),
        (f >= first_floor("engorged_husk"@)) == (f >= 3),
        (f >= first_floor("tomb_warden"@)) == (f >= 4),
        (f >= first_floor("scavenger_knight"@)) == (f >= 4),
        (f >= first_floor("dominion_vessel"@)) == (f >= 4),
        (f >= first_floor("night_choir"@)) == (f >= 4),
        (f >= first_floor("cathedral_frame"@)) == (f >= 4),
        (f >= first_floor("coffin_bearer"@)) == (f >= 5),
        (f >= first_floor("archive_scribe"@)) == (f >= 5),
        (f >= first_floor("seal_hound"@)) == (f >= 5),
        (f >= first_floor("buried_ember"@)) == (f >= 5),
        (f >= first_floor("carrier_frame"@)) == (f >= 7),
        (f >= first_floor("relay_surgeon"@)) == (f >= 7),
        (f >= first_floor("specimen_guard"@)) == (f >= 7),
        (f >= first_floor("flayed_specimen"@)) == (f >= 9),
        !(id == "prayer_remnant"@ || id == "stone_warden"@ || id == "grave_frame"@ || id == "incense_shell"@
            || id == "engorged_husk"@ || id == "tomb_warden"@ || id == "scavenger_knight"@
            || id == "dominion_vessel"@ || id == "night_choir"@ || id == "cathedral_frame"@
            || id == "coffin_bearer"@ || id == "archive_scribe"@ || id == "seal_hound"@
            || id == "buried_ember"@ || id == "carrier_frame"@ || id == "relay_surgeon"@
            || id == "specimen_guard"@ || id == "flayed_specimen"@) ==> first_floor(id) == 0,
{
    reveal_strlit("prayer_remnant");
    reveal_strlit("stone_warden");
    reveal_strlit("grave_frame");
    reveal_strlit("incense_shell");
    reveal_strlit("engorged_husk");
    reveal_strlit("tomb_warden");
    reveal_strlit("scavenger_knight");
    reveal_strlit("dominion_vessel");
    reveal_strlit("night_choir");
    reveal_strlit("cathedral_frame");
    reveal_strlit("coffin_bearer");
    reveal_strlit("archive_scribe");
    reveal_strlit("seal_hound");
    reveal_strlit("buried_ember");
    reveal_strlit("carrier_frame");
    reveal_strlit("relay_surgeon");
    reveal_strlit("specimen_guard");
    reveal_strlit("flayed_specimen");
    assert("stone_warden"@.len() != "prayer_remnant"@.len());
    assert("grave_frame"@.len() != "prayer_remnant"@.len());
    assert("grave_frame"@.len() != "stone_warden"@.len());
    assert("incense_shell"@.len() != "prayer_remnant"@.len());
    assert("incense_shell"@.len() != "stone_warden"@.len());
    assert("incense_shell"@.len() != "grave_frame"@.len());
    assert("engorged_husk"@.len() != "prayer_remnant"@.len());
    assert("engorged_husk"@.len() != "stone_warden"@.len());
    assert("engorged_husk"@.len() != "grave_frame"@.len());
    assert("engorged_husk"@[0] != "incense_shell"@[0]);
    assert("tomb_warden"@.len() != "prayer_remnant"@.len());
    assert("tomb_warden"@.len() != "stone_warden"@.len());
    assert("tomb_warden"@[0] != "grave_frame"@[0]);
    assert("tomb_warden"@.len() != "incense_shell"@.len());
    assert("tomb_warden"@.len() != "engorged_husk"@.len());
    assert("scavenger_knight"@.len() != "prayer_remnant"@.len());
    assert("scavenger_knight"@.len() != "stone_warden"@.len());
    assert("scavenger_knight"@.len() != "grave_frame"@.len());
    assert("scavenger_knight"@.len() != "incense_shell"@.len());
    assert("scavenger_knight"@.len() != "engorged_husk"@.len());
    assert("scavenger_knight"@.len() != "tomb_warden"@.len());
    assert("dominion_vessel"@.len() != "prayer_remnant"@.len());
    assert("dominion_vessel"@.len() != "stone_warden"@.len());
    assert("dominion_vessel"@.len() != "grave_frame"@.len());
    assert("dominion_vessel"@.len() != "incense_shell"@.len());
    assert("dominion_vessel"@.len() != "engorged_husk"@.len());
    assert("dominion_vessel"@.len() != "tomb_warden"@.len());
    assert("dominion_vessel"@.len() != "scavenger_knight"@.len());
    assert("night_choir"@.len() != "prayer_remnant"@.len());
    assert("night_choir"@.len() != "stone_warden"@.len());
    assert("night_choir"@[0] != "grave_frame"@[0]);
    assert("night_choir"@.len() != "incense_shell"@.len());
    assert("night_choir"@.len() != "engorged_husk"@.len());
    assert("night_choir"@[0] != "tomb_warden"@[0]);
    assert("night_choir"@.len() != "scavenger_knight"@.len());
    assert("night_choir"@.len() != "dominion_vessel"@.len());
    assert("cathedral_frame"@.len() != "prayer_remnant"@.len());
    assert("cathedral_frame"@.len() != "stone_warden"@.len());
    assert("cathedral_frame"@.len() != "grave_frame"@.len());
    assert("cathedral_frame"@.len() != "incense_shell"@.len());
    assert("cathedral_frame"@.len() != "engorged_husk"@.len());
    assert("cathedral_frame"@.len() != "tomb_warden"@.len());
    assert("cathedral_frame"@.len() != "scavenger_knight"@.len());
    assert("cathedral_frame"@[0] != "dominion_vessel"@[0]);
    assert("cathedral_frame"@.len() != "night_choir"@.len());
    assert("coffin_bearer"@.len() != "prayer_remnant"@.len());
    assert("coffin_bearer"@.len() != "stone_warden"@.len());
    assert("coffin_bearer"@.len() != "grave_frame"@.len());
    assert("coffin_bearer"@[0] != "incense_shell"@[0]);
    assert("coffin_bearer"@[0] != "engorged_husk"@[0]);
    assert("coffin_bearer"@.len() != "tomb_warden"@.len());
    assert("coffin_bearer"@.len() != "scavenger_knight"@.len());
    assert("coffin_bearer"@.len() != "dominion_vessel"@.len());
    assert("coffin_bearer"@.len() != "night_choir"@.len());
    assert("coffin_bearer"@.len() != "cathedral_frame"@.len());
    assert("archive_scribe"@[0] != "prayer_remnant"@[0]);
    assert("archive_scribe"@.len() != "stone_warden"@.len());
    assert("archive_scribe"@.len() != "grave_frame"@.len());
    assert("archive_scribe"@.len() != "incense_shell"@.len());
    assert("archive_scribe"@.len() != "engorged_husk"@.len());
    assert("archive_scribe"@.len() != "tomb_warden"@.len());
    assert("archive_scribe"@.len() != "scavenger_knight"@.len());
    assert("archive_scribe"@.len() != "dominion_vessel"@.len());
    assert("archive_scribe"@.len() != "night_choir"@.len());
    assert("archive_scribe"@.len() != "cathedral_frame"@.len());
    assert("archive_scribe"@.len() != "coffin_bearer"@.len());
    assert("seal_hound"@.len() != "prayer_remnant"@.len());
    assert("seal_hound"@.len() != "stone_warden"@.len());
    assert("seal_hound"@.len() != "grave_frame"@.len());
    assert("seal_hound"@.len() != "incense_shell"@.len());
    assert("seal_hound"@.len() != "engorged_husk"@.len());
    assert("seal_hound"@.len() != "tomb_warden"@.len());
    assert("seal_hound"@.len() != "scavenger_knight"@.len());
    assert("seal_hound"@.len() != "dominion_vessel"@.len());
    assert("seal_hound"@.len() != "night_choir"@.len());
    assert("seal_hound"@.len() != "cathedral_frame"@.len());
    assert("seal_hound"@.len() != "coffin_bearer"@.len());
    assert("seal_hound"@.len() != "archive_scribe"@.len());
    assert("buried_ember"@.len() != "prayer_remnant"@.len());
    assert("buried_ember"@[0] != "stone_warden"@[0]);
    assert("buried_ember"@.len() != "grave_frame"@.len());
    assert("buried_ember"@.len() != "incense_shell"@.len());
    assert("buried_ember"@.len() != "engorged_husk"@.len());
    assert("buried_ember"@.len() != "tomb_warden"@.len());
    assert("buried_ember"@.len() != "scavenger_knight"@.len());
    assert("buried_ember"@.len() != "dominion_vessel"@.len());
    assert("buried_ember"@.len() != "night_choir"@.len());
    assert("buried_ember"@.len() != "cathedral_frame"@.len());
    assert("buried_ember"@.len() != "coffin_bearer"@.len());
    assert("buried_ember"@.len() != "archive_scribe"@.len());
    assert("buried_ember"@.len() != "seal_hound"@.len());
    assert("carrier_frame"@.len() != "prayer_remnant"@.len());
    assert("carrier_frame"@.len() != "stone_warden"@.len());
    assert("carrier_frame"@.len() != "grave_frame"@.len());
    assert("carrier_frame"@[0] != "incense_shell"@[0]);
    assert("carrier_frame"@[0] != "engorged_husk"@[0]);
    assert("carrier_frame"@.len() != "tomb_warden"@.len());
    assert("carrier_frame"@.len() != "scavenger_knight"@.len());
    assert("carrier_frame"@.len() != "dominion_vessel"@.len());
    assert("carrier_frame"@.len() != "night_choir"@.len());
    assert("carrier_frame"@.len() != "cathedral_frame"@.len());
    assert("carrier_frame"@[1] != "coffin_bearer"@[1]);
    assert("carrier_frame"@.len() != "archive_scribe"@.len());
    assert("carrier_frame"@.len() != "seal_hound"@.len());
    assert("carrier_frame"@.len() != "buried_ember"@.len());
    assert("relay_surgeon"@.len() != "prayer_remnant"@.len());
    assert("relay_surgeon"@.len() != "stone_warden"@.len());
    assert("relay_surgeon"@.len() != "grave_frame"@.len());
    assert("relay_surgeon"@[0] != "incense_shell"@[0]);
    assert("relay_surgeon"@[0] != "engorged_husk"@[0]);
    assert("relay_surgeon"@.len() != "tomb_warden"@.len());
    assert("relay_surgeon"@.len() != "scavenger_knight"@.len());
    assert("relay_surgeon"@.len() != "dominion_vessel"@.len());
    assert("relay_surgeon"@.len() != "night_choir"@.len());
    assert("relay_surgeon"@.len() != "cathedral_frame"@.len());
    assert("relay_surgeon"@[0] != "coffin_bearer"@[0]);
    assert("relay_surgeon"@.len() != "archive_scribe"@.len());
    assert("relay_surgeon"@.len() != "seal_hound"@.len());
    assert("relay_surgeon"@.len() != "buried_ember"@.len());
    assert("relay_surgeon"@[0] != "carrier_frame"@[0]);
    assert("specimen_guard"@[0] != "prayer_remnant"@[0]);
    assert("specimen_guard"@.len() != "stone_warden"@.len());
    assert("specimen_guard"@.len() != "grave_frame"@.len());
    assert("specimen_guard"@.len() != "incense_shell"@.len());
    assert("specimen_guard"@.len() != "engorged_husk"@.len());
    assert("specimen_guard"@.len() != "tomb_warden"@.len());
    assert("specimen_guard"@.len() != "scavenger_knight"@.len());
    assert("specimen_guard"@.len() != "dominion_vessel"@.len());
    assert("specimen_guard"@.len() != "night_choir"@.len());
    assert("specimen_guard"@.len() != "cathedral_frame"@.len());
    assert("specimen_guard"@.len() != "coffin_bearer"@.len());
    assert("specimen_guard"@[0] != "archive_scribe"@[0]);
    assert("specimen_guard"@.len() != "seal_hound"@.len());
    assert("specimen_guard"@.len() != "buried_ember"@.len());
    assert("specimen_guard"@.len() != "carrier_frame"@.len());
    assert("specimen_guard"@.len() != "relay_surgeon"@.len());
    assert("flayed_specimen"@.len() != "prayer_remnant"@.len());
    assert("flayed_specimen"@.len() != "stone_warden"@.len());
    assert("flayed_specimen"@.len() != "grave_frame"@.len());
    assert("flayed_specimen"@.len() != "incense_shell"@.len());
    assert("flayed_specimen"@.len() != "engorged_husk"@.len());
    assert("flayed_specimen"@.len() != "tomb_warden"@.len());
    assert("flayed_specimen"@.len() != "scavenger_knight"@.len());
    assert("flayed_specimen"@[0] != "dominion_vessel"@[0]);
    assert("flayed_specimen"@.len() != "night_choir"@.len());
    assert("flayed_specimen"@[0] != "cathedral_frame"@[0]);
    assert("flayed_specimen"@.len() != "coffin_bearer"@.len());
    assert("flayed_specimen"@.len() != "archive_scribe"@.len());
    assert("flayed_specimen"@.len() != "seal_hound"@.len());
    assert("flayed_specimen"@.len() != "buried_ember"@.len());
    assert("flayed_specimen"@.len() != "carrier_frame"@.len());
    assert("flayed_specimen"@.len() != "relay_surgeon"@.len());
    assert("flayed_specimen"@.len() != "specimen_guard"@.len());
}

/// `a * b`, or `u32::MAX` when that does not fit.
pub open spec fn sat_mul(a: u32, b: u32) -> u32 {
    if a * b > u32::MAX {
        u32::MAX
    } else {
        (a * b) as u32
    }
}

fn saturating_mul_u32(a: u32, b: u32) -> (r: u32)
    ensures
        r == sat_mul(a, b),
{
    assert((a as u64) * (b as u64) <= 0xffff_ffffu64 * 0xffff_ffffu64) by (nonlinear_arith);
    let wide = (a as u64) * (b as u64);
    if wide > u32::MAX as u64 {
        u32::MAX
    } else {
        wide as u32
    }
}

/// A base spawn weight scaled by the biome and research multipliers, each
/// applied as a percentage rounded down.
pub open spec fn adjusted_weight(base: u32, biome_mul: u32, local_mul: u32) -> u32 {
    (sat_mul((sat_mul(base, biome_mul) / 100) as u32, local_mul) / 100) as u32
}

/// The creatures that may spawn at a spot, each with its adjusted weight:
/// those allowed on `floor` whose adjusted weight is positive, in order.
pub open spec fn spawnables_spec(cands: Seq<(Seq<char>, u32)>, floor: u32, biome: u8, score: u32) -> Seq<(Seq<char>, u32)>
    decreases cands.len(),
{
    if cands.len() == 0 {
        Seq::empty()
    } else {
        let prev = spawnables_spec(cands.drop_last(), floor, biome, score);
        let (id, base) = cands.last();
        let w = adjusted_weight(base, biome_multiplier_spec(biome, id), research_multiplier_spec(score, id) as u32);
        if floor >= first_floor(id) && w > 0 {
            prev.push((id, w))
        } else {
            prev
        }
    }
}

pub open spec fn pairs_view(v: Seq<(String, u32)>) -> Seq<(Seq<char>, u32)> {
    v.map_values(|p: (String, u32)| (p.0@, p.1))
}

/// The creatures that may spawn at a spot, with their adjusted weights.
pub fn spawnable_weights(cands: &Vec<(String, u32)>, floor: u32, biome: BiomeId, research_score: u32) -> (out: Vec<(String, u32)>)
    requires
        research_score <= 100_000_000,
    ensures
        pairs_view(out@) == spawnables_spec(pairs_view(cands@), floor, biome.0, research_score),
{
    let mut out: Vec<(String, u32)> = Vec::new();
    let mut i: usize = 0;
    while i < cands.len()
        invariant
            i <= cands@.len(),
            research_score <= 100_000_000,
            pairs_view(out@) == spawnables_spec(pairs_view(cands@.subrange(0, i as int)), floor, biome.0, research_score),
        decreases cands@.len() - i,
    {
        proof {
            assert(pairs_view(cands@.subrange(0, i + 1)).drop_last() =~= pairs_view(cands@.subrange(0, i as int)));
        }
        let id = &cands[i].0;
        let base = cands[i].1;
        if enemy_allowed_on_floor(id.as_str(), floor) {
            let mul = biome_enemy_multiplier(biome, id.as_str());
            let local = research_spawn_multiplier(research_score, id.as_str());
            let w = saturating_mul_u32(saturating_mul_u32(base, mul) / 100, local) / 100;
            if w > 0 {
                out.push((id.clone(), w));
                proof {
                    assert(pairs_view(out@) =~= pairs_view(out@.drop_last()).push((id@, w)));
                }
            }
        }
        i = i + 1;
    }
    proof {
        assert(cands@.subrange(0, cands@.len() as int) =~= cands@);
    }
    out
}

// ---------------------------------------------------------------------------
// Weighted picks
// ---------------------------------------------------------------------------

/// Sum of the weights.
pub open spec fn weight_sum(ws: Seq<u32>) -> int
    decreases ws.len(),
{
    if ws.len() == 0 {
        0
    } else {
        weight_sum(ws.drop_last()) + ws.last()
    }
}

/// The entry a roll `r` lands on, scanning from entry `i`: the first entry
/// whose weight exceeds what is left of the roll.
pub open spec fn pick_at(ws: Seq<u32>, r: int, i: nat) -> Option<nat>
    decreases ws.len() - i,
{
    if i >= ws.len() {
        None
    } else if r < ws[i as int] {
        Some(i)
    } else {
        pick_at(ws, r - ws[i as int], i + 1)
    }
}

proof fn lemma_weight_sum_prefix(ws: Seq<u32>, i: int)
    requires
        0 <= i < ws.len(),
    ensures
        weight_sum(ws.subrange(0, i + 1)) == weight_sum(ws.subrange(0, i)) + ws[i],
        weight_sum(ws.subrange(0, i)) >= 0,
{
    assert(ws.subrange(0, i + 1).drop_last() =~= ws.subrange(0, i));
    lemma_weight_sum_nonneg(ws.subrange(0, i));
}

proof fn lemma_weight_sum_nonneg(ws: Seq<u32>)
    ensures
        weight_sum(ws) >= 0,
    decreases ws.len(),
{
    if ws.len() > 0 {
        lemma_weight_sum_nonneg(ws.drop_last());
    }
}

proof fn lemma_weight_sum_mono(ws: Seq<u32>, i: int)
    requires
        0 <= i <= ws.len(),
    ensures
        weight_sum(ws.subrange(0, i)) <= weight_sum(ws),
    decreases ws.len() - i,
{
    if i < ws.len() {
        lemma_weight_sum_prefix(ws, i);
        lemma_weight_sum_mono(ws, i + 1);
    } else {
        assert(ws.subrange(0, i) =~= ws);
    }
}

/// Sum of the weights, or `None` when it does not fit in a `u32`.
pub fn total_weight(weights: &Vec<u32>) -> (t: Option<u32>)
    ensures
        weight_sum(weights@) <= u32::MAX ==> t == Some(weight_sum(weights@) as u32),
        weight_sum(weights@) > u32::MAX ==> t is None,
{
    let mut total: u32 = 0;
    let mut i: usize = 0;
    while i < weights.len()
        invariant
            i <= weights@.len(),
            total == weight_sum(weights@.subrange(0, i as int)),
        decreases weights@.len() - i,
    {
        proof {
            lemma_weight_sum_prefix(weights@, i as int);
        }
        match total.checked_add(weights[i]) {
            Some(t) => {
                total = t;
            },
            None => {
                proof {
                    lemma_weight_sum_mono(weights@, i + 1);
                }
                return None;
            },
        }
        i = i + 1;
    }
    proof {
        assert(weights@.subrange(0, weights@.len() as int) =~= weights@);
    }
    Some(total)
}

/// The entry a roll lands on, scanning from the first.
fn pick_index(weights: &Vec<u32>, roll: u32) -> (r: Option<usize>)
    ensures
        match pick_at(weights@, roll as int, 0) {
            Some(i) => r == Some(i as usize) && i < weights@.len(),
            None => r is None,
        },
{
    let mut r: u32 = roll;
    let mut i: usize = 0;
    while i < weights.len()
        invariant
            i <= weights@.len(),
            pick_at(weights@, roll as int, 0) == pick_at(weights@, r as int, i as nat),
        decreases weights@.len() - i,
    {
        if r < weights[i] {
            return Some(i);
        }
        r = r - weights[i];
        i = i + 1;
    }
    None
}

/// The entry a deterministic roll in `0..total` selects: the roll is first
/// kept below the total, then the first entry whose weight exceeds what is
/// left of it is taken (the last entry if none). Empty pools and pools of
/// zero weight select nothing.
pub open spec fn weighted_pick_spec(ws: Seq<u32>, roll: u32) -> Option<nat> {
    if ws.len() == 0 || weight_sum(ws) == 0 {
        None
    } else {
        let r: int = if roll >= weight_sum(ws) { weight_sum(ws) - 1 } else { roll as int };
        match pick_at(ws, r, 0) {
            Some(i) => Some(i),
            None => Some((ws.len() - 1) as nat),
        }
    }
}

proof fn lemma_pick_at_from(ws: Seq<u32>, r: int, i: int)
    requires
        0 <= i <= ws.len(),
        weight_sum(ws.subrange(0, i)) <= r < weight_sum(ws),
    ensures
        pick_at(ws, r - weight_sum(ws.subrange(0, i)), i as nat) is Some,
        ({
            let j = pick_at(ws, r - weight_sum(ws.subrange(0, i)), i as nat).unwrap() as int;
            &&& i <= j < ws.len()
            &&& weight_sum(ws.subrange(0, j)) <= r < weight_sum(ws.subrange(0, j + 1))
        }),
    decreases ws.len() - i,
{
    if i == ws.len() {
        assert(ws.subrange(0, i) =~= ws);
    } else {
        lemma_weight_sum_prefix(ws, i);
        let rest = r - weight_sum(ws.subrange(0, i));
        if rest >= ws[i] {
            lemma_pick_at_from(ws, r, i + 1);
            assert(rest - ws[i] == r - weight_sum(ws.subrange(0, i + 1)));
        }
    }
}

/// Law: a roll below the pool's total weight lands on the entry whose
/// stretch of the cumulative weights holds it: the weights before the
/// entry sum to at most the roll, and with the entry's own weight to more
/// than it. A roll at or past the total counts as the total less one.
pub proof fn lemma_weighted_pick_interval(ws: Seq<u32>, roll: u32)
    requires
        weight_sum(ws) > 0,
    ensures
        weighted_pick_spec(ws, roll) is Some,
        roll < weight_sum(ws) ==> ({
            let i = weighted_pick_spec(ws, roll).unwrap() as int;
            &&& 0 <= i < ws.len()
            &&& weight_sum(ws.subrange(0, i)) <= roll < weight_sum(ws.subrange(0, i + 1))
        }),
        roll >= weight_sum(ws) ==> weighted_pick_spec(ws, roll) == weighted_pick_spec(ws, (weight_sum(ws) - 1) as u32),
{
    assert(ws.subrange(0, 0) =~= Seq::<u32>::empty());
    assert(weight_sum(Seq::<u32>::empty()) == 0);
    if ws.len() == 0 {
        assert(weight_sum(ws) == 0);
    }
    let r: int = if roll >= weight_sum(ws) { weight_sum(ws) - 1 } else { roll as int };
    lemma_pick_at_from(ws, r, 0);
    if roll >= weight_sum(ws) {
        lemma_weight_sum_bound(ws);
    }
}

proof fn lemma_weight_sum_bound(ws: Seq<u32>)
    ensures
        weight_sum(ws) <= ws.len() * 0xffff_ffff,
    decreases ws.len(),
{
    if ws.len() > 0 {
        lemma_weight_sum_bound(ws.drop_last());
    }
}

/// The entry a roll selects (see `weighted_pick_spec`).
pub fn pick_weighted(weights: &Vec<u32>, roll: u32) -> (r: Option<usize>)
    requires
        weight_sum(weights@) <= u32::MAX,
    ensures
        match weighted_pick_spec(weights@, roll) {
            Some(i) => r == Some(i as usize) && i < weights@.len(),
            None => r is None,
        },
{
    proof {
        lemma_weight_sum_nonneg(weights@);
    }
    if weights.len() == 0 {
        return None;
    }
    let total = match total_weight(weights) {
        Some(t) => t,
        None => {
            return None;
        },
    };
    if total == 0 {
        return None;
    }
    let r = if roll >= total {
        total - 1
    } else {
        roll
    };
    match pick_index(weights, r) {
        Some(i) => Some(i),
        None => Some(weights.len() - 1),
    }
}

pub open spec fn weights_of<T>(pool: Seq<(T, u32)>) -> Seq<u32> {
    pool.map_values(|p: (T, u32)| p.1)
}

fn weights_vec_items(pool: &Vec<(Item, u32)>) -> (w: Vec<u32>)
    ensures
        w@ == weights_of(pool@),
{
    let mut w: Vec<u32> = Vec::new();
    let mut i: usize = 0;
    while i < pool.len()
        invariant
            i <= pool@.len(),
            w@ == weights_of(pool@.subrange(0, i as int)),
        decreases pool@.len() - i,
    {
        w.push(pool[i].1);
        proof {
            assert(weights_of(pool@.subrange(0, i + 1)) =~= weights_of(pool@.subrange(0, i as int)).push(pool@[i as int].1));
        }
        i = i + 1;
    }
    proof {
        assert(pool@.subrange(0, pool@.len() as int) =~= pool@);
    }
    w
}

fn weights_vec_strings(pool: &Vec<(String, u32)>) -> (w: Vec<u32>)
    ensures
        w@ == weights_of(pool@),
{
    let mut w: Vec<u32> = Vec::new();
    let mut i: usize = 0;
    while i < pool.len()
        invariant
            i <= pool@.len(),
            w@ == weights_of(pool@.subrange(0, i as int)),
        decreases pool@.len() - i,
    {
        w.push(pool[i].1);
        proof {
            assert(weights_of(pool@.subrange(0, i + 1)) =~= weights_of(pool@.subrange(0, i as int)).push(pool@[i as int].1));
        }
        i = i + 1;
    }
    proof {
        assert(pool@.subrange(0, pool@.len() as int) =~= pool@);
    }
    w
}

/// The item of a pool that a deterministic roll selects.
#[verifier::spinoff_prover]
pub fn choose_weighted_item(pool: &Vec<(Item, u32)>, roll: u32) -> (r: Option<Item>)
    requires
        weight_sum(weights_of(pool@)) <= u32::MAX,
    ensures
        r == match weighted_pick_spec(weights_of(pool@), roll) {
            Some(i) => Some(pool@[i as int].0),
            None => None,
        },
{
    let w = weights_vec_items(pool);
    assert(w@.len() == pool@.len());
    match pick_weighted(&w, roll) {
        Some(i) => Some(pool[i].0),
        None => None,
    }
}

/// The structure of a pool that a deterministic roll selects; an unknown key
/// selects nothing.
#[verifier::spinoff_prover]
pub fn choose_weighted_structure(pool: &Vec<(String, u32)>, roll: u32) -> (r: Option<StructureKind>)
    requires
        weight_sum(weights_of(pool@)) <= u32::MAX,
    ensures
        r == match weighted_pick_spec(weights_of(pool@), roll) {
            Some(i) => StructureKind::from_key_spec(pool@[i as int].0@),
            None => None,
        },
{
    let w = weights_vec_strings(pool);
    assert(w@.len() == pool@.len());
    match pick_weighted(&w, roll) {
        Some(i) => {
            let key = pool[i].0.as_str();
            assert(key@ == pool@[i as int].0@);
            assert(weighted_pick_spec(weights_of(pool@), roll) == Some(i as nat));
            StructureKind::from_key(key)
        },
        None => None,
    }
}

/// The creature chosen among `spawnables` by a draw `r`: the first entry
/// whose weight exceeds what is left of the draw, or the first entry.
pub open spec fn spawn_choice(spawnables: Seq<(Seq<char>, u32)>, r: int) -> Seq<char> {
    match pick_at(weights_of(spawnables), r, 0) {
        Some(i) => spawnables[i as int].0,
        None => spawnables[0].0,
    }
}

/// Picks the creature that spawns among `spawnables` (see
/// `spawnable_weights`) with one draw from the generator.
pub fn choose_spawn_enemy_kind(spawnables: &Vec<(String, u32)>, rng_state: &mut u64) -> (r: Option<String>)
    requires
        weight_sum(weights_of(pairs_view(spawnables@))) <= u32::MAX,
    ensures
        spawnables@.len() == 0 ==> r is None && *final(rng_state) == *old(rng_state),
        spawnables@.len() > 0 ==> {
            let total = weight_sum(weights_of(pairs_view(spawnables@)));
            let d: int = rand_spec(*old(rng_state)) as int % (if total > 1 { total } else { 1 });
            &&& *final(rng_state) == lcg_next(*old(rng_state))
            &&& r matches Some(s) && s@ == spawn_choice(pairs_view(spawnables@), d)
        },
{
    if spawnables.len() == 0 {
        return None;
    }
    let w = weights_vec_strings(spawnables);
    proof {
        assert(weights_of(pairs_view(spawnables@)) =~= weights_of(spawnables@));
        lemma_weight_sum_nonneg(w@);
    }
    let total = match total_weight(&w) {
        Some(t) => t,
        None => 0,
    };
    let modulus = if total > 1 {
        total
    } else {
        1
    };
    let d = rand_u32(rng_state) % modulus;
    match pick_index(&w, d) {
        Some(i) => Some(spawnables[i].0.clone()),
        None => Some(spawnables[0].0.clone()),
    }
}

// ---------------------------------------------------------------------------
// Item pools
// ---------------------------------------------------------------------------

/// Which item pool a biome draws from: the wetter corner (0), the greener
/// middle (1), the rocky heights (2) or the mixed rest (3).
pub open spec fn pool_region(biome: u8) -> int {
    let bx = biome % 4;
    let by = biome / 4;
    if (bx == 0 && by == 0) || (bx == 1 && by == 0) || (bx == 0 && by == 1) {
        0
    } else if (bx == 2 && by == 1) || (bx == 1 && by == 2) || (bx == 2 && by == 2) {
        1
    } else if (bx == 3 && by == 2) || (bx == 2 && by == 3) || (bx == 3 && by == 3) {
        2
    } else {
        3
    }
}
/// Item pool of region 0.
pub open spec fn soft_pool() -> Seq<(Item, u32)> {
    seq![
        (Item::StringFiber, 40u32),
        (Item::Food, 20u32),
        (Item::Torch, 8u32),
        (Item::Herb, 30u32),
        (Item::Potion, 15u32),
        (Item::FlameScroll, 3u32),
        (Item::BlinkScroll, 2u32),
        (Item::NovaScroll, 1u32),
        (Item::ForgeScroll, 1u32),
        (Item::Wood, 10u32),
        (Item::Hide, 3u32),
    ]
}
/// Item pool of region 1.
pub open spec fn green_pool() -> Seq<(Item, u32)> {
    seq![
        (Item::Wood, 38u32),
        (Item::Food, 18u32),
        (Item::Torch, 7u32),
        (Item::StringFiber, 20u32),
        (Item::Herb, 18u32),
        (Item::Potion, 14u32),
        (Item::FlameScroll, 4u32),
        (Item::BlinkScroll, 3u32),
        (Item::NovaScroll, 1u32),
        (Item::ForgeScroll, 1u32),
        (Item::Hide, 3u32),
    ]
}
/// Item pool of region 2.
pub open spec fn rocky_pool() -> Seq<(Item, u32)> {
    seq![
        (Item::Stone, 36u32),
        (Item::Food, 10u32),
        (Item::Torch, 6u32),
        (Item::IronIngot, 28u32),
        (Item::Potion, 14u32),
        (Item::FlameScroll, 4u32),
        (Item::BlinkScroll, 4u32),
        (Item::NovaScroll, 2u32),
        (Item::ForgeScroll, 2u32),
        (Item::Wood, 8u32),
        (Item::Elixir, 6u32),
        (Item::Herb, 6u32),
    ]
}
/// Item pool of region 3.
pub open spec fn mixed_pool() -> Seq<(Item, u32)> {
    seq![
        (Item::Potion, 20u32),
        (Item::Food, 14u32),
        (Item::Torch, 6u32),
        (Item::Wood, 24u32),
        (Item::Stone, 22u32),
        (Item::StringFiber, 12u32),
        (Item::Herb, 12u32),
        (Item::IronIngot, 6u32),
        (Item::FlameScroll, 3u32),
        (Item::BlinkScroll, 2u32),
        (Item::NovaScroll, 1u32),
        (Item::ForgeScroll, 1u32),
        (Item::Hide, 2u32),
    ]
}
/// The items that lie about in a biome, with their weights.
pub open spec fn biome_pool_spec(biome: u8) -> Seq<(Item, u32)> {
    let r = pool_region(biome);
    if r == 0 {
        soft_pool()
    } else if r == 1 {
        green_pool()
    } else if r == 2 {
        rocky_pool()
    } else {
        mixed_pool()
    }
}

/// The items that lie about in a biome, with their weights.
pub fn biome_item_pool(biome: BiomeId) -> (pool: Vec<(Item, u32)>)
    ensures
        pool@ == biome_pool_spec(biome.0),
{
    let bx = biome.0 % 4;
    let by = biome.0 / 4;
    let mut p: Vec<(Item, u32)> = Vec::new();
    if (bx == 0 && by == 0) || (bx == 1 && by == 0) || (bx == 0 && by == 1) {
        p.push((Item::StringFiber, 40));
        p.push((Item::Food, 20));
        p.push((Item::Torch, 8));
        p.push((Item::Herb, 30));
        p.push((Item::Potion, 15));
        p.push((Item::FlameScroll, 3));
        p.push((Item::BlinkScroll, 2));
        p.push((Item::NovaScroll, 1));
        p.push((Item::ForgeScroll, 1));
        p.push((Item::Wood, 10));
        p.push((Item::Hide, 3));
        assert(p@ =~= soft_pool());
    } else if (bx == 2 && by == 1) || (bx == 1 && by == 2) || (bx == 2 && by == 2) {
        p.push((Item::Wood, 38));
        p.push((Item::Food, 18));
        p.push((Item::Torch, 7));
        p.push((Item::StringFiber, 20));
        p.push((Item::Herb, 18));
        p.push((Item::Potion, 14));
        p.push((Item::FlameScroll, 4));
        p.push((Item::BlinkScroll, 3));
        p.push((Item::NovaScroll, 1));
        p.push((Item::ForgeScroll, 1));
        p.push((Item::Hide, 3));
        assert(p@ =~= green_pool());
    } else if (bx == 3 && by == 2) || (bx == 2 && by == 3) || (bx == 3 && by == 3) {
        p.push((Item::Stone, 36));
        p.push((Item::Food, 10));
        p.push((Item::Torch, 6));
        p.push((Item::IronIngot, 28));
        p.push((Item::Potion, 14));
        p.push((Item::FlameScroll, 4));
        p.push((Item::BlinkScroll, 4));
        p.push((Item::NovaScroll, 2));
        p.push((Item::ForgeScroll, 2));
        p.push((Item::Wood, 8));
        p.push((Item::Elixir, 6));
        p.push((Item::Herb, 6));
        assert(p@ =~= rocky_pool());
    } else {
        p.push((Item::Potion, 20));
        p.push((Item::Food, 14));
        p.push((Item::Torch, 6));
        p.push((Item::Wood, 24));
        p.push((Item::Stone, 22));
        p.push((Item::StringFiber, 12));
        p.push((Item::Herb, 12));
        p.push((Item::IronIngot, 6));
        p.push((Item::FlameScroll, 3));
        p.push((Item::BlinkScroll, 2));
        p.push((Item::NovaScroll, 1));
        p.push((Item::ForgeScroll, 1));
        p.push((Item::Hide, 2));
        assert(p@ =~= mixed_pool());
    }
    p
}

/// English name of a biome when no translation gives one.
pub open spec fn biome_fallback_name_spec(id: u8) -> Seq<char> {
    if id == 14 {
        "Spire Peaks"@
    } else if id == 13 {
        "Crag Depths"@
    } else if id == 12 {
        "Obsidian Waste"@
    } else if id == 11 {
        "Cloud Ridge"@
    } else if id == 10 {
        "Alpine Forest"@
    } else if id == 9 {
        "Highland"@
    } else if id == 8 {
        "Stone Steppe"@
    } else if id == 7 {
        "Rainforest"@
    } else if id == 6 {
        "Woodland"@
    } else if id == 5 {
        "Fog Meadow"@
    } else if id == 4 {
        "Frost Flats"@
    } else if id == 3 {
        "Luminous Grove"@
    } else if id == 2 {
        "Green Fields"@
    } else if id == 1 {
        "Salt Marsh"@
    } else if id == 0 {
        "Ash Barrens"@
    } else {
        "Elder Summit"@
    }
}

/// English name of a biome when no translation gives one.
pub fn biome_fallback_name(id: BiomeId) -> (name: &'static str)
    ensures
        name@ == biome_fallback_name_spec(id.0),
{
    let i = id.0;
    if i == 14 {
        "Spire Peaks"
    } else if i == 13 {
        "Crag Depths"
    } else if i == 12 {
        "Obsidian Waste"
    } else if i == 11 {
        "Cloud Ridge"
    } else if i == 10 {
        "Alpine Forest"
    } else if i == 9 {
        "Highland"
    } else if i == 8 {
        "Stone Steppe"
    } else if i == 7 {
        "Rainforest"
    } else if i == 6 {
        "Woodland"
    } else if i == 5 {
        "Fog Meadow"
    } else if i == 4 {
        "Frost Flats"
    } else if i == 3 {
        "Luminous Grove"
    } else if i == 2 {
        "Green Fields"
    } else if i == 1 {
        "Salt Marsh"
    } else if i == 0 {
        "Ash Barrens"
    } else {
        "Elder Summit"
    }
}

// ---------------------------------------------------------------------------
// Loot
// ---------------------------------------------------------------------------

/// One entry of a creature's loot table.
#[derive(Clone, Copy, Debug, PartialEq, Eq, Structural)]
pub struct LootDef {
    pub item: Item,
    /// Percent chance that a creature spawns carrying the item.
    pub carry_chance: u8,
    /// Percent chance that the item drops when it is picked on defeat.
    pub drop_chance: u8,
    /// The creature wields the item when it carries it.
    pub equip_as_weapon: bool,
}

/// An item a creature carries.
#[derive(Clone, Copy, Debug, PartialEq, Eq, Structural)]
pub struct CarriedItem {
    pub item: Item,
    pub drop_chance: u8,
}

/// The generator's state after a percent roll.
pub open spec fn roll_state(state: u64, chance: u8) -> u64 {
    if chance == 0 {
        state
    } else {
        lcg_next(state)
    }
}

/// Whether a percent roll succeeds.
pub open spec fn roll_hits(state: u64, chance: u8) -> bool {
    chance > 0 && rand_spec(state) % 100 < chance
}

/// Rolling the loot table entry by entry: each entry whose carry roll
/// succeeds is carried, and the first carried entry marked as a weapon is
/// wielded. Gives the carried items, the wielded one and the generator's
/// state.
pub open spec fn loot_rolls(loot: Seq<LootDef>, state: u64) -> (Seq<CarriedItem>, Option<Item>, u64)
    decreases loot.len(),
{
    if loot.len() == 0 {
        (Seq::empty(), None, state)
    } else {
        let prev = loot_rolls(loot.drop_last(), state);
        let e = loot.last();
        if roll_hits(prev.2, e.carry_chance) {
            (
                prev.0.push(CarriedItem { item: e.item, drop_chance: e.drop_chance }),
                if prev.1 is None && e.equip_as_weapon { Some(e.item) } else { prev.1 },
                roll_state(prev.2, e.carry_chance),
            )
        } else {
            (prev.0, prev.1, roll_state(prev.2, e.carry_chance))
        }
    }
}

/// Law: a creature carries only loot entries whose carry chance is above
/// zero, with the entry's drop chance, in the order of the loot table, and
/// at most one item per entry; it carries every entry whose chance is 100
/// percent or more; the item it wields, if any, is one it carries.
pub proof fn lemma_loadout_from_loot(loot: Seq<LootDef>, state: u64)
    ensures
        loot_rolls(loot, state).0.len() <= loot.len(),
        forall|i: int|
            0 <= i < loot_rolls(loot, state).0.len() ==> exists|j: int|
                0 <= j < loot.len() && loot[j].carry_chance > 0 && #[trigger] loot_rolls(loot, state).0[i] == (CarriedItem {
                    item: loot[j].item,
                    drop_chance: loot[j].drop_chance,
                }),
        (forall|j: int| 0 <= j < loot.len() ==> #[trigger] loot[j].carry_chance >= 100) ==> loot_rolls(loot, state).0
            == loot.map_values(|e: LootDef| CarriedItem { item: e.item, drop_chance: e.drop_chance }),
        loadout_spec(loot, state).1 matches Some(w) ==> exists|i: int|
            0 <= i < loadout_spec(loot, state).0.len() && (#[trigger] loadout_spec(loot, state).0[i]).item == w,
    decreases loot.len(),
{
    if loot.len() > 0 {
        let init = loot.drop_last();
        lemma_loadout_from_loot(init, state);
        let prev = loot_rolls(init, state);
        let cur = loot_rolls(loot, state);
        let e = loot.last();
        assert(e == loot[loot.len() - 1]);
        assert forall|i: int| 0 <= i < cur.0.len() implies exists|j: int|
            0 <= j < loot.len() && loot[j].carry_chance > 0 && #[trigger] cur.0[i] == (CarriedItem {
                item: loot[j].item,
                drop_chance: loot[j].drop_chance,
            }) by {
            if i < prev.0.len() {
                assert(cur.0[i] == prev.0[i]);
                let j = choose|j: int|
                    0 <= j < init.len() && init[j].carry_chance > 0 && prev.0[i] == (CarriedItem {
                        item: init[j].item,
                        drop_chance: init[j].drop_chance,
                    });
                assert(loot[j] == init[j]);
            } else {
                assert(cur.0[i] == CarriedItem { item: e.item, drop_chance: e.drop_chance });
            }
        }
        if forall|j: int| 0 <= j < loot.len() ==> #[trigger] loot[j].carry_chance >= 100 {
            assert forall|j: int| 0 <= j < init.len() implies #[trigger] init[j].carry_chance >= 100 by {
                assert(init[j] == loot[j]);
            }
            assert(rand_spec(prev.2) % 100 < 100);
            assert(loot.map_values(|e: LootDef| CarriedItem { item: e.item, drop_chance: e.drop_chance }) =~= init.map_values(
                |e: LootDef| CarriedItem { item: e.item, drop_chance: e.drop_chance },
            ).push(CarriedItem { item: e.item, drop_chance: e.drop_chance }));
        }
    }
    lemma_weapon_is_carried(loot, state);
}

proof fn lemma_marked_is_carried(loot: Seq<LootDef>, state: u64)
    ensures
        loot_rolls(loot, state).1 matches Some(w) ==> exists|i: int|
            0 <= i < loot_rolls(loot, state).0.len() && (#[trigger] loot_rolls(loot, state).0[i]).item == w,
    decreases loot.len(),
{
    if loot.len() > 0 {
        let init = loot.drop_last();
        lemma_marked_is_carried(init, state);
        let prev = loot_rolls(init, state);
        let cur = loot_rolls(loot, state);
        if let Some(w) = cur.1 {
            if prev.1 == Some(w) {
                let i = choose|i: int| 0 <= i < prev.0.len() && (#[trigger] prev.0[i]).item == w;
                assert(cur.0[i] == prev.0[i]);
            } else {
                assert(cur.0[prev.0.len() as int].item == w);
            }
        }
    }
}

proof fn lemma_first_weapon_carried(carried: Seq<CarriedItem>)
    ensures
        first_weapon(carried) matches Some(w) ==> exists|i: int| 0 <= i < carried.len() && (#[trigger] carried[i]).item == w,
    decreases carried.len(),
{
    if carried.len() > 0 && !is_wieldable(carried[0].item) {
        let rest = carried.subrange(1, carried.len() as int);
        lemma_first_weapon_carried(rest);
        if let Some(w) = first_weapon(rest) {
            let i = choose|i: int| 0 <= i < rest.len() && (#[trigger] rest[i]).item == w;
            assert(carried[i + 1] == rest[i]);
        }
    }
}

proof fn lemma_weapon_is_carried(loot: Seq<LootDef>, state: u64)
    ensures
        loadout_spec(loot, state).1 matches Some(w) ==> exists|i: int|
            0 <= i < loadout_spec(loot, state).0.len() && (#[trigger] loadout_spec(loot, state).0[i]).item == w,
{
    lemma_marked_is_carried(loot, state);
    let r = loot_rolls(loot, state);
    lemma_first_weapon_carried(r.0);
    let l = loadout_spec(loot, state);
    assert(l.0 == r.0);
    if let Some(w) = l.1 {
        let i = choose|i: int| 0 <= i < r.0.len() && (#[trigger] r.0[i]).item == w;
        assert(l.0[i] == r.0[i]);
    }
}

/// The first carried item that is a weapon.
pub open spec fn first_weapon(carried: Seq<CarriedItem>) -> Option<Item>
    decreases carried.len(),
{
    if carried.len() == 0 {
        None
    } else if is_wieldable(carried[0].item) {
        Some(carried[0].item)
    } else {
        first_weapon(carried.subrange(1, carried.len() as int))
    }
}

/// What a creature spawns with: the carried items from its loot rolls, and
/// the wielded weapon (the first marked one, else the first weapon carried).
pub open spec fn loadout_spec(loot: Seq<LootDef>, state: u64) -> (Seq<CarriedItem>, Option<Item>, u64) {
    let r = loot_rolls(loot, state);
    (r.0, if r.1 is Some { r.1 } else { first_weapon(r.0) }, r.2)
}

fn is_weapon_kind(item: Item) -> (b: bool)
    ensures
        b == is_wieldable(item),
{
    match item {
        Item::StoneAxe | Item::IronSword | Item::IronPickaxe | Item::GladiusNadir
        | Item::FerrumOccasus | Item::VirgaOriens | Item::VirgaMeridies | Item::VirgaZenith => true,
        _ => false,
    }
}

fn first_weapon_exec(carried: &Vec<CarriedItem>) -> (w: Option<Item>)
    ensures
        w == first_weapon(carried@),
{
    let mut i: usize = 0;
    assert(carried@.subrange(0, carried@.len() as int) =~= carried@);
    while i < carried.len()
        invariant
            i <= carried@.len(),
            first_weapon(carried@) == first_weapon(carried@.subrange(i as int, carried@.len() as int)),
        decreases carried@.len() - i,
    {
        let ghost rest = carried@.subrange(i as int, carried@.len() as int);
        assert(rest.subrange(1, rest.len() as int) =~= carried@.subrange(i + 1, carried@.len() as int));
        if is_weapon_kind(carried[i].item) {
            return Some(carried[i].item);
        }
        i = i + 1;
    }
    None
}

/// Rolls what a creature spawns with (see `loadout_spec`).
pub fn roll_enemy_loadout(loot: &Vec<LootDef>, rng_state: &mut u64) -> (r: (Vec<CarriedItem>, Option<Item>))
    ensures
        ({
            let s = loadout_spec(loot@, *old(rng_state));
            &&& r.0@ == s.0
            &&& r.1 == s.1
            &&& *final(rng_state) == s.2
        }),
{
    let ghost start = *rng_state;
    let mut carried: Vec<CarriedItem> = Vec::new();
    let mut weapon: Option<Item> = None;
    let mut i: usize = 0;
    while i < loot.len()
        invariant
            i <= loot@.len(),
            ({
                let p = loot_rolls(loot@.subrange(0, i as int), start);
                &&& carried@ == p.0
                &&& weapon == p.1
                &&& *rng_state == p.2
            }),
        decreases loot@.len() - i,
    {
        assert(loot@.subrange(0, i + 1).drop_last() =~= loot@.subrange(0, i as int));
        let e = loot[i];
        if roll_percent(rng_state, e.carry_chance) {
            carried.push(CarriedItem { item: e.item, drop_chance: e.drop_chance });
            if weapon.is_none() && e.equip_as_weapon {
                weapon = Some(e.item);
            }
        }
        i = i + 1;
    }
    assert(loot@.subrange(0, loot@.len() as int) =~= loot@);
    if weapon.is_none() {
        weapon = first_weapon_exec(&carried);
    }
    (carried, weapon)
}

/// Experience for defeating a creature: its HP (at least one), its attack
/// and twice its defence, at least one in all.
pub open spec fn defeat_exp_spec(hp: i32, attack: i32, defense: i32) -> int {
    let v = (if hp > 1 { hp as int } else { 1 }) + attack + defense * 2;
    if v > 1 {
        v
    } else {
        1
    }
}

/// Law: defeating a creature gives its HP (counted as at least one), plus
/// its attack, plus twice its defence, and never less than one point; a
/// creature with more HP, attack or defence never gives less.
pub proof fn lemma_defeat_exp(hp: i32, attack: i32, defense: i32)
    ensures
        defeat_exp_spec(hp, attack, defense) == (if (if hp >= 1 { hp as int } else { 1 }) + attack + 2 * defense >= 1 {
            (if hp >= 1 { hp as int } else { 1 }) + attack + 2 * defense
        } else {
            1
        }),
        defeat_exp_spec(hp, attack, defense) >= 1,
        hp < i32::MAX ==> defeat_exp_spec(hp, attack, defense) <= defeat_exp_spec((hp + 1) as i32, attack, defense),
        attack < i32::MAX ==> defeat_exp_spec(hp, attack, defense) <= defeat_exp_spec(hp, (attack + 1) as i32, defense),
        defense < i32::MAX ==> defeat_exp_spec(hp, attack, defense) <= defeat_exp_spec(hp, attack, (defense + 1) as i32),
{
}

/// Experience for defeating a creature.
pub fn defeat_exp(hp: i32, attack: i32, defense: i32) -> (e: u32)
    requires
        i32::MIN <= defense * 2 <= i32::MAX,
        (if hp > 1 { hp as int } else { 1 }) + attack <= i32::MAX,
        i32::MIN <= (if hp > 1 { hp as int } else { 1 }) + attack + defense * 2 <= i32::MAX,
    ensures
        e == defeat_exp_spec(hp, attack, defense),
{
    let base = if hp > 1 {
        hp
    } else {
        1
    };
    let v = base + attack + defense * 2;
    if v > 1 {
        v as u32
    } else {
        1
    }
}

/// On defeat one carried item is picked at random and drops if its own
/// drop roll succeeds. Nothing is drawn when nothing is carried.
pub fn pick_dropped_item(carried: &Vec<CarriedItem>, rng_state: &mut u64) -> (r: Option<Item>)
    ensures
        carried@.len() == 0 ==> r is None && *final(rng_state) == *old(rng_state),
        carried@.len() > 0 ==> {
            let picked = carried@[(rand_spec(*old(rng_state)) as int) % (carried@.len() as int)];
            let s1 = lcg_next(*old(rng_state));
            &&& *final(rng_state) == roll_state(s1, picked.drop_chance)
            &&& r == (if roll_hits(s1, picked.drop_chance) { Some(picked.item) } else { None })
        },
{
    if carried.len() == 0 {
        return None;
    }
    let idx = (rand_u32(rng_state) as usize) % carried.len();
    let picked = carried[idx];
    if !roll_percent(rng_state, picked.drop_chance) {
        return None;
    }
    Some(picked.item)
}

/// Copper-carrying creatures: their drop chance, least number of disks and
/// spread of disks.
pub open spec fn copper_profile(id: Seq<char>) -> Option<(u8, u32, u32)> {
    if id == "scavenger_knight"@ {
        Some((55u8, 3u32, 4u32))
    } else if id == "archive_scribe"@ {
        Some((48u8, 2u32, 3u32))
    } else if id == "relay_surgeon"@ {
        Some((42u8, 2u32, 4u32))
    } else if id == "specimen_guard"@ {
        Some((38u8, 2u32, 4u32))
    } else if id == "dominion_vessel"@ {
        Some((24u8, 3u32, 5u32))
    } else if id == "flayed_specimen"@ {
        Some((18u8, 1u32, 3u32))
    } else {
        None
    }
}

/// Copper disks a defeated creature drops, if any: a percent roll, then a
/// second draw for the count.
pub fn enemy_copper_drop_disks(creature_id: &str, rng_state: &mut u64) -> (r: Option<u32>)
    ensures
        copper_profile(creature_id@) is None ==> r is None && *final(rng_state) == *old(rng_state),
        copper_profile(creature_id@) matches Some(p) ==> {
            let s1 = lcg_next(*old(rng_state));
            if roll_hits(*old(rng_state), p.0) {
                &&& *final(rng_state) == lcg_next(s1)
                &&& r == Some((p.1 + rand_spec(s1) % p.2) as u32)
            } else {
                &&& *final(rng_state) == s1
                &&& r is None
            }
        },
{
    let (chance, min_disks, span): (u8, u32, u32) = if str_eq(creature_id, "scavenger_knight") {
        (55, 3, 4)
    } else if str_eq(creature_id, "archive_scribe") {
        (48, 2, 3)
    } else if str_eq(creature_id, "relay_surgeon") {
        (42, 2, 4)
    } else if str_eq(creature_id, "specimen_guard") {
        (38, 2, 4)
    } else if str_eq(creature_id, "dominion_vessel") {
        (24, 3, 5)
    } else if str_eq(creature_id, "flayed_specimen") {
        (18, 1, 3)
    } else {
        return None;
    };
    if !roll_percent(rng_state, chance) {
        return None;
    }
    Some(min_disks + rand_u32(rng_state) % span)
}

/// A traveller drops bread on defeat with a 40 percent chance.
pub fn traveler_drops_bread(rng_state: &mut u64) -> (b: bool)
    ensures
        *final(rng_state) == lcg_next(*old(rng_state)),
        b == (rand_spec(*old(rng_state)) % 100 < 40),
{
    rand_u32(rng_state) % 100 < 40
}

/// Weight of `disks` copper disks in grams with one decimal (5.6 g each).
pub open spec fn copper_weight_spec(disks: u32) -> Seq<char> {
    let d = sat_mul(disks, 56);
    decimal((d / 10) as nat) + seq!['.', digit_char((d % 10) as nat)]
}

/// Weight of `disks` copper disks in grams, such as `16.8`.
pub fn copper_weight_text(disks: u32) -> (s: String)
    ensures
        s@ == copper_weight_spec(disks),
{
    let d = saturating_mul_u32(disks, 56);
    let mut v = decimal_chars(d / 10);
    v.push('.');
    v.push(((d % 10) as u8 + 48u8) as char);
    string_from_chars(&v)
}

// ---------------------------------------------------------------------------
// Sites and melee
// ---------------------------------------------------------------------------

/// The kinds of stone tablet.
#[derive(Clone, Copy, Debug, PartialEq, Eq, Structural)]
pub enum StoneTabletKind {
    Mercy, MercyLitany, MercyName, MercySumer,
    Might, MightWarning, MightName, MightSumer,
    Oracle, OracleTwins, OracleFifth, OracleLast, OracleSumer,
}

impl StoneTabletKind {
    /// Key of the message a tablet shows.
    pub open spec fn popup_key_spec(self) -> Seq<char> {
        match self {
            StoneTabletKind::Mercy => "tablet.message.mercy"@,
            StoneTabletKind::MercyLitany => "tablet.message.mercy_litany"@,
            StoneTabletKind::MercyName => "tablet.message.mercy_name"@,
            StoneTabletKind::MercySumer => "tablet.message.mercy_sumer"@,
            StoneTabletKind::Might => "tablet.message.might"@,
            StoneTabletKind::MightWarning => "tablet.message.might_warning"@,
            StoneTabletKind::MightName => "tablet.message.might_name"@,
            StoneTabletKind::MightSumer => "tablet.message.might_sumer"@,
            StoneTabletKind::Oracle => "tablet.message.oracle"@,
            StoneTabletKind::OracleTwins => "tablet.message.oracle_twins"@,
            StoneTabletKind::OracleFifth => "tablet.message.oracle_fifth"@,
            StoneTabletKind::OracleLast => "tablet.message.oracle_last"@,
            StoneTabletKind::OracleSumer => "tablet.message.oracle_sumer"@,
        }
    }

    /// Key of the message a tablet shows.
    pub fn popup_key(self) -> (k: &'static str)
        ensures
            k@ == self.popup_key_spec(),
    {
        match self {
            StoneTabletKind::Mercy => "tablet.message.mercy",
            StoneTabletKind::MercyLitany => "tablet.message.mercy_litany",
            StoneTabletKind::MercyName => "tablet.message.mercy_name",
            StoneTabletKind::MercySumer => "tablet.message.mercy_sumer",
            StoneTabletKind::Might => "tablet.message.might",
            StoneTabletKind::MightWarning => "tablet.message.might_warning",
            StoneTabletKind::MightName => "tablet.message.might_name",
            StoneTabletKind::MightSumer => "tablet.message.might_sumer",
            StoneTabletKind::Oracle => "tablet.message.oracle",
            StoneTabletKind::OracleTwins => "tablet.message.oracle_twins",
            StoneTabletKind::OracleFifth => "tablet.message.oracle_fifth",
            StoneTabletKind::OracleLast => "tablet.message.oracle_last",
            StoneTabletKind::OracleSumer => "tablet.message.oracle_sumer",
        }
    }
}

/// How much a structure adds to the research score of its surroundings.
pub open spec fn research_weight(k: StructureKind) -> u32 {
    if k == StructureKind::Altar {
        1
    } else if k == StructureKind::TempleCore {
        2
    } else if k == StructureKind::BoneRack || k == StructureKind::CablePylon {
        3
    } else {
        4
    }
}

pub open spec fn research_sum(ks: Seq<StructureKind>) -> int
    decreases ks.len(),
{
    if ks.len() == 0 {
        0
    } else {
        research_sum(ks.drop_last()) + research_weight(ks.last())
    }
}

proof fn lemma_research_sum_bound(ks: Seq<StructureKind>)
    ensures
        0 <= research_sum(ks) <= 4 * ks.len(),
    decreases ks.len(),
{
    if ks.len() > 0 {
        lemma_research_sum_bound(ks.drop_last());
    }
}

/// Research score of a spot from the structures around it (within three
/// steps, the spot itself excluded), capped at 8.
pub fn research_structure_score(nearby: &Vec<StructureKind>) -> (score: u32)
    requires
        nearby@.len() <= 100_000_000,
    ensures
        score == min_int(research_sum(nearby@), 8),
{
    let mut score: u32 = 0;
    let mut i: usize = 0;
    while i < nearby.len()
        invariant
            i <= nearby@.len(),
            nearby@.len() <= 100_000_000,
            score == research_sum(nearby@.subrange(0, i as int)),
        decreases nearby@.len() - i,
    {
        assert(nearby@.subrange(0, i + 1).drop_last() =~= nearby@.subrange(0, i as int));
        proof {
            lemma_research_sum_bound(nearby@.subrange(0, i as int));
        }
        let k = nearby[i];
        let w: u32 = if k == StructureKind::Altar {
            1
        } else if k == StructureKind::TempleCore {
            2
        } else if k == StructureKind::BoneRack || k == StructureKind::CablePylon {
            3
        } else {
            4
        };
        score = score + w;
        i = i + 1;
    }
    assert(nearby@.subrange(0, nearby@.len() as int) =~= nearby@);
    if score < 8 {
        score
    } else {
        8
    }
}

/// How much a tablet adds to the ritual score of its surroundings.
pub open spec fn tablet_weight(k: StoneTabletKind) -> u32 {
    match k {
        StoneTabletKind::Mercy | StoneTabletKind::MercyLitany | StoneTabletKind::MercyName
        | StoneTabletKind::Might | StoneTabletKind::MightWarning | StoneTabletKind::MightName
        | StoneTabletKind::Oracle => 2,
        _ => 1,
    }
}

/// How much a structure adds to the ritual score of its surroundings.
pub open spec fn ritual_weight(k: StructureKind) -> u32 {
    match k {
        StructureKind::Altar => 3,
        StructureKind::TempleCore => 4,
        _ => 0,
    }
}

pub open spec fn tablet_sum(ks: Seq<StoneTabletKind>) -> int
    decreases ks.len(),
{
    if ks.len() == 0 {
        0
    } else {
        tablet_sum(ks.drop_last()) + tablet_weight(ks.last())
    }
}

pub open spec fn ritual_sum(ks: Seq<StructureKind>) -> int
    decreases ks.len(),
{
    if ks.len() == 0 {
        0
    } else {
        ritual_sum(ks.drop_last()) + ritual_weight(ks.last())
    }
}

proof fn lemma_tablet_sum_bound(ks: Seq<StoneTabletKind>)
    ensures
        0 <= tablet_sum(ks) <= 2 * ks.len(),
    decreases ks.len(),
{
    if ks.len() > 0 {
        lemma_tablet_sum_bound(ks.drop_last());
    }
}

proof fn lemma_ritual_sum_bound(ks: Seq<StructureKind>)
    ensures
        0 <= ritual_sum(ks) <= 4 * ks.len(),
    decreases ks.len(),
{
    if ks.len() > 0 {
        lemma_ritual_sum_bound(ks.drop_last());
    }
}

/// Ritual score of a spot from the tablets and structures around it (within
/// two steps, the spot itself excluded), capped at 8.
pub fn ritual_structure_score(tablets: &Vec<StoneTabletKind>, structures: &Vec<StructureKind>) -> (score: u32)
    requires
        tablets@.len() <= 100_000_000,
        structures@.len() <= 100_000_000,
    ensures
        score == min_int(tablet_sum(tablets@) + ritual_sum(structures@), 8),
{
    let mut t: u32 = 0;
    let mut i: usize = 0;
    while i < tablets.len()
        invariant
            i <= tablets@.len(),
            tablets@.len() <= 100_000_000,
            t == tablet_sum(tablets@.subrange(0, i as int)),
        decreases tablets@.len() - i,
    {
        assert(tablets@.subrange(0, i + 1).drop_last() =~= tablets@.subrange(0, i as int));
        proof {
            lemma_tablet_sum_bound(tablets@.subrange(0, i as int));
        }
        let w: u32 = match tablets[i] {
            StoneTabletKind::Mercy | StoneTabletKind::MercyLitany | StoneTabletKind::MercyName
            | StoneTabletKind::Might | StoneTabletKind::MightWarning | StoneTabletKind::MightName
            | StoneTabletKind::Oracle => 2,
            _ => 1,
        };
        t = t + w;
        i = i + 1;
    }
    assert(tablets@.subrange(0, tablets@.len() as int) =~= tablets@);
    let mut r: u32 = 0;
    let mut j: usize = 0;
    while j < structures.len()
        invariant
            j <= structures@.len(),
            structures@.len() <= 100_000_000,
            r == ritual_sum(structures@.subrange(0, j as int)),
        decreases structures@.len() - j,
    {
        assert(structures@.subrange(0, j + 1).drop_last() =~= structures@.subrange(0, j as int));
        proof {
            lemma_ritual_sum_bound(structures@.subrange(0, j as int));
        }
        let w: u32 = match structures[j] {
            StructureKind::Altar => 3,
            StructureKind::TempleCore => 4,
            _ => 0,
        };
        r = r + w;
        j = j + 1;
    }
    assert(structures@.subrange(0, structures@.len() as int) =~= structures@);
    proof {
        lemma_tablet_sum_bound(tablets@);
        lemma_ritual_sum_bound(structures@);
    }
    let score = t + r;
    if score < 8 {
        score
    } else {
        8
    }
}

/// Extra melee damage, burning turns and slowing turns a creature deals,
/// from its surroundings: allies beside it, nearby tablets and altars,
/// research sites, or walls close around it.
pub open spec fn melee_profile_spec(id: Seq<char>, ritual: u32, research: u32, hostiles: usize, walls: usize) -> (i32, u8, u8) {
    if id == "ash_eater"@ {
        (if hostiles >= 1 { 1i32 } else { 0i32 }, 0u8, 0u8)
    } else if id == "prayer_remnant"@ {
        (if ritual >= 2 { 1i32 } else { 0i32 }, 0u8, 0u8)
    } else if id == "stone_warden"@ {
        (if ritual >= 2 { 2i32 } else { 0i32 }, 0u8, if ritual >= 4 { 1u8 } else { 0u8 })
    } else if id == "incense_shell"@ {
        (0i32, 1u8, 0u8)
    } else if id == "coffin_bearer"@ {
        (if walls >= 4 { 1i32 } else { 0i32 }, 0u8, 2u8)
    } else if id == "seal_hound"@ {
        (if hostiles >= 1 { 1i32 } else { 0i32 }, 0u8, if walls >= 4 { 1u8 } else { 0u8 })
    } else if id == "buried_ember"@ {
        (0i32, 2u8, 0u8)
    } else if id == "specimen_guard"@ {
        (if research >= 3 { 2i32 } else { 0i32 }, 0u8, if research >= 4 { 1u8 } else { 0u8 })
    } else if id == "flayed_specimen"@ {
        (0i32, 2u8, 2u8)
    } else {
        (0i32, 0u8, 0u8)
    }
}

/// Extra melee damage, burning turns and slowing turns a creature deals.
pub fn enemy_melee_profile(creature_id: &str, ritual_score: u32, research_score: u32, nearby_hostiles: usize, nearby_walls: usize) -> (p: (i32, u8, u8))
    ensures
        p == melee_profile_spec(creature_id@, ritual_score, research_score, nearby_hostiles, nearby_walls),
{
    let id = creature_id;
    if str_eq(id, "ash_eater") {
        (if nearby_hostiles >= 1 { 1 } else { 0 }, 0, 0)
    } else if str_eq(id, "prayer_remnant") {
        (if ritual_score >= 2 { 1 } else { 0 }, 0, 0)
    } else if str_eq(id, "stone_warden") {
        (if ritual_score >= 2 { 2 } else { 0 }, 0, if ritual_score >= 4 { 1 } else { 0 })
    } else if str_eq(id, "incense_shell") {
        (0, 1, 0)
    } else if str_eq(id, "coffin_bearer") {
        (if nearby_walls >= 4 { 1 } else { 0 }, 0, 2)
    } else if str_eq(id, "seal_hound") {
        (if nearby_hostiles >= 1 { 1 } else { 0 }, 0, if nearby_walls >= 4 { 1 } else { 0 })
    } else if str_eq(id, "buried_ember") {
        (0, 2, 0)
    } else if str_eq(id, "specimen_guard") {
        (if research_score >= 3 { 2 } else { 0 }, 0, if research_score >= 4 { 1 } else { 0 })
    } else if str_eq(id, "flayed_specimen") {
        (0, 2, 2)
    } else {
        (0, 0, 0)
    }
}

/// A biome's name in the reader's language: the message `biome.name.<id>`,
/// or the English name when the messages lack it.
pub fn biome_name(texts: &crate::text::Texts, id: BiomeId) -> (name: String)
    ensures
        name@ == (if crate::text::lookup_spec(texts.active_spec(), "biome.name."@ + decimal(id.0 as nat)) == "biome.name."@ + decimal(id.0 as nat) {
            biome_fallback_name_spec(id.0)
        } else {
            crate::text::lookup_spec(texts.active_spec(), "biome.name."@ + decimal(id.0 as nat))
        }),
{
    let mut key = crate::strings::chars_of("biome.name.");
    let digits = decimal_chars(id.0 as u32);
    let ghost start = key@;
    let mut i: usize = 0;
    while i < digits.len()
        invariant
            i <= digits@.len(),
            key@ == start + digits@.subrange(0, i as int),
        decreases digits@.len() - i,
    {
        key.push(digits[i]);
        assert(start + digits@.subrange(0, i + 1) =~= start + digits@.subrange(0, i as int) + seq![digits@[i as int]]);
        i = i + 1;
    }
    assert(digits@.subrange(0, digits@.len() as int) =~= digits@);
    let k = string_from_chars(&key);
    texts.tr_or_fallback(k.as_str(), biome_fallback_name(id))
}

} // verus!
