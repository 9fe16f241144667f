//! Verified core of the Abyss roguelike: terrain noise tables, world
//! configuration, item data, inventory and progression rules.
use vstd::prelude::*;

pub mod noise;
pub mod strings;
pub mod items;
pub mod defs;
pub mod world_cfg;
pub mod inventory;
pub mod progression;
pub mod worldgen;
pub mod combat;
pub mod player;
pub mod spawning;
pub mod restore;
pub mod save;
pub mod text;
pub mod debug;
pub mod enemies;
pub mod catalog;
pub mod sites;
pub mod sight;
pub mod vending;
pub mod console;
pub mod arts;
pub mod facility;
pub mod dark_spawn;
pub mod floor;
pub mod ui_flow;

verus! {

} // verus!
