//! The game data catalogue: tiles, items, recipes and creatures as the data
//! file lists them, checked entry by entry and turned into the definitions
//! the game looks things up in.
use vstd::prelude::*;

use crate::defs::{
    forge_pattern_error, forge_pattern_error_spec, is_weapon_item, parse_forge_scroll_pattern,
    parse_single_char, pattern_cells, rows_view, default_forge_pattern_spec, Faction,
    ForgePatternError,
};
use crate::inventory::{add_item_spec, name_view, new_stack, Inventory, InventoryItem};
use crate::items::{Item, Tile};
use crate::spawning::LootDef;
use crate::strings::{spec_trim, str_eq, trim_string};

verus! {

// ---------------------------------------------------------------------------
// Entries as the data file writes them
// ---------------------------------------------------------------------------

/// A tile entry of the data file.
pub struct TileDefRaw {
    pub id: String,
    pub glyph: String,
    pub color: u8,
    pub shadow_color: Option<u8>,
    pub walkable: bool,
    pub legend: String,
    pub harvest_hits: Option<u8>,
    pub harvest_drop: Option<String>,
    pub harvest_drop_chance: Option<u8>,
    pub harvest_replace: Option<String>,
    pub harvest_label: Option<String>,
}

/// An item entry of the data file.
pub struct ItemDefRaw {
    pub id: String,
    pub name: String,
    pub glyph: String,
    pub color: u8,
    pub status: String,
    pub description: String,
}

/// A crafting recipe: nine grid cells, a blank cell meaning "empty".
pub struct RecipeDefRaw {
    pub result: String,
    pub label: Option<String>,
    pub inputs: Vec<String>,
}

/// A loot-table entry of a creature.
pub struct CreatureLootRaw {
    pub id: String,
    pub carry_chance: u8,
    pub drop_chance: u8,
    pub equip_as_weapon: bool,
}

/// A creature entry of the data file.
pub struct CreatureDefRaw {
    pub id: String,
    pub name: String,
    pub faction: String,
    pub glyph: String,
    pub color: u8,
    pub hp: i32,
    pub attack: i32,
    pub defense: i32,
    pub agility: i32,
    pub spawn_weight: Option<u32>,
    pub loot: Vec<CreatureLootRaw>,
}

/// The whole data file.
pub struct GameDataRaw {
    pub tiles: Vec<TileDefRaw>,
    pub items: Vec<ItemDefRaw>,
    pub recipes: Vec<RecipeDefRaw>,
    pub creatures: Vec<CreatureDefRaw>,
    /// The rows of the forge-scroll ritual pattern, when the file gives one.
    pub forge_pattern: Option<Vec<String>>,
}

// ---------------------------------------------------------------------------
// Checked definitions
// ---------------------------------------------------------------------------

/// How a tile looks and what harvesting it yields.
pub struct TileDef {
    pub tile: Tile,
    pub glyph: char,
    pub color: u8,
    pub shadow_color: u8,
    pub walkable: bool,
    pub legend: String,
    pub harvest_hits: Option<u8>,
    pub harvest_drop: Option<Item>,
    pub harvest_drop_chance: u8,
    pub harvest_replace: Option<Tile>,
    pub harvest_label: Option<String>,
}

/// How an item is named and drawn.
pub struct ItemDef {
    /// The id the data file gives the item.
    pub id: String,
    pub item: Item,
    pub name: String,
    pub glyph: char,
    pub color: u8,
    pub status: String,
    pub description: String,
}

/// A crafting recipe over a three-by-three grid, row by row.
pub struct RecipeDef {
    pub result: Item,
    pub label: String,
    pub inputs: Vec<Option<Item>>,
}

/// A creature kind.
pub struct CreatureDef {
    pub id: String,
    pub name: String,
    pub faction: Faction,
    pub glyph: char,
    pub color: u8,
    pub hp: i32,
    pub attack: i32,
    pub defense: i32,
    pub agility: i32,
    pub spawn_weight: u32,
    pub loot: Vec<LootDef>,
}

/// Every definition of the data file, entries in file order.
pub struct GameDefs {
    pub tiles: Vec<TileDef>,
    pub items: Vec<ItemDef>,
    pub recipes: Vec<RecipeDef>,
    pub creatures: Vec<CreatureDef>,
    pub forge_scroll_pattern: Vec<(i32, i32, Item)>,
}

/// Which list a glyph error was found in.
#[derive(Clone, Copy, Debug, PartialEq, Eq, Structural)]
pub enum DefKind {
    Tile,
    Item,
    Creature,
}

/// Why the data file is refused; positions count entries of their list from
/// zero.
#[derive(Clone, Copy, Debug, PartialEq, Eq, Structural)]
pub enum DefsError {
    /// An item entry whose id names no item.
    UnknownItem { item: usize },
    /// An entry whose glyph is empty.
    EmptyGlyph { kind: DefKind, entry: usize },
    /// An entry whose glyph has more than one character.
    LongGlyph { kind: DefKind, entry: usize },
    /// A tile entry whose id names no tile.
    UnknownTile { tile: usize },
    /// A tile entry whose harvest drop names no item.
    UnknownHarvestDrop { tile: usize },
    /// A tile entry whose harvest replacement names no tile.
    UnknownHarvestReplace { tile: usize },
    /// A recipe without exactly nine grid cells.
    RecipeInputCount { recipe: usize },
    /// A recipe cell that is neither blank nor an item.
    UnknownRecipeInput { recipe: usize, input: usize },
    /// A recipe whose result names no item.
    UnknownRecipeResult { recipe: usize },
    /// A creature whose faction is not `ally`, `hostile` or `neutral`.
    UnknownFaction { creature: usize },
    /// A loot entry that names no item.
    UnknownLootItem { creature: usize, loot: usize },
    /// A loot entry whose carry chance is over 100.
    CarryChance { creature: usize, loot: usize },
    /// A loot entry whose drop chance is over 100.
    DropChance { creature: usize, loot: usize },
    /// A loot entry marked as a weapon whose item is none.
    LootNotWeapon { creature: usize, loot: usize },
    /// No creature has the id `player`.
    MissingPlayer,
    /// The forge-scroll pattern is malformed.
    ForgePattern(ForgePatternError),
}

// ---------------------------------------------------------------------------
// What the check finds
// ---------------------------------------------------------------------------

/// The first error among entries `0..n`, `f` giving each entry's own.
pub open spec fn first_error(n: nat, f: spec_fn(int) -> Option<DefsError>) -> Option<DefsError>
    decreases n,
{
    if n == 0 {
        None
    } else {
        match first_error((n - 1) as nat, f) {
            Some(e) => Some(e),
            None => f(n - 1),
        }
    }
}

/// The glyph error of entry `entry` of list `kind`, if any.
pub open spec fn glyph_error(kind: DefKind, entry: int, glyph: Seq<char>) -> Option<DefsError> {
    if glyph.len() == 0 {
        Some(DefsError::EmptyGlyph { kind, entry: entry as usize })
    } else if glyph.len() > 1 {
        Some(DefsError::LongGlyph { kind, entry: entry as usize })
    } else {
        None
    }
}

/// The error of item entry `i`, if any.
pub open spec fn item_entry_error(items: Seq<ItemDefRaw>, i: int) -> Option<DefsError> {
    if Item::from_key_spec(items[i].id@) is None {
        Some(DefsError::UnknownItem { item: i as usize })
    } else {
        glyph_error(DefKind::Item, i, items[i].glyph@)
    }
}

/// The error of tile entry `i`, if any.
pub open spec fn tile_entry_error(tiles: Seq<TileDefRaw>, i: int) -> Option<DefsError> {
    let t = tiles[i];
    if Tile::from_key_spec(t.id@) is None {
        Some(DefsError::UnknownTile { tile: i as usize })
    } else if t.harvest_drop is Some && Item::from_key_spec(t.harvest_drop->0@) is None {
        Some(DefsError::UnknownHarvestDrop { tile: i as usize })
    } else if t.harvest_replace is Some && Tile::from_key_spec(t.harvest_replace->0@) is None {
        Some(DefsError::UnknownHarvestReplace { tile: i as usize })
    } else {
        glyph_error(DefKind::Tile, i, t.glyph@)
    }
}

/// The item a recipe cell names: `None` for a blank cell.
pub open spec fn recipe_cell(cell: Seq<char>) -> Option<Item> {
    if spec_trim(cell).len() == 0 {
        None
    } else {
        Item::from_key_spec(spec_trim(cell))
    }
}

/// Whether recipe cell `cell` is refused: not blank, and no item.
pub open spec fn recipe_cell_bad(cell: Seq<char>) -> bool {
    spec_trim(cell).len() != 0 && Item::from_key_spec(spec_trim(cell)) is None
}

/// The error of cell `j` of recipe `i`, if any.
pub open spec fn cell_error(i: int, inputs: Seq<String>, j: int) -> Option<DefsError> {
    if recipe_cell_bad(inputs[j]@) {
        Some(DefsError::UnknownRecipeInput { recipe: i as usize, input: j as usize })
    } else {
        None
    }
}

/// Cell errors of recipe `i`, by cell.
pub open spec fn cell_errors(i: int, inputs: Seq<String>) -> spec_fn(int) -> Option<DefsError> {
    |j: int| cell_error(i, inputs, j)
}

/// The error of recipe `i`, if any.
pub open spec fn recipe_entry_error(recipes: Seq<RecipeDefRaw>, i: int) -> Option<DefsError> {
    let r = recipes[i];
    if r.inputs@.len() != 9 {
        Some(DefsError::RecipeInputCount { recipe: i as usize })
    } else {
        match first_error(9, cell_errors(i, r.inputs@)) {
            Some(e) => Some(e),
            None => if Item::from_key_spec(r.result@) is None {
                Some(DefsError::UnknownRecipeResult { recipe: i as usize })
            } else {
                None
            },
        }
    }
}

/// The error of loot entry `j` of creature `i`, if any.
pub open spec fn loot_entry_error(i: int, loot: Seq<CreatureLootRaw>, j: int) -> Option<DefsError> {
    let l = loot[j];
    if Item::from_key_spec(l.id@) is None {
        Some(DefsError::UnknownLootItem { creature: i as usize, loot: j as usize })
    } else if l.carry_chance > 100 {
        Some(DefsError::CarryChance { creature: i as usize, loot: j as usize })
    } else if l.drop_chance > 100 {
        Some(DefsError::DropChance { creature: i as usize, loot: j as usize })
    } else if l.equip_as_weapon && !is_weapon_spec(Item::from_key_spec(l.id@)->0) {
        Some(DefsError::LootNotWeapon { creature: i as usize, loot: j as usize })
    } else {
        None
    }
}

/// Loot errors of creature `i`, by loot entry.
pub open spec fn loot_errors(i: int, loot: Seq<CreatureLootRaw>) -> spec_fn(int) -> Option<DefsError> {
    |j: int| loot_entry_error(i, loot, j)
}

/// Items a creature may wield.
pub open spec fn is_weapon_spec(item: Item) -> bool {
    item == Item::StoneAxe || item == Item::IronSword || item == Item::IronPickaxe
}

/// The error of creature entry `i`, if any.
pub open spec fn creature_entry_error(creatures: Seq<CreatureDefRaw>, i: int) -> Option<DefsError> {
    let c = creatures[i];
    if Faction::from_key_spec(c.faction@) is None {
        Some(DefsError::UnknownFaction { creature: i as usize })
    } else {
        match first_error(c.loot@.len(), loot_errors(i, c.loot@)) {
            Some(e) => Some(e),
            None => glyph_error(DefKind::Creature, i, c.glyph@),
        }
    }
}

/// Item entry errors, by entry.
pub open spec fn item_errors(items: Seq<ItemDefRaw>) -> spec_fn(int) -> Option<DefsError> {
    |i: int| item_entry_error(items, i)
}

/// Tile entry errors, by entry.
pub open spec fn tile_errors(tiles: Seq<TileDefRaw>) -> spec_fn(int) -> Option<DefsError> {
    |i: int| tile_entry_error(tiles, i)
}

/// Recipe errors, by recipe.
pub open spec fn recipe_errors(recipes: Seq<RecipeDefRaw>) -> spec_fn(int) -> Option<DefsError> {
    |i: int| recipe_entry_error(recipes, i)
}

/// Creature entry errors, by entry.
pub open spec fn creature_errors(creatures: Seq<CreatureDefRaw>) -> spec_fn(int) -> Option<DefsError> {
    |i: int| creature_entry_error(creatures, i)
}

/// Whether some creature has the id `player`.
pub open spec fn has_player(creatures: Seq<CreatureDefRaw>) -> bool {
    exists|i: int| 0 <= i < creatures.len() && #[trigger] creatures[i].id@ == "player"@
}

/// The rows of an optional pattern as characters.
pub open spec fn pattern_rows_view(p: Option<Vec<String>>) -> Option<Seq<Seq<char>>> {
    match p {
        Some(rows) => Some(rows_view(rows@)),
        None => None,
    }
}

/// The first error of the data file: items, then tiles, recipes and
/// creatures, each in file order; then a missing player; then the pattern.
pub open spec fn defs_error(raw: GameDataRaw) -> Option<DefsError> {
    let items = raw.items@;
    let tiles = raw.tiles@;
    let recipes = raw.recipes@;
    let creatures = raw.creatures@;
    match first_error(items.len(), item_errors(items)) {
        Some(e) => Some(e),
        None => match first_error(tiles.len(), tile_errors(tiles)) {
            Some(e) => Some(e),
            None => match first_error(recipes.len(), recipe_errors(recipes)) {
                Some(e) => Some(e),
                None => match first_error(creatures.len(), creature_errors(creatures)) {
                    Some(e) => Some(e),
                    None => if !has_player(creatures) {
                        Some(DefsError::MissingPlayer)
                    } else {
                        match pattern_rows_view(raw.forge_pattern) {
                            Some(rv) => match forge_pattern_error_spec(rv) {
                                Some(pe) => Some(DefsError::ForgePattern(pe)),
                                None => None,
                            },
                            None => None,
                        }
                    },
                },
            },
        },
    }
}

// ---------------------------------------------------------------------------
// What a checked entry becomes
// ---------------------------------------------------------------------------

/// An optional string as characters.
pub open spec fn opt_chars(o: Option<String>) -> Option<Seq<char>> {
    name_view(o)
}

/// `d` is item entry `r`, checked.
pub open spec fn item_def_matches(d: ItemDef, r: ItemDefRaw) -> bool {
    &&& d.id@ == r.id@
    &&& Item::from_key_spec(r.id@) == Some(d.item)
    &&& d.name@ == r.name@
    &&& d.glyph == r.glyph@[0]
    &&& d.color == r.color
    &&& d.status@ == r.status@
    &&& d.description@ == r.description@
}

/// `d` is tile entry `r`, checked: the shadow colour defaults to the colour,
/// the drop chance to 100.
pub open spec fn tile_def_matches(d: TileDef, r: TileDefRaw) -> bool {
    &&& Tile::from_key_spec(r.id@) == Some(d.tile)
    &&& d.glyph == r.glyph@[0]
    &&& d.color == r.color
    &&& d.shadow_color == (match r.shadow_color {
        Some(c) => c,
        None => r.color,
    })
    &&& d.walkable == r.walkable
    &&& d.legend@ == r.legend@
    &&& d.harvest_hits == r.harvest_hits
    &&& d.harvest_drop == (match r.harvest_drop {
        Some(k) => Item::from_key_spec(k@),
        None => None,
    })
    &&& d.harvest_drop_chance == (match r.harvest_drop_chance {
        Some(c) => c,
        None => 100u8,
    })
    &&& d.harvest_replace == (match r.harvest_replace {
        Some(k) => Tile::from_key_spec(k@),
        None => None,
    })
    &&& opt_chars(d.harvest_label) == opt_chars(r.harvest_label)
}

/// `d` is recipe `r`, checked: the label defaults to the result's key.
pub open spec fn recipe_def_matches(d: RecipeDef, r: RecipeDefRaw) -> bool {
    &&& Item::from_key_spec(r.result@) == Some(d.result)
    &&& d.label@ == (match r.label {
        Some(l) => l@,
        None => r.result@,
    })
    &&& d.inputs@.len() == 9
    &&& forall|j: int| 0 <= j < 9 ==> #[trigger] d.inputs@[j] == recipe_cell(r.inputs@[j]@)
}

/// `d` is loot entry `r`, checked.
pub open spec fn loot_def_matches(d: LootDef, r: CreatureLootRaw) -> bool {
    &&& Item::from_key_spec(r.id@) == Some(d.item)
    &&& d.carry_chance == r.carry_chance
    &&& d.drop_chance == r.drop_chance
    &&& d.equip_as_weapon == r.equip_as_weapon
}

/// `d` is creature entry `r`, checked: the spawn weight defaults to zero.
pub open spec fn creature_def_matches(d: CreatureDef, r: CreatureDefRaw) -> bool {
    &&& d.id@ == r.id@
    &&& d.name@ == r.name@
    &&& Faction::from_key_spec(r.faction@) == Some(d.faction)
    &&& d.glyph == r.glyph@[0]
    &&& d.color == r.color
    &&& d.hp == r.hp
    &&& d.attack == r.attack
    &&& d.defense == r.defense
    &&& d.agility == r.agility
    &&& d.spawn_weight == (match r.spawn_weight {
        Some(w) => w,
        None => 0u32,
    })
    &&& d.loot@.len() == r.loot@.len()
    &&& forall|j: int| 0 <= j < r.loot@.len() ==> #[trigger] loot_def_matches(d.loot@[j], r.loot@[j])
}

/// The forge-scroll pattern a data file yields once accepted.
pub open spec fn pattern_of(p: Option<Vec<String>>) -> Seq<(i32, i32, Item)> {
    match p {
        Some(rows) => pattern_cells(rows_view(rows@), 9),
        None => default_forge_pattern_spec(),
    }
}

/// `d` holds every entry of `raw`, checked, in file order.
pub open spec fn defs_built(d: GameDefs, raw: GameDataRaw) -> bool {
    &&& d.items@.len() == raw.items@.len()
    &&& forall|i: int| 0 <= i < raw.items@.len() ==> #[trigger] item_def_matches(d.items@[i], raw.items@[i])
    &&& d.tiles@.len() == raw.tiles@.len()
    &&& forall|i: int| 0 <= i < raw.tiles@.len() ==> #[trigger] tile_def_matches(d.tiles@[i], raw.tiles@[i])
    &&& d.recipes@.len() == raw.recipes@.len()
    &&& forall|i: int| 0 <= i < raw.recipes@.len() ==> #[trigger] recipe_def_matches(d.recipes@[i], raw.recipes@[i])
    &&& d.creatures@.len() == raw.creatures@.len()
    &&& forall|i: int| 0 <= i < raw.creatures@.len() ==> #[trigger] creature_def_matches(d.creatures@[i], raw.creatures@[i])
    &&& d.forge_scroll_pattern@ == pattern_of(raw.forge_pattern)
}

// ---------------------------------------------------------------------------
// The check, entry by entry
// ---------------------------------------------------------------------------

/// Once a prefix has an error, every longer prefix has the same first error.
proof fn lemma_first_error_stable(m: nat, n: nat, f: spec_fn(int) -> Option<DefsError>)
    requires
        m <= n,
        first_error(m, f) is Some,
    ensures
        first_error(n, f) == first_error(m, f),
    decreases n,
{
    if n > m {
        lemma_first_error_stable(m, (n - 1) as nat, f);
    }
}

/// The glyph error of an entry, if any.
fn check_glyph(kind: DefKind, entry: usize, glyph: &str) -> (e: Option<DefsError>)
    ensures
        e == glyph_error(kind, entry as int, glyph@),
{
    let n = glyph.unicode_len();
    if n == 0 {
        Some(DefsError::EmptyGlyph { kind, entry })
    } else if n > 1 {
        Some(DefsError::LongGlyph { kind, entry })
    } else {
        None
    }
}

/// An optional string, copied.
fn clone_opt(o: &Option<String>) -> (r: Option<String>)
    ensures
        opt_chars(r) == opt_chars(*o),
{
    match o {
        Some(s) => Some(s.clone()),
        None => None,
    }
}

/// Checks and converts the item entries.
fn build_items(items: &Vec<ItemDefRaw>) -> (r: Result<Vec<ItemDef>, DefsError>)
    ensures
        match r {
            Ok(v) => first_error(items@.len(), item_errors(items@)) is None && v@.len() == items@.len()
                && forall|i: int| 0 <= i < items@.len() ==> #[trigger] item_def_matches(v@[i], items@[i]),
            Err(e) => first_error(items@.len(), item_errors(items@)) == Some(e),
        },
{
    let mut out: Vec<ItemDef> = Vec::new();
    let mut i: usize = 0;
    while i < items.len()
        invariant
            i <= items@.len(),
            first_error(i as nat, item_errors(items@)) is None,
            out@.len() == i,
            forall|k: int| 0 <= k < i ==> #[trigger] item_def_matches(out@[k], items@[k]),
        decreases items.len() - i,
    {
        let r = &items[i];
        let item = Item::from_key(r.id.as_str());
        let e = match item {
            None => Some(DefsError::UnknownItem { item: i }),
            Some(_) => check_glyph(DefKind::Item, i, r.glyph.as_str()),
        };
        assert(e == item_entry_error(items@, i as int));
        if e.is_some() {
            proof {
                lemma_first_error_stable((i + 1) as nat, items@.len(), item_errors(items@));
            }
            return Err(e.unwrap());
        }
        let kind = match item {
            Some(k) => k,
            None => Item::Stone,
        };
        out.push(ItemDef {
            id: r.id.clone(),
            item: kind,
            name: r.name.clone(),
            glyph: parse_single_char(r.glyph.as_str()),
            color: r.color,
            status: r.status.clone(),
            description: r.description.clone(),
        });
        i = i + 1;
    }
    Ok(out)
}

/// Checks and converts the tile entries.
fn build_tiles(tiles: &Vec<TileDefRaw>) -> (r: Result<Vec<TileDef>, DefsError>)
    ensures
        match r {
            Ok(v) => first_error(tiles@.len(), tile_errors(tiles@)) is None && v@.len() == tiles@.len()
                && forall|i: int| 0 <= i < tiles@.len() ==> #[trigger] tile_def_matches(v@[i], tiles@[i]),
            Err(e) => first_error(tiles@.len(), tile_errors(tiles@)) == Some(e),
        },
{
    let mut out: Vec<TileDef> = Vec::new();
    let mut i: usize = 0;
    while i < tiles.len()
        invariant
            i <= tiles@.len(),
            first_error(i as nat, tile_errors(tiles@)) is None,
            out@.len() == i,
            forall|k: int| 0 <= k < i ==> #[trigger] tile_def_matches(out@[k], tiles@[k]),
        decreases tiles.len() - i,
    {
        let r = &tiles[i];
        let tile = Tile::from_key(r.id.as_str());
        let drop = match &r.harvest_drop {
            Some(k) => Item::from_key(k.as_str()),
            None => None,
        };
        let replace = match &r.harvest_replace {
            Some(k) => Tile::from_key(k.as_str()),
            None => None,
        };
        let e = if tile.is_none() {
            Some(DefsError::UnknownTile { tile: i })
        } else if r.harvest_drop.is_some() && drop.is_none() {
            Some(DefsError::UnknownHarvestDrop { tile: i })
        } else if r.harvest_replace.is_some() && replace.is_none() {
            Some(DefsError::UnknownHarvestReplace { tile: i })
        } else {
            check_glyph(DefKind::Tile, i, r.glyph.as_str())
        };
        assert(e == tile_entry_error(tiles@, i as int));
        if e.is_some() {
            proof {
                lemma_first_error_stable((i + 1) as nat, tiles@.len(), tile_errors(tiles@));
            }
            return Err(e.unwrap());
        }
        let t = match tile {
            Some(t) => t,
            None => Tile::Wall,
        };
        out.push(TileDef {
            tile: t,
            glyph: parse_single_char(r.glyph.as_str()),
            color: r.color,
            shadow_color: match r.shadow_color {
                Some(c) => c,
                None => r.color,
            },
            walkable: r.walkable,
            legend: r.legend.clone(),
            harvest_hits: r.harvest_hits,
            harvest_drop: drop,
            harvest_drop_chance: match r.harvest_drop_chance {
                Some(c) => c,
                None => 100,
            },
            harvest_replace: replace,
            harvest_label: clone_opt(&r.harvest_label),
        });
        i = i + 1;
    }
    Ok(out)
}

/// The item a recipe cell names, and whether the cell is refused.
fn recipe_cell_at(cell: &str) -> (r: (Option<Item>, bool))
    ensures
        r.0 == recipe_cell(cell@),
        r.1 == recipe_cell_bad(cell@),
{
    let t = trim_string(cell);
    if t.as_str().unicode_len() == 0 {
        (None, false)
    } else {
        let k = Item::from_key(t.as_str());
        (k, k.is_none())
    }
}

/// Checks and converts the recipes.
fn build_recipes(recipes: &Vec<RecipeDefRaw>) -> (r: Result<Vec<RecipeDef>, DefsError>)
    ensures
        match r {
            Ok(v) => first_error(recipes@.len(), recipe_errors(recipes@)) is None && v@.len()
                == recipes@.len() && forall|i: int|
                0 <= i < recipes@.len() ==> #[trigger] recipe_def_matches(v@[i], recipes@[i]),
            Err(e) => first_error(recipes@.len(), recipe_errors(recipes@)) == Some(e),
        },
{
    let mut out: Vec<RecipeDef> = Vec::new();
    let mut i: usize = 0;
    while i < recipes.len()
        invariant
            i <= recipes@.len(),
            first_error(i as nat, recipe_errors(recipes@)) is None,
            out@.len() == i,
            forall|k: int| 0 <= k < i ==> #[trigger] recipe_def_matches(out@[k], recipes@[k]),
        decreases recipes.len() - i,
    {
        let r = &recipes[i];
        if r.inputs.len() != 9 {
            assert(recipe_entry_error(recipes@, i as int) == Some(
                DefsError::RecipeInputCount { recipe: i },
            ));
            proof {
                lemma_first_error_stable((i + 1) as nat, recipes@.len(), recipe_errors(recipes@));
            }
            return Err(DefsError::RecipeInputCount { recipe: i });
        }
        let ghost cells = cell_errors(i as int, r.inputs@);
        let mut inputs: Vec<Option<Item>> = Vec::new();
        let mut j: usize = 0;
        while j < 9
            invariant
                j <= 9,
                i < recipes@.len(),
                first_error(i as nat, recipe_errors(recipes@)) is None,
                r == recipes@[i as int],
                r.inputs@.len() == 9,
                cells == cell_errors(i as int, r.inputs@),
                first_error(j as nat, cells) is None,
                inputs@.len() == j,
                forall|k: int| 0 <= k < j ==> #[trigger] inputs@[k] == recipe_cell(r.inputs@[k]@),
            decreases 9 - j,
        {
            let (cell, bad) = recipe_cell_at(r.inputs[j].as_str());
            if bad {
                let e = DefsError::UnknownRecipeInput { recipe: i, input: j };
                assert(cell_error(i as int, r.inputs@, j as int) == Some(e));
                proof {
                    lemma_first_error_stable((j + 1) as nat, 9, cells);
                    assert(recipe_entry_error(recipes@, i as int) == Some(e));
                    lemma_first_error_stable((i + 1) as nat, recipes@.len(), recipe_errors(recipes@));
                }
                return Err(e);
            }
            inputs.push(cell);
            j = j + 1;
        }
        let result = Item::from_key(r.result.as_str());
        let res = match result {
            Some(k) => k,
            None => {
                assert(recipe_entry_error(recipes@, i as int) == Some(
                    DefsError::UnknownRecipeResult { recipe: i },
                ));
                proof {
                    lemma_first_error_stable((i + 1) as nat, recipes@.len(), recipe_errors(recipes@));
                }
                return Err(DefsError::UnknownRecipeResult { recipe: i });
            },
        };
        assert(recipe_entry_error(recipes@, i as int) is None);
        let label = match &r.label {
            Some(l) => l.clone(),
            None => r.result.clone(),
        };
        out.push(RecipeDef { result: res, label, inputs });
        i = i + 1;
    }
    Ok(out)
}

/// Checks and converts the loot table of creature `ci`.
fn build_loot(ci: usize, loot: &Vec<CreatureLootRaw>) -> (r: Result<Vec<LootDef>, DefsError>)
    ensures
        match r {
            Ok(v) => first_error(loot@.len(), loot_errors(ci as int, loot@)) is None && v@.len()
                == loot@.len() && forall|j: int|
                0 <= j < loot@.len() ==> #[trigger] loot_def_matches(v@[j], loot@[j]),
            Err(e) => first_error(loot@.len(), loot_errors(ci as int, loot@)) == Some(e),
        },
{
    let mut out: Vec<LootDef> = Vec::new();
    let mut j: usize = 0;
    while j < loot.len()
        invariant
            j <= loot@.len(),
            first_error(j as nat, loot_errors(ci as int, loot@)) is None,
            out@.len() == j,
            forall|k: int| 0 <= k < j ==> #[trigger] loot_def_matches(out@[k], loot@[k]),
        decreases loot.len() - j,
    {
        let l = &loot[j];
        let e = match Item::from_key(l.id.as_str()) {
            None => Some(DefsError::UnknownLootItem { creature: ci, loot: j }),
            Some(item) => if l.carry_chance > 100 {
                Some(DefsError::CarryChance { creature: ci, loot: j })
            } else if l.drop_chance > 100 {
                Some(DefsError::DropChance { creature: ci, loot: j })
            } else if l.equip_as_weapon && !is_weapon_item(item) {
                Some(DefsError::LootNotWeapon { creature: ci, loot: j })
            } else {
                out.push(
                    LootDef {
                        item,
                        carry_chance: l.carry_chance,
                        drop_chance: l.drop_chance,
                        equip_as_weapon: l.equip_as_weapon,
                    },
                );
                None
            },
        };
        assert(e == loot_entry_error(ci as int, loot@, j as int));
        if e.is_some() {
            proof {
                lemma_first_error_stable((j + 1) as nat, loot@.len(), loot_errors(ci as int, loot@));
            }
            return Err(e.unwrap());
        }
        j = j + 1;
    }
    Ok(out)
}

/// Checks and converts the creature entries.
fn build_creatures(creatures: &Vec<CreatureDefRaw>) -> (r: Result<Vec<CreatureDef>, DefsError>)
    ensures
        match r {
            Ok(v) => first_error(creatures@.len(), creature_errors(creatures@)) is None
                && v@.len() == creatures@.len() && forall|i: int|
                0 <= i < creatures@.len() ==> #[trigger] creature_def_matches(v@[i], creatures@[i]),
            Err(e) => first_error(creatures@.len(), creature_errors(creatures@)) == Some(e),
        },
{
    let mut out: Vec<CreatureDef> = Vec::new();
    let mut i: usize = 0;
    while i < creatures.len()
        invariant
            i <= creatures@.len(),
            first_error(i as nat, creature_errors(creatures@)) is None,
            out@.len() == i,
            forall|k: int| 0 <= k < i ==> #[trigger] creature_def_matches(out@[k], creatures@[k]),
        decreases creatures.len() - i,
    {
        let c = &creatures[i];
        let faction = match Faction::from_key(c.faction.as_str()) {
            Some(f) => f,
            None => {
                assert(creature_entry_error(creatures@, i as int) == Some(
                    DefsError::UnknownFaction { creature: i },
                ));
                proof {
                    lemma_first_error_stable((i + 1) as nat, creatures@.len(), creature_errors(creatures@));
                }
                return Err(DefsError::UnknownFaction { creature: i });
            },
        };
        let loot = match build_loot(i, &c.loot) {
            Ok(v) => v,
            Err(e) => {
                assert(creature_entry_error(creatures@, i as int) == Some(e));
                proof {
                    lemma_first_error_stable((i + 1) as nat, creatures@.len(), creature_errors(creatures@));
                }
                return Err(e);
            },
        };
        let g = check_glyph(DefKind::Creature, i, c.glyph.as_str());
        assert(g == creature_entry_error(creatures@, i as int));
        if g.is_some() {
            proof {
                lemma_first_error_stable((i + 1) as nat, creatures@.len(), creature_errors(creatures@));
            }
            return Err(g.unwrap());
        }
        out.push(CreatureDef {
            id: c.id.clone(),
            name: c.name.clone(),
            faction,
            glyph: parse_single_char(c.glyph.as_str()),
            color: c.color,
            hp: c.hp,
            attack: c.attack,
            defense: c.defense,
            agility: c.agility,
            spawn_weight: match c.spawn_weight {
                Some(w) => w,
                None => 0,
            },
            loot,
        });
        i = i + 1;
    }
    Ok(out)
}

/// Whether some creature entry has the id `player`.
fn check_has_player(creatures: &Vec<CreatureDefRaw>) -> (b: bool)
    ensures
        b == has_player(creatures@),
{
    let mut i: usize = 0;
    while i < creatures.len()
        invariant
            i <= creatures@.len(),
            forall|k: int| 0 <= k < i ==> #[trigger] creatures@[k].id@ != "player"@,
        decreases creatures.len() - i,
    {
        if str_eq(creatures[i].id.as_str(), "player") {
            return true;
        }
        i = i + 1;
    }
    false
}

/// Checks the data file and builds its definitions; gives the first error,
/// in the order items, tiles, recipes, creatures, the player's entry, the
/// ritual pattern, when there is one.
pub fn build_defs(raw: &GameDataRaw) -> (r: Result<GameDefs, DefsError>)
    ensures
        match r {
            Ok(d) => defs_error(*raw) is None && defs_built(d, *raw),
            Err(e) => defs_error(*raw) == Some(e),
        },
{
    let items = build_items(&raw.items)?;
    let tiles = build_tiles(&raw.tiles)?;
    let recipes = build_recipes(&raw.recipes)?;
    let creatures = build_creatures(&raw.creatures)?;
    if !check_has_player(&raw.creatures) {
        return Err(DefsError::MissingPlayer);
    }
    let pattern = match &raw.forge_pattern {
        Some(rows) => match forge_pattern_error(rows) {
            Some(pe) => {
                return Err(DefsError::ForgePattern(pe));
            },
            None => parse_forge_scroll_pattern(Some(rows)),
        },
        None => parse_forge_scroll_pattern(None),
    };
    Ok(GameDefs { tiles, items, recipes, creatures, forge_scroll_pattern: pattern })
}

// ---------------------------------------------------------------------------
// Looking definitions up
// ---------------------------------------------------------------------------

/// The definition of `tile`: the last entry for it, as a later entry of the
/// file replaces an earlier one.
pub fn tile_meta(defs: &GameDefs, tile: Tile) -> (r: Option<&TileDef>)
    ensures
        match r {
            Some(d) => exists|i: int|
                0 <= i < defs.tiles@.len() && #[trigger] defs.tiles@[i] == *d && d.tile == tile
                    && forall|j: int| i < j < defs.tiles@.len() ==> #[trigger] defs.tiles@[j].tile != tile,
            None => forall|j: int| 0 <= j < defs.tiles@.len() ==> #[trigger] defs.tiles@[j].tile != tile,
        },
{
    let mut i: usize = defs.tiles.len();
    while i > 0
        invariant
            i <= defs.tiles@.len(),
            forall|j: int| i <= j < defs.tiles@.len() ==> #[trigger] defs.tiles@[j].tile != tile,
        decreases i,
    {
        i = i - 1;
        if defs.tiles[i].tile == tile {
            return Some(&defs.tiles[i]);
        }
    }
    None
}

/// The definition of `item`: the last entry for it.
pub fn item_meta(defs: &GameDefs, item: Item) -> (r: Option<&ItemDef>)
    ensures
        match r {
            Some(d) => exists|i: int|
                0 <= i < defs.items@.len() && #[trigger] defs.items@[i] == *d && d.item == item
                    && forall|j: int| i < j < defs.items@.len() ==> #[trigger] defs.items@[j].item != item,
            None => forall|j: int| 0 <= j < defs.items@.len() ==> #[trigger] defs.items@[j].item != item,
        },
{
    let mut i: usize = defs.items.len();
    while i > 0
        invariant
            i <= defs.items@.len(),
            forall|j: int| i <= j < defs.items@.len() ==> #[trigger] defs.items@[j].item != item,
        decreases i,
    {
        i = i - 1;
        if defs.items[i].item == item {
            return Some(&defs.items[i]);
        }
    }
    None
}

/// The definition of the creature `id`: the last entry with that id.
pub fn creature_meta<'a>(defs: &'a GameDefs, id: &str) -> (r: Option<&'a CreatureDef>)
    ensures
        match r {
            Some(d) => exists|i: int|
                0 <= i < defs.creatures@.len() && #[trigger] defs.creatures@[i] == *d && d.id@ == id@
                    && forall|j: int| i < j < defs.creatures@.len() ==> #[trigger] defs.creatures@[j].id@ != id@,
            None => forall|j: int| 0 <= j < defs.creatures@.len() ==> #[trigger] defs.creatures@[j].id@ != id@,
        },
{
    let mut i: usize = defs.creatures.len();
    while i > 0
        invariant
            i <= defs.creatures@.len(),
            forall|j: int| i <= j < defs.creatures@.len() ==> #[trigger] defs.creatures@[j].id@ != id@,
        decreases i,
    {
        i = i - 1;
        if str_eq(defs.creatures[i].id.as_str(), id) {
            return Some(&defs.creatures[i]);
        }
    }
    None
}

// ---------------------------------------------------------------------------
// Crafting
// ---------------------------------------------------------------------------

/// Whether two grids hold the same items cell by cell.
fn same_grid(a: &Vec<Option<Item>>, b: &Vec<Option<Item>>) -> (r: bool)
    ensures
        r == (a@ == b@),
{
    if a.len() != b.len() {
        return false;
    }
    let mut k: usize = 0;
    while k < a.len()
        invariant
            a@.len() == b@.len(),
            k <= a@.len(),
            forall|j: int| 0 <= j < k ==> a@[j] == b@[j],
        decreases a.len() - k,
    {
        if a[k] != b[k] {
            return false;
        }
        k = k + 1;
    }
    assert(a@ =~= b@);
    true
}

/// The first recipe whose grid is `grid`, the item kinds in the crafting
/// cells row by row.
pub fn find_recipe(defs: &GameDefs, grid: &Vec<Option<Item>>) -> (r: Option<usize>)
    ensures
        match r {
            Some(i) => i < defs.recipes@.len() && defs.recipes@[i as int].inputs@ == grid@
                && forall|j: int| 0 <= j < i ==> #[trigger] defs.recipes@[j].inputs@ != grid@,
            None => forall|j: int| 0 <= j < defs.recipes@.len() ==> #[trigger] defs.recipes@[j].inputs@ != grid@,
        },
{
    let mut i: usize = 0;
    while i < defs.recipes.len()
        invariant
            i <= defs.recipes@.len(),
            forall|j: int| 0 <= j < i ==> #[trigger] defs.recipes@[j].inputs@ != grid@,
        decreases defs.recipes.len() - i,
    {
        if same_grid(&defs.recipes[i].inputs, grid) {
            return Some(i);
        }
        i = i + 1;
    }
    None
}

/// The crafting-grid cursor after a step of `(dx, dy)`, kept on the
/// three-by-three grid.
pub fn move_cursor_3x3(cursor: usize, dx: i32, dy: i32) -> (c: usize)
    requires
        cursor < 9,
    ensures
        c == clamp3(cursor as int / 3 + dy) * 3 + clamp3(cursor as int % 3 + dx),
{
    let x = (cursor % 3) as i32;
    let y = (cursor / 3) as i32;
    let nx = clamp_i32(x as i64 + dx as i64);
    let ny = clamp_i32(y as i64 + dy as i64);
    (ny * 3 + nx) as usize
}

/// `v` kept within `0..=2`.
pub open spec fn clamp3(v: int) -> int {
    if v < 0 {
        0
    } else if v > 2 {
        2
    } else {
        v
    }
}

fn clamp_i32(v: i64) -> (r: i32)
    ensures
        r == clamp3(v as int),
{
    if v < 0 {
        0
    } else if v > 2 {
        2
    } else {
        v as i32
    }
}

/// The item kinds in the crafting cells.
pub open spec fn grid_kinds(grid: Seq<Option<InventoryItem>>) -> Seq<Option<Item>> {
    grid.map_values(|c: Option<InventoryItem>| match c {
        Some(it) => Some(it.kind),
        None => None,
    })
}

/// Recipe `i` is the first whose grid is `kinds`.
pub open spec fn first_recipe(defs: GameDefs, kinds: Seq<Option<Item>>, i: int) -> bool {
    &&& 0 <= i < defs.recipes@.len()
    &&& defs.recipes@[i].inputs@ == kinds
    &&& forall|j: int| 0 <= j < i ==> #[trigger] defs.recipes@[j].inputs@ != kinds
}

/// No recipe has the grid `kinds`.
pub open spec fn no_recipe(defs: GameDefs, kinds: Seq<Option<Item>>) -> bool {
    forall|j: int| 0 <= j < defs.recipes@.len() ==> #[trigger] defs.recipes@[j].inputs@ != kinds
}

/// What crafting did.
#[derive(Clone, Copy, Debug, PartialEq, Eq, Structural)]
pub enum CraftOutcome {
    /// No recipe matches the grid; nothing changed.
    NoRecipe,
    /// Recipe `recipe` was made; its result went into the bag.
    Crafted { recipe: usize },
    /// Recipe `recipe` was made; the bag had no room, so the world places
    /// the result on the ground near the player, or it is lost.
    CraftedNoRoom { recipe: usize },
}

/// Crafting with the nine cells of `grid`: when a recipe matches the
/// cells' item kinds, the cells are used up and the first matching
/// recipe's result goes into the bag if it fits.
pub fn execute_crafting(
    defs: &GameDefs,
    grid: &mut Vec<Option<InventoryItem>>,
    bag: &mut Inventory,
    next_entity_id: &mut u64,
) -> (r: CraftOutcome)
    ensures
        match r {
            CraftOutcome::NoRecipe => no_recipe(*defs, grid_kinds(old(grid)@)) && *final(grid) == *old(grid)
                && *final(bag) == *old(bag) && *final(next_entity_id) == *old(next_entity_id),
            CraftOutcome::Crafted { recipe } | CraftOutcome::CraftedNoRoom { recipe } => {
                let result = defs.recipes@[recipe as int].result;
                let s = add_item_spec(old(bag).items@, new_stack(0, result, 1), *old(next_entity_id));
                &&& first_recipe(*defs, grid_kinds(old(grid)@), recipe as int)
                &&& final(grid)@.len() == old(grid)@.len()
                &&& forall|k: int| 0 <= k < final(grid)@.len() ==> #[trigger] final(grid)@[k] is None
                &&& final(bag).items@ == s.0
                &&& *final(next_entity_id) == s.1
                &&& final(bag).equipped_sword == old(bag).equipped_sword
                &&& final(bag).equipped_shield == old(bag).equipped_shield
                &&& final(bag).equipped_accessory == old(bag).equipped_accessory
                &&& (r is Crafted <==> s.2)
            },
        },
{
    let mut kinds: Vec<Option<Item>> = Vec::new();
    let mut k: usize = 0;
    while k < grid.len()
        invariant
            k <= grid@.len(),
            kinds@ == grid_kinds(grid@).subrange(0, k as int),
        decreases grid@.len() - k,
    {
        let kind = match &grid[k] {
            Some(it) => Some(it.kind),
            None => None,
        };
        kinds.push(kind);
        assert(kinds@ =~= grid_kinds(grid@).subrange(0, k + 1));
        k = k + 1;
    }
    assert(kinds@ =~= grid_kinds(grid@));
    let recipe = match find_recipe(defs, &kinds) {
        Some(i) => i,
        None => {
            return CraftOutcome::NoRecipe;
        },
    };
    let result = defs.recipes[recipe].result;
    let n = grid.len();
    let mut j: usize = 0;
    while j < n
        invariant
            j <= n,
            grid@.len() == n,
            forall|m: int| 0 <= m < j ==> #[trigger] grid@[m] is None,
        decreases n - j,
    {
        grid.set(j, None);
        j = j + 1;
    }
    if bag.add_item_kind_to_inventory(result, next_entity_id) {
        CraftOutcome::Crafted { recipe }
    } else {
        CraftOutcome::CraftedNoRoom { recipe }
    }
}

/// What putting a bag item into a crafting cell did.
pub enum GridPlacement {
    /// The selection is on no bag entry; nothing changed.
    NothingSelected,
    /// One unit of the selected entry went into the cell; `displaced` is what
    /// the cell held before, which goes back to the bag or the ground.
    Placed { displaced: Option<InventoryItem> },
}

/// Puts one unit of bag entry `*selected` into crafting cell `cursor`, then
/// keeps the selection on the bag (last entry, or zero when it is empty).
pub fn place_into_grid(
    grid: &mut Vec<Option<InventoryItem>>,
    cursor: usize,
    bag: &mut Inventory,
    selected: &mut usize,
) -> (r: GridPlacement)
    requires
        cursor < old(grid)@.len(),
    ensures
        *old(selected) >= old(bag).items@.len() ==> r is NothingSelected && *final(grid) == *old(grid)
            && *final(bag) == *old(bag) && *final(selected) == *old(selected),
        *old(selected) < old(bag).items@.len() ==> {
            let t = crate::inventory::take_one_spec(old(bag).items@, *old(selected) as int);
            &&& r == GridPlacement::Placed { displaced: old(grid)@[cursor as int] }
            &&& final(grid)@ == old(grid)@.update(cursor as int, Some(t.1))
            &&& final(bag).items@ == t.0
            &&& *final(selected) == (if t.0.len() == 0 {
                0
            } else if *old(selected) >= t.0.len() {
                (t.0.len() - 1) as usize
            } else {
                *old(selected)
            })
        },
{
    let picked = match bag.take_inventory_one(*selected) {
        Some(p) => p,
        None => {
            return GridPlacement::NothingSelected;
        },
    };
    let prev = grid[cursor].clone();
    grid.set(cursor, Some(picked));
    let len = bag.items.len();
    if len == 0 {
        *selected = 0;
    } else if *selected >= len {
        *selected = len - 1;
    }
    GridPlacement::Placed { displaced: prev }
}

} // verus!
