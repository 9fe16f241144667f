//! Kinds of tiles, items, facings and structures, with their data keys.
use vstd::prelude::*;

use crate::strings::str_eq;

verus! {

/// A few characters that tell the data keys of one kind apart: the length,
/// the first two characters and the last but one.
pub open spec fn key_fingerprint(s: Seq<char>) -> (int, char, char, char) {
    (s.len() as int, s[0], s[1], s[s.len() - 2])
}

/// A terrain tile.
#[derive(Clone, Copy, Debug, PartialEq, Eq, Structural)]
pub enum Tile {
    Abyss, DeepWater, Forest, Grass,
    Mountain, Rock, Sand, ShallowWater,
    StairsDown, Wall,
}
impl Tile {
    /// The data key of this tile.
    pub open spec fn key_spec(self) -> Seq<char> {
        match self {
            Tile::Abyss => "abyss"@,
            Tile::DeepWater => "deep_water"@,
            Tile::Forest => "forest"@,
            Tile::Grass => "grass"@,
            Tile::Mountain => "mountain"@,
            Tile::Rock => "rock"@,
            Tile::Sand => "sand"@,
            Tile::ShallowWater => "shallow_water"@,
            Tile::StairsDown => "stairs_down"@,
            Tile::Wall => "wall"@,
        }
    }

    /// The data key of this tile.
    pub fn key(self) -> (k: &'static str)
        ensures
            k@ == self.key_spec(),
    {
        match self {
            Tile::Abyss => "abyss",
            Tile::DeepWater => "deep_water",
            Tile::Forest => "forest",
            Tile::Grass => "grass",
            Tile::Mountain => "mountain",
            Tile::Rock => "rock",
            Tile::Sand => "sand",
            Tile::ShallowWater => "shallow_water",
            Tile::StairsDown => "stairs_down",
            Tile::Wall => "wall",
        }
    }

    /// The tile whose data key is `k`, if any.
    pub open spec fn from_key_spec(k: Seq<char>) -> Option<Self> {
        if k == Tile::Abyss.key_spec() {
            Some(Tile::Abyss)
        } else if k == Tile::DeepWater.key_spec() {
            Some(Tile::DeepWater)
        } else if k == Tile::ShallowWater.key_spec() {
            Some(Tile::ShallowWater)
        } else if k == Tile::Sand.key_spec() {
            Some(Tile::Sand)
        } else if k == Tile::Grass.key_spec() {
            Some(Tile::Grass)
        } else if k == Tile::Forest.key_spec() {
            Some(Tile::Forest)
        } else if k == Tile::Mountain.key_spec() {
            Some(Tile::Mountain)
        } else if k == Tile::Rock.key_spec() {
            Some(Tile::Rock)
        } else if k == Tile::Wall.key_spec() {
            Some(Tile::Wall)
        } else if k == Tile::StairsDown.key_spec() {
            Some(Tile::StairsDown)
        } else {
            None
        }
    }

    /// The tile whose data key is `key`, if any.
    pub fn from_key(key: &str) -> (r: Option<Self>)
        ensures
            r == Self::from_key_spec(key@),
    {
        if str_eq(key, Tile::Abyss.key()) {
            Some(Tile::Abyss)
        } else if str_eq(key, Tile::DeepWater.key()) {
            Some(Tile::DeepWater)
        } else if str_eq(key, Tile::ShallowWater.key()) {
            Some(Tile::ShallowWater)
        } else if str_eq(key, Tile::Sand.key()) {
            Some(Tile::Sand)
        } else if str_eq(key, Tile::Grass.key()) {
            Some(Tile::Grass)
        } else if str_eq(key, Tile::Forest.key()) {
            Some(Tile::Forest)
        } else if str_eq(key, Tile::Mountain.key()) {
            Some(Tile::Mountain)
        } else if str_eq(key, Tile::Rock.key()) {
            Some(Tile::Rock)
        } else if str_eq(key, Tile::Wall.key()) {
            Some(Tile::Wall)
        } else if str_eq(key, Tile::StairsDown.key()) {
            Some(Tile::StairsDown)
        } else {
            None
        }
    }
}
impl Tile {
    /// The fingerprint of this tile's key (see `key_fingerprint`).
    pub open spec fn fingerprint_spec(self) -> (int, char, char, char) {
        match self {
            Tile::Abyss => (5, 'a', 'b', 's'),
            Tile::DeepWater => (10, 'd', 'e', 'e'),
            Tile::ShallowWater => (13, 's', 'h', 'e'),
            Tile::Sand => (4, 's', 'a', 'n'),
            Tile::Grass => (5, 'g', 'r', 's'),
            Tile::Forest => (6, 'f', 'o', 's'),
            Tile::Mountain => (8, 'm', 'o', 'i'),
            Tile::Rock => (4, 'r', 'o', 'c'),
            Tile::Wall => (4, 'w', 'a', 'l'),
            Tile::StairsDown => (11, 's', 't', 'w'),
        }
    }
}

proof fn lemma_tile_fingerprint(x: Tile)
    ensures
        key_fingerprint(x.key_spec()) == x.fingerprint_spec(),
{
    match x {
        Tile::Abyss => reveal_strlit("abyss"),
        Tile::DeepWater => reveal_strlit("deep_water"),
        Tile::ShallowWater => reveal_strlit("shallow_water"),
        Tile::Sand => reveal_strlit("sand"),
        Tile::Grass => reveal_strlit("grass"),
        Tile::Forest => reveal_strlit("forest"),
        Tile::Mountain => reveal_strlit("mountain"),
        Tile::Rock => reveal_strlit("rock"),
        Tile::Wall => reveal_strlit("wall"),
        Tile::StairsDown => reveal_strlit("stairs_down"),
    }
}

/// Law: reading back the key of a tile gives that tile; a key that
/// names a tile is that tile's key.
pub proof fn lemma_tile_key_roundtrip(x: Tile, k: Seq<char>)
    ensures
        Tile::from_key_spec(x.key_spec()) == Some(x),
        Tile::from_key_spec(k) == Some(x) ==> k == x.key_spec(),
{
    assert forall|y: Tile| #[trigger] y.key_spec() == x.key_spec() implies y == x by {
        lemma_tile_fingerprint(x);
        lemma_tile_fingerprint(y);
    }
}
/// An item kind.
#[derive(Clone, Copy, Debug, PartialEq, Eq, Structural)]
pub enum Item {
    BindScroll, BlinkScroll, Bread, Elixir,
    EmberScroll, FerrumOccasus, FlameScroll, Food,
    ForgeScroll, GladiusNadir, Herb, Hide,
    IronIngot, IronPickaxe, IronSword, LuckyCharm,
    NovaScroll, Potion, PulseBomb, QuartzMemoryArchive,
    QuartzMemoryCathedral, QuartzMemoryChoir, QuartzMemoryDimension, QuartzMemoryExtraction,
    QuartzMemoryHalo, QuartzMemoryInterface, QuartzMemoryKnowledge, QuartzMemoryLife,
    QuartzMemoryLung, QuartzMemoryOssuary, QuartzMemoryWitness, RepulseScroll,
    Stone, StoneAxe, StringFiber, Torch,
    VirgaMeridies, VirgaOriens, VirgaZenith, Wood,
    WoodenShield,
}
impl Item {
    /// The data key of this item.
    pub open spec fn key_spec(self) -> Seq<char> {
        match self {
            Item::BindScroll => "bind_scroll"@,
            Item::BlinkScroll => "blink_scroll"@,
            Item::Bread => "bread"@,
            Item::Elixir => "elixir"@,
            Item::EmberScroll => "ember_scroll"@,
            Item::FerrumOccasus => "ferrum_occasus"@,
            Item::FlameScroll => "flame_scroll"@,
            Item::ForgeScroll => "forge_scroll"@,
            Item::GladiusNadir => "gladius_nadir"@,
            Item::Herb => "herb"@,
            Item::Hide => "hide"@,
            Item::IronIngot => "iron_ingot"@,
            Item::IronPickaxe => "iron_pickaxe"@,
            Item::IronSword => "iron_sword"@,
            Item::Food => "jerky"@,
            Item::LuckyCharm => "lucky_charm"@,
            Item::NovaScroll => "nova_scroll"@,
            Item::Potion => "potion"@,
            Item::PulseBomb => "pulse_bomb"@,
            Item::QuartzMemoryArchive => "quartz_memory_archive"@,
            Item::QuartzMemoryCathedral => "quartz_memory_cathedral"@,
            Item::QuartzMemoryChoir => "quartz_memory_choir"@,
            Item::QuartzMemoryDimension => "quartz_memory_dimension"@,
            Item::QuartzMemoryExtraction => "quartz_memory_extraction"@,
            Item::QuartzMemoryHalo => "quartz_memory_halo"@,
            Item::QuartzMemoryInterface => "quartz_memory_interface"@,
            Item::QuartzMemoryKnowledge => "quartz_memory_knowledge"@,
            Item::QuartzMemoryLife => "quartz_memory_life"@,
            Item::QuartzMemoryLung => "quartz_memory_lung"@,
            Item::QuartzMemoryOssuary => "quartz_memory_ossuary"@,
            Item::QuartzMemoryWitness => "quartz_memory_witness"@,
            Item::RepulseScroll => "repulse_scroll"@,
            Item::Stone => "stone"@,
            Item::StoneAxe => "stone_axe"@,
            Item::StringFiber => "string"@,
            Item::Torch => "torch"@,
            Item::VirgaMeridies => "virga_meridies"@,
            Item::VirgaOriens => "virga_oriens"@,
            Item::VirgaZenith => "virga_zenith"@,
            Item::Wood => "wood"@,
            Item::WoodenShield => "wooden_shield"@,
        }
    }

    /// The data key of this item.
    pub fn key(self) -> (k: &'static str)
        ensures
            k@ == self.key_spec(),
    {
        match self {
            Item::BindScroll => "bind_scroll",
            Item::BlinkScroll => "blink_scroll",
            Item::Bread => "bread",
            Item::Elixir => "elixir",
            Item::EmberScroll => "ember_scroll",
            Item::FerrumOccasus => "ferrum_occasus",
            Item::FlameScroll => "flame_scroll",
            Item::ForgeScroll => "forge_scroll",
            Item::GladiusNadir => "gladius_nadir",
            Item::Herb => "herb",
            Item::Hide => "hide",
            Item::IronIngot => "iron_ingot",
            Item::IronPickaxe => "iron_pickaxe",
            Item::IronSword => "iron_sword",
            Item::Food => "jerky",
            Item::LuckyCharm => "lucky_charm",
            Item::NovaScroll => "nova_scroll",
            Item::Potion => "potion",
            Item::PulseBomb => "pulse_bomb",
            Item::QuartzMemoryArchive => "quartz_memory_archive",
            Item::QuartzMemoryCathedral => "quartz_memory_cathedral",
            Item::QuartzMemoryChoir => "quartz_memory_choir",
            Item::QuartzMemoryDimension => "quartz_memory_dimension",
            Item::QuartzMemoryExtraction => "quartz_memory_extraction",
            Item::QuartzMemoryHalo => "quartz_memory_halo",
            Item::QuartzMemoryInterface => "quartz_memory_interface",
            Item::QuartzMemoryKnowledge => "quartz_memory_knowledge",
            Item::QuartzMemoryLife => "quartz_memory_life",
            Item::QuartzMemoryLung => "quartz_memory_lung",
            Item::QuartzMemoryOssuary => "quartz_memory_ossuary",
            Item::QuartzMemoryWitness => "quartz_memory_witness",
            Item::RepulseScroll => "repulse_scroll",
            Item::Stone => "stone",
            Item::StoneAxe => "stone_axe",
            Item::StringFiber => "string",
            Item::Torch => "torch",
            Item::VirgaMeridies => "virga_meridies",
            Item::VirgaOriens => "virga_oriens",
            Item::VirgaZenith => "virga_zenith",
            Item::Wood => "wood",
            Item::WoodenShield => "wooden_shield",
        }
    }

    /// The item whose data key is `k`, if any (older aliases included).
    pub open spec fn from_key_spec(k: Seq<char>) -> Option<Self> {
        if k == Item::Potion.key_spec() {
            Some(Item::Potion)
        } else if k == Item::Herb.key_spec() {
            Some(Item::Herb)
        } else if k == Item::Elixir.key_spec() {
            Some(Item::Elixir)
        } else if k == Item::Food.key_spec() {
            Some(Item::Food)
        } else if k == Item::Bread.key_spec() {
            Some(Item::Bread)
        } else if k == Item::Torch.key_spec() {
            Some(Item::Torch)
        } else if k == Item::FlameScroll.key_spec() {
            Some(Item::FlameScroll)
        } else if k == Item::EmberScroll.key_spec() {
            Some(Item::EmberScroll)
        } else if k == Item::BlinkScroll.key_spec() {
            Some(Item::BlinkScroll)
        } else if k == Item::BindScroll.key_spec() {
            Some(Item::BindScroll)
        } else if k == Item::RepulseScroll.key_spec() {
            Some(Item::RepulseScroll)
        } else if k == Item::NovaScroll.key_spec() {
            Some(Item::NovaScroll)
        } else if k == Item::PulseBomb.key_spec() {
            Some(Item::PulseBomb)
        } else if k == Item::ForgeScroll.key_spec() {
            Some(Item::ForgeScroll)
        } else if k == Item::GladiusNadir.key_spec() {
            Some(Item::GladiusNadir)
        } else if k == Item::FerrumOccasus.key_spec() {
            Some(Item::FerrumOccasus)
        } else if k == Item::VirgaOriens.key_spec() {
            Some(Item::VirgaOriens)
        } else if k == Item::VirgaMeridies.key_spec() {
            Some(Item::VirgaMeridies)
        } else if k == Item::VirgaZenith.key_spec() {
            Some(Item::VirgaZenith)
        } else if k == Item::Wood.key_spec() {
            Some(Item::Wood)
        } else if k == Item::Stone.key_spec() {
            Some(Item::Stone)
        } else if k == Item::IronIngot.key_spec() {
            Some(Item::IronIngot)
        } else if k == Item::Hide.key_spec() {
            Some(Item::Hide)
        } else if k == Item::StringFiber.key_spec() {
            Some(Item::StringFiber)
        } else if k == Item::StoneAxe.key_spec() {
            Some(Item::StoneAxe)
        } else if k == Item::IronSword.key_spec() {
            Some(Item::IronSword)
        } else if k == Item::IronPickaxe.key_spec() {
            Some(Item::IronPickaxe)
        } else if k == Item::WoodenShield.key_spec() {
            Some(Item::WoodenShield)
        } else if k == Item::LuckyCharm.key_spec() {
            Some(Item::LuckyCharm)
        } else if k == Item::QuartzMemoryKnowledge.key_spec() {
            Some(Item::QuartzMemoryKnowledge)
        } else if k == Item::QuartzMemoryLife.key_spec() {
            Some(Item::QuartzMemoryLife)
        } else if k == Item::QuartzMemoryDimension.key_spec() {
            Some(Item::QuartzMemoryDimension)
        } else if k == Item::QuartzMemoryInterface.key_spec() {
            Some(Item::QuartzMemoryInterface)
        } else if k == Item::QuartzMemoryExtraction.key_spec() {
            Some(Item::QuartzMemoryExtraction)
        } else if k == Item::QuartzMemoryArchive.key_spec() {
            Some(Item::QuartzMemoryArchive)
        } else if k == Item::QuartzMemoryCathedral.key_spec() {
            Some(Item::QuartzMemoryCathedral)
        } else if k == Item::QuartzMemoryHalo.key_spec() {
            Some(Item::QuartzMemoryHalo)
        } else if k == Item::QuartzMemoryLung.key_spec() {
            Some(Item::QuartzMemoryLung)
        } else if k == Item::QuartzMemoryOssuary.key_spec() {
            Some(Item::QuartzMemoryOssuary)
        } else if k == Item::QuartzMemoryChoir.key_spec() {
            Some(Item::QuartzMemoryChoir)
        } else if k == Item::QuartzMemoryWitness.key_spec() {
            Some(Item::QuartzMemoryWitness)
        } else if k == "food"@ {
            Some(Item::Food)
        } else {
            None
        }
    }

    /// The item whose data key is `key`, if any.
    pub fn from_key(key: &str) -> (r: Option<Self>)
        ensures
            r == Self::from_key_spec(key@),
    {
        if str_eq(key, Item::Potion.key()) {
            Some(Item::Potion)
        } else if str_eq(key, Item::Herb.key()) {
            Some(Item::Herb)
        } else if str_eq(key, Item::Elixir.key()) {
            Some(Item::Elixir)
        } else if str_eq(key, Item::Food.key()) {
            Some(Item::Food)
        } else if str_eq(key, Item::Bread.key()) {
            Some(Item::Bread)
        } else if str_eq(key, Item::Torch.key()) {
            Some(Item::Torch)
        } else if str_eq(key, Item::FlameScroll.key()) {
            Some(Item::FlameScroll)
        } else if str_eq(key, Item::EmberScroll.key()) {
            Some(Item::EmberScroll)
        } else if str_eq(key, Item::BlinkScroll.key()) {
            Some(Item::BlinkScroll)
        } else if str_eq(key, Item::BindScroll.key()) {
            Some(Item::BindScroll)
        } else if str_eq(key, Item::RepulseScroll.key()) {
            Some(Item::RepulseScroll)
        } else if str_eq(key, Item::NovaScroll.key()) {
            Some(Item::NovaScroll)
        } else if str_eq(key, Item::PulseBomb.key()) {
            Some(Item::PulseBomb)
        } else if str_eq(key, Item::ForgeScroll.key()) {
            Some(Item::ForgeScroll)
        } else if str_eq(key, Item::GladiusNadir.key()) {
            Some(Item::GladiusNadir)
        } else if str_eq(key, Item::FerrumOccasus.key()) {
            Some(Item::FerrumOccasus)
        } else if str_eq(key, Item::VirgaOriens.key()) {
            Some(Item::VirgaOriens)
        } else if str_eq(key, Item::VirgaMeridies.key()) {
            Some(Item::VirgaMeridies)
        } else if str_eq(key, Item::VirgaZenith.key()) {
            Some(Item::VirgaZenith)
        } else if str_eq(key, Item::Wood.key()) {
            Some(Item::Wood)
        } else if str_eq(key, Item::Stone.key()) {
            Some(Item::Stone)
        } else if str_eq(key, Item::IronIngot.key()) {
            Some(Item::IronIngot)
        } else if str_eq(key, Item::Hide.key()) {
            Some(Item::Hide)
        } else if str_eq(key, Item::StringFiber.key()) {
            Some(Item::StringFiber)
        } else if str_eq(key, Item::StoneAxe.key()) {
            Some(Item::StoneAxe)
        } else if str_eq(key, Item::IronSword.key()) {
            Some(Item::IronSword)
        } else if str_eq(key, Item::IronPickaxe.key()) {
            Some(Item::IronPickaxe)
        } else if str_eq(key, Item::WoodenShield.key()) {
            Some(Item::WoodenShield)
        } else if str_eq(key, Item::LuckyCharm.key()) {
            Some(Item::LuckyCharm)
        } else if str_eq(key, Item::QuartzMemoryKnowledge.key()) {
            Some(Item::QuartzMemoryKnowledge)
        } else if str_eq(key, Item::QuartzMemoryLife.key()) {
            Some(Item::QuartzMemoryLife)
        } else if str_eq(key, Item::QuartzMemoryDimension.key()) {
            Some(Item::QuartzMemoryDimension)
        } else if str_eq(key, Item::QuartzMemoryInterface.key()) {
            Some(Item::QuartzMemoryInterface)
        } else if str_eq(key, Item::QuartzMemoryExtraction.key()) {
            Some(Item::QuartzMemoryExtraction)
        } else if str_eq(key, Item::QuartzMemoryArchive.key()) {
            Some(Item::QuartzMemoryArchive)
        } else if str_eq(key, Item::QuartzMemoryCathedral.key()) {
            Some(Item::QuartzMemoryCathedral)
        } else if str_eq(key, Item::QuartzMemoryHalo.key()) {
            Some(Item::QuartzMemoryHalo)
        } else if str_eq(key, Item::QuartzMemoryLung.key()) {
            Some(Item::QuartzMemoryLung)
        } else if str_eq(key, Item::QuartzMemoryOssuary.key()) {
            Some(Item::QuartzMemoryOssuary)
        } else if str_eq(key, Item::QuartzMemoryChoir.key()) {
            Some(Item::QuartzMemoryChoir)
        } else if str_eq(key, Item::QuartzMemoryWitness.key()) {
            Some(Item::QuartzMemoryWitness)
        } else if str_eq(key, "food") {
            Some(Item::Food)
        } else {
            None
        }
    }
}
impl Item {
    /// The fingerprint of this item's key (see `key_fingerprint`).
    pub open spec fn fingerprint_spec(self) -> (int, char, char, char) {
        match self {
            Item::Potion => (6, 'p', 'o', 'o'),
            Item::Herb => (4, 'h', 'e', 'r'),
            Item::Elixir => (6, 'e', 'l', 'i'),
            Item::Food => (5, 'j', 'e', 'k'),
            Item::Bread => (5, 'b', 'r', 'a'),
            Item::Torch => (5, 't', 'o', 'c'),
            Item::FlameScroll => (12, 'f', 'l', 'l'),
            Item::EmberScroll => (12, 'e', 'm', 'l'),
            Item::BlinkScroll => (12, 'b', 'l', 'l'),
            Item::BindScroll => (11, 'b', 'i', 'l'),
            Item::RepulseScroll => (14, 'r', 'e', 'l'),
            Item::NovaScroll => (11, 'n', 'o', 'l'),
            Item::PulseBomb => (10, 'p', 'u', 'm'),
            Item::ForgeScroll => (12, 'f', 'o', 'l'),
            Item::GladiusNadir => (13, 'g', 'l', 'i'),
            Item::FerrumOccasus => (14, 'f', 'e', 'u'),
            Item::VirgaOriens => (12, 'v', 'i', 'n'),
            Item::VirgaMeridies => (14, 'v', 'i', 'e'),
            Item::VirgaZenith => (12, 'v', 'i', 't'),
            Item::Wood => (4, 'w', 'o', 'o'),
            Item::Stone => (5, 's', 't', 'n'),
            Item::IronIngot => (10, 'i', 'r', 'o'),
            Item::Hide => (4, 'h', 'i', 'd'),
            Item::StringFiber => (6, 's', 't', 'n'),
            Item::StoneAxe => (9, 's', 't', 'x'),
            Item::IronSword => (10, 'i', 'r', 'r'),
            Item::IronPickaxe => (12, 'i', 'r', 'x'),
            Item::WoodenShield => (13, 'w', 'o', 'l'),
            Item::LuckyCharm => (11, 'l', 'u', 'r'),
            Item::QuartzMemoryKnowledge => (23, 'q', 'u', 'g'),
            Item::QuartzMemoryLife => (18, 'q', 'u', 'f'),
            Item::QuartzMemoryDimension => (23, 'q', 'u', 'o'),
            Item::QuartzMemoryInterface => (23, 'q', 'u', 'c'),
            Item::QuartzMemoryExtraction => (24, 'q', 'u', 'o'),
            Item::QuartzMemoryArchive => (21, 'q', 'u', 'v'),
            Item::QuartzMemoryCathedral => (23, 'q', 'u', 'a'),
            Item::QuartzMemoryHalo => (18, 'q', 'u', 'l'),
            Item::QuartzMemoryLung => (18, 'q', 'u', 'n'),
            Item::QuartzMemoryOssuary => (21, 'q', 'u', 'r'),
            Item::QuartzMemoryChoir => (19, 'q', 'u', 'i'),
            Item::QuartzMemoryWitness => (21, 'q', 'u', 's'),
        }
    }
}

proof fn lemma_item_fingerprint(x: Item)
    ensures
        key_fingerprint(x.key_spec()) == x.fingerprint_spec(),
{
    match x {
        Item::Potion => reveal_strlit("potion"),
        Item::Herb => reveal_strlit("herb"),
        Item::Elixir => reveal_strlit("elixir"),
        Item::Food => reveal_strlit("jerky"),
        Item::Bread => reveal_strlit("bread"),
        Item::Torch => reveal_strlit("torch"),
        Item::FlameScroll => reveal_strlit("flame_scroll"),
        Item::EmberScroll => reveal_strlit("ember_scroll"),
        Item::BlinkScroll => reveal_strlit("blink_scroll"),
        Item::BindScroll => reveal_strlit("bind_scroll"),
        Item::RepulseScroll => reveal_strlit("repulse_scroll"),
        Item::NovaScroll => reveal_strlit("nova_scroll"),
        Item::PulseBomb => reveal_strlit("pulse_bomb"),
        Item::ForgeScroll => reveal_strlit("forge_scroll"),
        Item::GladiusNadir => reveal_strlit("gladius_nadir"),
        Item::FerrumOccasus => reveal_strlit("ferrum_occasus"),
        Item::VirgaOriens => reveal_strlit("virga_oriens"),
        Item::VirgaMeridies => reveal_strlit("virga_meridies"),
        Item::VirgaZenith => reveal_strlit("virga_zenith"),
        Item::Wood => reveal_strlit("wood"),
        Item::Stone => reveal_strlit("stone"),
        Item::IronIngot => reveal_strlit("iron_ingot"),
        Item::Hide => reveal_strlit("hide"),
        Item::StringFiber => reveal_strlit("string"),
        Item::StoneAxe => reveal_strlit("stone_axe"),
        Item::IronSword => reveal_strlit("iron_sword"),
        Item::IronPickaxe => reveal_strlit("iron_pickaxe"),
        Item::WoodenShield => reveal_strlit("wooden_shield"),
        Item::LuckyCharm => reveal_strlit("lucky_charm"),
        Item::QuartzMemoryKnowledge => reveal_strlit("quartz_memory_knowledge"),
        Item::QuartzMemoryLife => reveal_strlit("quartz_memory_life"),
        Item::QuartzMemoryDimension => reveal_strlit("quartz_memory_dimension"),
        Item::QuartzMemoryInterface => reveal_strlit("quartz_memory_interface"),
        Item::QuartzMemoryExtraction => reveal_strlit("quartz_memory_extraction"),
        Item::QuartzMemoryArchive => reveal_strlit("quartz_memory_archive"),
        Item::QuartzMemoryCathedral => reveal_strlit("quartz_memory_cathedral"),
        Item::QuartzMemoryHalo => reveal_strlit("quartz_memory_halo"),
        Item::QuartzMemoryLung => reveal_strlit("quartz_memory_lung"),
        Item::QuartzMemoryOssuary => reveal_strlit("quartz_memory_ossuary"),
        Item::QuartzMemoryChoir => reveal_strlit("quartz_memory_choir"),
        Item::QuartzMemoryWitness => reveal_strlit("quartz_memory_witness"),
    }
}

/// Law: reading back the key of a item gives that item; a key that
/// names a item is that item's key or one of its older aliases.
pub proof fn lemma_item_key_roundtrip(x: Item, k: Seq<char>)
    ensures
        Item::from_key_spec(x.key_spec()) == Some(x),
        Item::from_key_spec(k) == Some(x) ==> k == x.key_spec() || (k == "food"@ && x == Item::Food),
{
    assert forall|y: Item| #[trigger] y.key_spec() == x.key_spec() implies y == x by {
        lemma_item_fingerprint(x);
        lemma_item_fingerprint(y);
    }
}
/// A structure standing on a tile.
#[derive(Clone, Copy, Debug, PartialEq, Eq, Structural)]
pub enum StructureKind {
    Altar, BoneRack, CablePylon, SubstoryCore,
    TempleCore, Terminal, VendingMachine,
}
impl StructureKind {
    /// The data key of this structure.
    pub open spec fn key_spec(self) -> Seq<char> {
        match self {
            StructureKind::Altar => "altar"@,
            StructureKind::BoneRack => "bone_rack"@,
            StructureKind::CablePylon => "cable_pylon"@,
            StructureKind::SubstoryCore => "substory_core"@,
            StructureKind::TempleCore => "temple_core"@,
            StructureKind::Terminal => "terminal"@,
            StructureKind::VendingMachine => "vending_machine"@,
        }
    }

    /// The data key of this structure.
    pub fn key(self) -> (k: &'static str)
        ensures
            k@ == self.key_spec(),
    {
        match self {
            StructureKind::Altar => "altar",
            StructureKind::BoneRack => "bone_rack",
            StructureKind::CablePylon => "cable_pylon",
            StructureKind::SubstoryCore => "substory_core",
            StructureKind::TempleCore => "temple_core",
            StructureKind::Terminal => "terminal",
            StructureKind::VendingMachine => "vending_machine",
        }
    }

    /// The structure whose data key is `k`, if any.
    pub open spec fn from_key_spec(k: Seq<char>) -> Option<Self> {
        if k == StructureKind::Altar.key_spec() {
            Some(StructureKind::Altar)
        } else if k == StructureKind::TempleCore.key_spec() {
            Some(StructureKind::TempleCore)
        } else if k == StructureKind::SubstoryCore.key_spec() {
            Some(StructureKind::SubstoryCore)
        } else if k == StructureKind::Terminal.key_spec() {
            Some(StructureKind::Terminal)
        } else if k == StructureKind::VendingMachine.key_spec() {
            Some(StructureKind::VendingMachine)
        } else if k == StructureKind::BoneRack.key_spec() {
            Some(StructureKind::BoneRack)
        } else if k == StructureKind::CablePylon.key_spec() {
            Some(StructureKind::CablePylon)
        } else {
            None
        }
    }

    /// The structure whose data key is `key`, if any.
    pub fn from_key(key: &str) -> (r: Option<Self>)
        ensures
            r == Self::from_key_spec(key@),
    {
        if str_eq(key, StructureKind::Altar.key()) {
            Some(StructureKind::Altar)
        } else if str_eq(key, StructureKind::TempleCore.key()) {
            Some(StructureKind::TempleCore)
        } else if str_eq(key, StructureKind::SubstoryCore.key()) {
            Some(StructureKind::SubstoryCore)
        } else if str_eq(key, StructureKind::Terminal.key()) {
            Some(StructureKind::Terminal)
        } else if str_eq(key, StructureKind::VendingMachine.key()) {
            Some(StructureKind::VendingMachine)
        } else if str_eq(key, StructureKind::BoneRack.key()) {
            Some(StructureKind::BoneRack)
        } else if str_eq(key, StructureKind::CablePylon.key()) {
            Some(StructureKind::CablePylon)
        } else {
            None
        }
    }
}
impl StructureKind {
    /// The fingerprint of this structure's key (see `key_fingerprint`).
    pub open spec fn fingerprint_spec(self) -> (int, char, char, char) {
        match self {
            StructureKind::Altar => (5, 'a', 'l', 'a'),
            StructureKind::TempleCore => (11, 't', 'e', 'r'),
            StructureKind::SubstoryCore => (13, 's', 'u', 'r'),
            StructureKind::Terminal => (8, 't', 'e', 'a'),
            StructureKind::VendingMachine => (15, 'v', 'e', 'n'),
            StructureKind::BoneRack => (9, 'b', 'o', 'c'),
            StructureKind::CablePylon => (11, 'c', 'a', 'o'),
        }
    }
}

proof fn lemma_structure_fingerprint(x: StructureKind)
    ensures
        key_fingerprint(x.key_spec()) == x.fingerprint_spec(),
{
    match x {
        StructureKind::Altar => reveal_strlit("altar"),
        StructureKind::TempleCore => reveal_strlit("temple_core"),
        StructureKind::SubstoryCore => reveal_strlit("substory_core"),
        StructureKind::Terminal => reveal_strlit("terminal"),
        StructureKind::VendingMachine => reveal_strlit("vending_machine"),
        StructureKind::BoneRack => reveal_strlit("bone_rack"),
        StructureKind::CablePylon => reveal_strlit("cable_pylon"),
    }
}

/// Law: reading back the key of a structure gives that structure; a key that
/// names a structure is that structure's key.
pub proof fn lemma_structure_key_roundtrip(x: StructureKind, k: Seq<char>)
    ensures
        StructureKind::from_key_spec(x.key_spec()) == Some(x),
        StructureKind::from_key_spec(k) == Some(x) ==> k == x.key_spec(),
{
    assert forall|y: StructureKind| #[trigger] y.key_spec() == x.key_spec() implies y == x by {
        lemma_structure_fingerprint(x);
        lemma_structure_fingerprint(y);
    }
}
impl StructureKind {
    /// The map glyph of this structure.
    pub fn glyph(self) -> (c: char)
        ensures
            c == match self {
                StructureKind::Altar => '+',
                StructureKind::TempleCore => '&',
                StructureKind::SubstoryCore => '%',
                StructureKind::Terminal => 'T',
                StructureKind::VendingMachine => 'V',
                StructureKind::BoneRack => 'H',
                StructureKind::CablePylon => 'I',
            },
    {
        match self {
            StructureKind::Altar => '+',
            StructureKind::TempleCore => '&',
            StructureKind::SubstoryCore => '%',
            StructureKind::Terminal => 'T',
            StructureKind::VendingMachine => 'V',
            StructureKind::BoneRack => 'H',
            StructureKind::CablePylon => 'I',
        }
    }

    /// The text key of the message shown when inspecting this structure.
    pub open spec fn popup_key_spec(self) -> Seq<char> {
        match self {
            StructureKind::Altar => "structure.message.altar"@,
            StructureKind::TempleCore => "structure.message.temple_core"@,
            StructureKind::SubstoryCore => "structure.message.substory_core"@,
            StructureKind::Terminal => "structure.message.terminal"@,
            StructureKind::VendingMachine => "structure.message.vending_machine"@,
            StructureKind::BoneRack => "structure.message.bone_rack"@,
            StructureKind::CablePylon => "structure.message.cable_pylon"@,
        }
    }

    /// The text key of the message shown when inspecting this structure.
    pub fn popup_key(self) -> (k: &'static str)
        ensures
            k@ == self.popup_key_spec(),
    {
        match self {
            StructureKind::Altar => "structure.message.altar",
            StructureKind::TempleCore => "structure.message.temple_core",
            StructureKind::SubstoryCore => "structure.message.substory_core",
            StructureKind::Terminal => "structure.message.terminal",
            StructureKind::VendingMachine => "structure.message.vending_machine",
            StructureKind::BoneRack => "structure.message.bone_rack",
            StructureKind::CablePylon => "structure.message.cable_pylon",
        }
    }

    /// Ancient charge needed to awaken this structure (zero: it cannot be awakened).
    pub fn ancient_activation_cost(self) -> (c: u8)
        ensures
            c == (if self == StructureKind::TempleCore {
                4u8
            } else if self == StructureKind::Altar {
                2u8
            } else {
                0u8
            }),
    {
        if self == StructureKind::TempleCore {
            4
        } else if self == StructureKind::Altar {
            2
        } else {
            0
        }
    }
}

/// One of the eight compass facings.
#[derive(Clone, Copy, Debug, PartialEq, Eq, Structural)]
pub enum Facing {
    N, NE, E, SE,
    S, SW, W, NW,
}

/// Sign of `v`: -1, 0 or 1.
pub open spec fn sign(v: int) -> int {
    if v < 0 {
        -1
    } else if v > 0 {
        1
    } else {
        0
    }
}

/// The facing at clockwise position `k` from north, for `0 <= k < 8`.
pub open spec fn facing_at(k: int) -> Facing {
    if k == 0 {
        Facing::N
    } else if k == 1 {
        Facing::NE
    } else if k == 2 {
        Facing::E
    } else if k == 3 {
        Facing::SE
    } else if k == 4 {
        Facing::S
    } else if k == 5 {
        Facing::SW
    } else if k == 6 {
        Facing::W
    } else {
        Facing::NW
    }
}

impl Facing {
    /// Position of this facing going clockwise from north, in `0..8`.
    pub open spec fn index_spec(self) -> int {
        match self {
            Facing::N => 0,
            Facing::NE => 1,
            Facing::E => 2,
            Facing::SE => 3,
            Facing::S => 4,
            Facing::SW => 5,
            Facing::W => 6,
            Facing::NW => 7,
        }
    }

    /// Position of this facing going clockwise from north.
    pub fn index(self) -> (i: u8)
        ensures
            i == self.index_spec(),
            facing_at(i as int) == self,
    {
        match self {
            Facing::N => 0,
            Facing::NE => 1,
            Facing::E => 2,
            Facing::SE => 3,
            Facing::S => 4,
            Facing::SW => 5,
            Facing::W => 6,
            Facing::NW => 7,
        }
    }

    /// The facing at clockwise position `k % 8` from north.
    pub fn at(k: u8) -> (f: Facing)
        ensures
            f == facing_at(k as int % 8),
    {
        let m = k % 8;
        if m == 0 {
            Facing::N
        } else if m == 1 {
            Facing::NE
        } else if m == 2 {
            Facing::E
        } else if m == 3 {
            Facing::SE
        } else if m == 4 {
            Facing::S
        } else if m == 5 {
            Facing::SW
        } else if m == 6 {
            Facing::W
        } else {
            Facing::NW
        }
    }

    /// The unit step of this facing (y grows southwards): eastward from
    /// north-east to south-east, westward from south-west to north-west;
    /// northward from north-west to north-east, southward from south-east to
    /// south-west.
    pub open spec fn delta_spec(self) -> (i32, i32) {
        let i = self.index_spec();
        let dx: i32 = if i == 0 || i == 4 { 0i32 } else if i < 4 { 1i32 } else { -1i32 };
        let dy: i32 = if i == 2 || i == 6 { 0i32 } else if i < 2 || i == 7 { -1i32 } else { 1i32 };
        (dx, dy)
    }

    /// The unit step of this facing (y grows southwards).
    pub fn delta(self) -> (d: (i32, i32))
        ensures
            d == self.delta_spec(),
    {
        let i = self.index();
        let dx: i32 = if i == 0 || i == 4 {
            0
        } else if i < 4 {
            1
        } else {
            -1
        };
        let dy: i32 = if i == 2 || i == 6 {
            0
        } else if i < 2 || i == 7 {
            -1
        } else {
            1
        };
        (dx, dy)
    }

    /// The facing that points along the signs of `(dx, dy)`; none for `(0, 0)`.
    pub fn from_delta(dx: i32, dy: i32) -> (r: Option<Facing>)
        ensures
            (dx == 0 && dy == 0) <==> r is None,
            r matches Some(f) ==> f.delta_spec() == (sign(dx as int) as i32, sign(dy as int) as i32),
    {
        if dy < 0 {
            Some(
                if dx < 0 {
                    Facing::NW
                } else if dx == 0 {
                    Facing::N
                } else {
                    Facing::NE
                },
            )
        } else if dy == 0 {
            if dx < 0 {
                Some(Facing::W)
            } else if dx == 0 {
                None
            } else {
                Some(Facing::E)
            }
        } else {
            Some(
                if dx < 0 {
                    Facing::SW
                } else if dx == 0 {
                    Facing::S
                } else {
                    Facing::SE
                },
            )
        }
    }

    /// Number of 45-degree clockwise steps from east to this facing.
    pub open spec fn steps_spec(self) -> int {
        (self.index_spec() + 6) % 8
    }
}

/// Law: the step of a facing leads back to that facing.
pub proof fn lemma_facing_delta_roundtrip(f: Facing)
    ensures
        f.delta_spec().0 != 0 || f.delta_spec().1 != 0,
        sign(f.delta_spec().0 as int) == f.delta_spec().0,
        sign(f.delta_spec().1 as int) == f.delta_spec().1,
{
}

/// Number of 45-degree clockwise steps from east to `facing`.
pub fn facing_steps_45(facing: Facing) -> (s: i32)
    ensures
        s == facing.steps_spec(),
{
    ((facing.index() + 6) % 8) as i32
}

/// The facing one 45-degree step clockwise from `facing`.
pub open spec fn clockwise_spec(facing: Facing) -> Facing {
    facing_at((facing.index_spec() + 1) % 8)
}

/// The facing one 45-degree step clockwise from `facing`.
pub fn rotate_facing_clockwise(facing: Facing) -> (r: Facing)
    ensures
        r == clockwise_spec(facing),
        r.steps_spec() == (facing.steps_spec() + 1) % 8,
{
    Facing::at(facing.index() + 1)
}

/// `clockwise_spec` applied `n` times.
pub open spec fn clockwise_n(f: Facing, n: nat) -> Facing
    decreases n,
{
    if n == 0 {
        f
    } else {
        clockwise_n(clockwise_spec(f), (n - 1) as nat)
    }
}

proof fn lemma_clockwise_n_index(f: Facing, n: nat)
    ensures
        clockwise_n(f, n) == facing_at((f.index_spec() + n) % 8),
    decreases n,
{
    if n > 0 {
        lemma_clockwise_n_index(clockwise_spec(f), (n - 1) as nat);
        assert(clockwise_spec(f).index_spec() == (f.index_spec() + 1) % 8);
        assert(((f.index_spec() + 1) % 8 + (n - 1)) % 8 == (f.index_spec() + n) % 8);
    } else {
        assert(f.index_spec() % 8 == f.index_spec());
    }
}

/// Law: eight clockwise turns bring every facing back to itself, and no fewer do.
pub proof fn lemma_eight_turns_identity(f: Facing)
    ensures
        clockwise_n(f, 8) == f,
        forall|n: nat| 0 < n < 8 ==> #[trigger] clockwise_n(f, n) != f,
{
    lemma_clockwise_n_index(f, 8);
    assert((f.index_spec() + 8) % 8 == f.index_spec());
    assert forall|n: nat| 0 < n < 8 implies #[trigger] clockwise_n(f, n) != f by {
        lemma_clockwise_n_index(f, n);
        let k = (f.index_spec() + n) % 8;
        assert(k != f.index_spec());
        assert(facing_at(k).index_spec() == k);
    }
}

/// The facing named by `key` (`N`, `ne`, ...), if any.
pub open spec fn facing_key_spec(key: Seq<char>) -> Option<Facing> {
    if key == "N"@ || key == "n"@ {
        Some(Facing::N)
    } else if key == "NE"@ || key == "ne"@ {
        Some(Facing::NE)
    } else if key == "E"@ || key == "e"@ {
        Some(Facing::E)
    } else if key == "SE"@ || key == "se"@ {
        Some(Facing::SE)
    } else if key == "S"@ || key == "s"@ {
        Some(Facing::S)
    } else if key == "SW"@ || key == "sw"@ {
        Some(Facing::SW)
    } else if key == "W"@ || key == "w"@ {
        Some(Facing::W)
    } else if key == "NW"@ || key == "nw"@ {
        Some(Facing::NW)
    } else {
        None
    }
}

/// The facing named by `key` (`N`, `ne`, ...), if any.
pub fn parse_facing_key(key: &str) -> (r: Option<Facing>)
    ensures
        r == facing_key_spec(key@),
{
    if str_eq(key, "N") || str_eq(key, "n") {
        Some(Facing::N)
    } else if str_eq(key, "NE") || str_eq(key, "ne") {
        Some(Facing::NE)
    } else if str_eq(key, "E") || str_eq(key, "e") {
        Some(Facing::E)
    } else if str_eq(key, "SE") || str_eq(key, "se") {
        Some(Facing::SE)
    } else if str_eq(key, "S") || str_eq(key, "s") {
        Some(Facing::S)
    } else if str_eq(key, "SW") || str_eq(key, "sw") {
        Some(Facing::SW)
    } else if str_eq(key, "W") || str_eq(key, "w") {
        Some(Facing::W)
    } else if str_eq(key, "NW") || str_eq(key, "nw") {
        Some(Facing::NW)
    } else {
        None
    }
}

/// The arrow glyph `>` turned to point along `facing`; other glyphs unchanged.
pub fn oriented_tip_glyph(base_glyph: char, facing: Facing) -> (c: char)
    ensures
        base_glyph != '>' ==> c == base_glyph,
        base_glyph == '>' ==> c == (if facing.delta_spec().1 == 0 {
            if facing.delta_spec().0 > 0 { '>' } else { '<' }
        } else if facing.delta_spec().0 == 0 {
            if facing.delta_spec().1 < 0 { '^' } else { 'v' }
        } else if facing.delta_spec().0 != facing.delta_spec().1 {
            '/'
        } else {
            '\\'
        }),
{
    if base_glyph != '>' {
        return base_glyph;
    }
    let (dx, dy) = facing.delta();
    if dy == 0 {
        if dx > 0 {
            '>'
        } else {
            '<'
        }
    } else if dx == 0 {
        if dy < 0 {
            '^'
        } else {
            'v'
        }
    } else if dx != dy {
        '/'
    } else {
        '\\'
    }
}

/// Whether `tile` stops lines of sight.
pub fn tile_blocks_sight(tile: Tile) -> (b: bool)
    ensures
        b == (tile == Tile::Wall || tile == Tile::Rock || tile == Tile::Mountain || tile
            == Tile::Forest),
{
    match tile {
        Tile::Wall | Tile::Rock | Tile::Mountain | Tile::Forest => true,
        _ => false,
    }
}

} // verus!
