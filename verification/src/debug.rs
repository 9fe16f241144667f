//! The debug console: splitting a command line into words, reading numbers
//! as Rust's `str::parse` does, and deciding what a command asks for.
use vstd::prelude::*;

use crate::inventory::{Inventory, add_item_spec, new_stack};
use crate::items::{Item, StructureKind, Tile};
use crate::spawning::StoneTabletKind;
use crate::strings::{chars_eq_str, chars_of, lower_chars, spec_is_whitespace, spec_lower};

verus! {

// ---------------------------------------------------------------------------
// Words
// ---------------------------------------------------------------------------

/// Splitting by whitespace, one character at a time: the finished words and
/// the word being read.
pub open spec fn split_state(s: Seq<char>) -> (Seq<Seq<char>>, Seq<char>)
    decreases s.len(),
{
    if s.len() == 0 {
        (Seq::empty(), Seq::empty())
    } else {
        let prev = split_state(s.drop_last());
        let c = s.last();
        if spec_is_whitespace(c) {
            if prev.1.len() > 0 {
                (prev.0.push(prev.1), Seq::empty())
            } else {
                prev
            }
        } else {
            (prev.0, prev.1.push(c))
        }
    }
}

/// `str::split_whitespace`: the maximal runs of non-whitespace characters.
pub open spec fn words_spec(s: Seq<char>) -> Seq<Seq<char>> {
    let st = split_state(s);
    if st.1.len() > 0 {
        st.0.push(st.1)
    } else {
        st.0
    }
}

/// The words of `s`, as `str::split_whitespace` gives them.
pub fn split_words(s: &Vec<char>) -> (words: Vec<Vec<char>>)
    ensures
        words@.len() == words_spec(s@).len(),
        forall|i: int| 0 <= i < words@.len() ==> #[trigger] words@[i]@ == words_spec(s@)[i],
{
    let mut done: Vec<Vec<char>> = Vec::new();
    let mut cur: Vec<char> = Vec::new();
    let mut i: usize = 0;
    while i < s.len()
        invariant
            i <= s@.len(),
            done@.len() == split_state(s@.subrange(0, i as int)).0.len(),
            forall|k: int| 0 <= k < done@.len() ==> #[trigger] done@[k]@ == split_state(s@.subrange(0, i as int)).0[k],
            cur@ == split_state(s@.subrange(0, i as int)).1,
        decreases s@.len() - i,
    {
        assert(s@.subrange(0, i + 1).drop_last() =~= s@.subrange(0, i as int));
        let c = s[i];
        if crate::strings::is_whitespace_char(c) {
            if cur.len() > 0 {
                let w = cur;
                done.push(w);
                cur = Vec::new();
            }
        } else {
            cur.push(c);
        }
        i = i + 1;
    }
    assert(s@.subrange(0, s@.len() as int) =~= s@);
    if cur.len() > 0 {
        done.push(cur);
    }
    done
}

// ---------------------------------------------------------------------------
// Numbers
// ---------------------------------------------------------------------------

pub open spec fn is_digit(c: char) -> bool {
    '0' <= c <= '9'
}

pub open spec fn all_digits(s: Seq<char>) -> bool {
    forall|i: int| 0 <= i < s.len() ==> #[trigger] is_digit(s[i])
}

/// Value of a run of decimal digits.
pub open spec fn digits_value(s: Seq<char>) -> nat
    decreases s.len(),
{
    if s.len() == 0 {
        0
    } else {
        (digits_value(s.drop_last()) * 10 + (s.last() as int - 48)) as nat
    }
}

/// What an unsigned `str::parse` reads: an optional `+`, then at least one
/// digit and nothing else, worth at most `limit`.
pub open spec fn parse_unsigned_spec(s: Seq<char>, limit: nat) -> Option<nat> {
    let body = if s.len() > 0 && s[0] == '+' { s.subrange(1, s.len() as int) } else { s };
    if body.len() > 0 && all_digits(body) && digits_value(body) <= limit {
        Some(digits_value(body))
    } else {
        None
    }
}

/// What `i32`'s `str::parse` reads: an optional sign, then at least one digit
/// and nothing else, within the range of `i32`.
pub open spec fn parse_i32_spec(s: Seq<char>) -> Option<i32> {
    let neg = s.len() > 0 && s[0] == '-';
    let body = if s.len() > 0 && (s[0] == '+' || s[0] == '-') { s.subrange(1, s.len() as int) } else { s };
    if body.len() > 0 && all_digits(body) {
        if neg && digits_value(body) <= 2147483648 {
            Some((0 - digits_value(body)) as i32)
        } else if !neg && digits_value(body) <= 2147483647 {
            Some(digits_value(body) as i32)
        } else {
            None
        }
    } else {
        None
    }
}

proof fn lemma_digits_value_prefix(s: Seq<char>, i: int)
    requires
        0 <= i <= s.len(),
        all_digits(s),
    ensures
        digits_value(s.subrange(0, i)) <= digits_value(s),
    decreases s.len() - i,
{
    if i < s.len() {
        lemma_digits_value_prefix(s, i + 1);
        assert(s.subrange(0, i + 1).drop_last() =~= s.subrange(0, i));
        assert(is_digit(s[i]));
    } else {
        assert(s.subrange(0, i) =~= s);
    }
}

/// The value of a run of digits starting at `start`, or `None` when the run is
/// empty, holds a non-digit, or is worth more than `limit`.
fn digits_upto(s: &Vec<char>, start: usize, limit: u64) -> (r: Option<u64>)
    requires
        start <= s@.len(),
        limit <= 10_000_000_000,
    ensures
        ({
            let body = s@.subrange(start as int, s@.len() as int);
            if body.len() > 0 && all_digits(body) && digits_value(body) <= limit {
                r == Some(digits_value(body) as u64)
            } else {
                r is None
            }
        }),
{
    let ghost body = s@.subrange(start as int, s@.len() as int);
    if start >= s.len() {
        return None;
    }
    let mut acc: u64 = 0;
    let mut i: usize = start;
    while i < s.len()
        invariant
            start <= i <= s@.len(),
            start < s@.len(),
            limit <= 10_000_000_000,
            body == s@.subrange(start as int, s@.len() as int),
            all_digits(s@.subrange(start as int, i as int)),
            acc == digits_value(s@.subrange(start as int, i as int)),
            acc <= limit,
        decreases s@.len() - i,
    {
        let c = s[i];
        assert(s@.subrange(start as int, i + 1).drop_last() =~= s@.subrange(start as int, i as int));
        if !('0' <= c && c <= '9') {
            proof {
                assert(body[i - start] == c);
                assert(!is_digit(body[i - start]));
            }
            return None;
        }
        let d = (c as u32 - 48) as u64;
        let next = acc * 10 + d;
        if next > limit {
            proof {
                assert(all_digits(s@.subrange(start as int, i + 1)));
                if all_digits(body) {
                    assert(body.subrange(0, i + 1 - start) =~= s@.subrange(start as int, i + 1));
                    lemma_digits_value_prefix(body, i + 1 - start);
                }
            }
            return None;
        }
        acc = next;
        i = i + 1;
    }
    assert(s@.subrange(start as int, s@.len() as int) =~= body);
    Some(acc)
}

/// Reads an unsigned number as `str::parse` does, up to `limit`.
pub fn parse_unsigned(s: &Vec<char>, limit: u64) -> (r: Option<u64>)
    requires
        limit <= 10_000_000_000,
    ensures
        match parse_unsigned_spec(s@, limit as nat) {
            Some(v) => r == Some(v as u64),
            None => r is None,
        },
{
    let start: usize = if s.len() > 0 && s[0] == '+' {
        1
    } else {
        0
    };
    proof {
        if start == 0 {
            assert(s@.subrange(0, s@.len() as int) =~= s@);
        }
    }
    digits_upto(s, start, limit)
}

/// Reads an `i32` as `str::parse` does.
pub fn parse_i32(s: &Vec<char>) -> (r: Option<i32>)
    ensures
        r == parse_i32_spec(s@),
{
    let neg = s.len() > 0 && s[0] == '-';
    let start: usize = if s.len() > 0 && (s[0] == '+' || s[0] == '-') {
        1
    } else {
        0
    };
    proof {
        if start == 0 {
            assert(s@.subrange(0, s@.len() as int) =~= s@);
        }
    }
    let limit: u64 = if neg {
        2147483648
    } else {
        2147483647
    };
    match digits_upto(s, start, limit) {
        Some(v) => {
            if neg {
                if v == 2147483648 {
                    Some(-2147483647i32 - 1)
                } else {
                    Some(-(v as i32))
                }
            } else {
                Some(v as i32)
            }
        },
        None => None,
    }
}

// ---------------------------------------------------------------------------
// Commands
// ---------------------------------------------------------------------------

/// Where `tp` sends the player when it names a kind of site.
#[derive(Clone, Copy, Debug, PartialEq, Eq, Structural)]
pub enum SiteTarget {
    Altar,
    Temple,
    Substory,
    /// Any altar, temple or substory site.
    Any,
}

/// How `inv` sets invincibility.
#[derive(Clone, Copy, Debug, PartialEq, Eq, Structural)]
pub enum InvMode {
    Toggle,
    On,
    Off,
}

/// What `place` puts in front of the player.
#[derive(Clone, Copy, Debug, PartialEq, Eq, Structural)]
pub enum PlaceTarget {
    Tile(Tile),
    Tablet(StoneTabletKind),
    Structure(StructureKind),
    /// A whole temple compound.
    Temple,
}

/// What a debug command line asks for.
#[derive(Clone, Copy, Debug, PartialEq, Eq, Structural)]
pub enum DebugCommand {
    /// A blank line.
    Nothing,
    /// Add `count` of `item` to the bag.
    Give { item: Item, count: u16 },
    /// `give` without an item.
    GiveUsage,
    /// `give` with a key no item has (the second word).
    GiveUnknownItem,
    /// Teleport to the nearest down stairs.
    TpStairs,
    /// Teleport beside the nearest site of a kind.
    TpSite(SiteTarget),
    /// Teleport to a position.
    TpTo { x: i32, y: i32 },
    /// `tp` with missing or unreadable arguments.
    TpUsage,
    /// Report the nearest down stairs.
    FindExit,
    /// Set invincibility.
    Invincible(InvMode),
    /// `inv` with an unknown mode.
    InvUsage,
    /// Go down to a floor.
    Floor(u32),
    /// `floor` with a missing, unreadable or zero floor.
    FloorUsage,
    /// Place something in front of the player.
    Place(PlaceTarget),
    /// `place` with a missing or unknown object.
    PlaceUsage,
    /// A command nobody knows.
    Unknown,
}

/// The word at position `i`, if there is one.
pub open spec fn word(ws: Seq<Seq<char>>, i: int) -> Option<Seq<char>> {
    if 0 <= i < ws.len() {
        Some(ws[i])
    } else {
        None
    }
}

pub open spec fn give_spec(ws: Seq<Seq<char>>) -> DebugCommand {
    match word(ws, 1) {
        None => DebugCommand::GiveUsage,
        Some(key) => {
            let requested: u16 = match word(ws, 2) {
                Some(n) => match parse_unsigned_spec(n, 65535) {
                    Some(v) => if v >= 1 { v as u16 } else { 1 },
                    None => 1,
                },
                None => 1,
            };
            match Item::from_key_spec(key) {
                Some(item) => DebugCommand::Give { item, count: requested },
                None => DebugCommand::GiveUnknownItem,
            }
        },
    }
}

pub open spec fn tp_spec(ws: Seq<Seq<char>>) -> DebugCommand {
    match word(ws, 1) {
        None => DebugCommand::TpUsage,
        Some(a) => {
            let al = spec_lower(a);
            if al == "exit"@ || al == "stairs"@ || a == "出口"@ {
                DebugCommand::TpStairs
            } else if al == "altar"@ || al == "temple"@ || al == "ruin"@ || al == "substory"@ || a
                == "祭壇"@ || a == "寺院"@ || a == "遺跡"@ {
                DebugCommand::TpSite(
                    if al == "altar"@ {
                        SiteTarget::Altar
                    } else if al == "temple"@ {
                        SiteTarget::Temple
                    } else if al == "substory"@ {
                        SiteTarget::Substory
                    } else {
                        SiteTarget::Any
                    },
                )
            } else {
                match word(ws, 2) {
                    None => DebugCommand::TpUsage,
                    Some(b) => match (parse_i32_spec(a), parse_i32_spec(b)) {
                        (Some(x), Some(y)) => DebugCommand::TpTo { x, y },
                        _ => DebugCommand::TpUsage,
                    },
                }
            }
        },
    }
}

pub open spec fn inv_spec(ws: Seq<Seq<char>>) -> DebugCommand {
    match word(ws, 1) {
        None => DebugCommand::Invincible(InvMode::Toggle),
        Some(m) => {
            let ml = spec_lower(m);
            if ml == "toggle"@ {
                DebugCommand::Invincible(InvMode::Toggle)
            } else if ml == "on"@ {
                DebugCommand::Invincible(InvMode::On)
            } else if ml == "off"@ {
                DebugCommand::Invincible(InvMode::Off)
            } else {
                DebugCommand::InvUsage
            }
        },
    }
}

pub open spec fn floor_spec(ws: Seq<Seq<char>>) -> DebugCommand {
    match word(ws, 1) {
        None => DebugCommand::FloorUsage,
        Some(a) => match parse_unsigned_spec(a, 4294967295) {
            Some(v) => if v >= 1 {
                DebugCommand::Floor(v as u32)
            } else {
                DebugCommand::FloorUsage
            },
            None => DebugCommand::FloorUsage,
        },
    }
}

pub open spec fn tablet_spec(ws: Seq<Seq<char>>) -> DebugCommand {
    match word(ws, 2) {
        None => DebugCommand::Place(PlaceTarget::Tablet(StoneTabletKind::Oracle)),
        Some(v) => {
            let vl = spec_lower(v);
            if vl == "mercy"@ || vl == "oriens"@ {
                DebugCommand::Place(PlaceTarget::Tablet(StoneTabletKind::Mercy))
            } else if vl == "might"@ || vl == "occasus"@ {
                DebugCommand::Place(PlaceTarget::Tablet(StoneTabletKind::Might))
            } else if vl == "oracle"@ || vl == "prophecy"@ {
                DebugCommand::Place(PlaceTarget::Tablet(StoneTabletKind::Oracle))
            } else {
                DebugCommand::PlaceUsage
            }
        },
    }
}

pub open spec fn place_spec(ws: Seq<Seq<char>>) -> DebugCommand {
    match word(ws, 1) {
        None => DebugCommand::PlaceUsage,
        Some(k0) => {
            let k = spec_lower(k0);
            if k == "tree"@ || k == "forest"@ || k == "木"@ {
                DebugCommand::Place(PlaceTarget::Tile(Tile::Forest))
            } else if k == "rock"@ || k == "stone"@ || k == "岩"@ {
                DebugCommand::Place(PlaceTarget::Tile(Tile::Rock))
            } else if k == "tablet"@ || k == "slab"@ || k == "石板"@ || k == "石碑"@ {
                tablet_spec(ws)
            } else if k == "altar"@ || k == "祭壇"@ {
                DebugCommand::Place(PlaceTarget::Structure(StructureKind::Altar))
            } else if k == "temple"@ || k == "temple_core"@ || k == "寺院"@ {
                DebugCommand::Place(PlaceTarget::Temple)
            } else if k == "terminal"@ || k == "端末"@ {
                DebugCommand::Place(PlaceTarget::Structure(StructureKind::Terminal))
            } else if k == "vending"@ || k == "vending_machine"@ || k == "自販機"@ || k == "自動販売機"@ {
                DebugCommand::Place(PlaceTarget::Structure(StructureKind::VendingMachine))
            } else if k == "bone"@ || k == "bone_rack"@ || k == "骨棚"@ {
                DebugCommand::Place(PlaceTarget::Structure(StructureKind::BoneRack))
            } else if k == "cable"@ || k == "cable_pylon"@ || k == "導線柱"@ {
                DebugCommand::Place(PlaceTarget::Structure(StructureKind::CablePylon))
            } else {
                DebugCommand::PlaceUsage
            }
        },
    }
}

/// What a command line asks for: its first word, in any letter case, names
/// the command; the words after it are its arguments.
pub open spec fn debug_command_spec(line: Seq<char>) -> DebugCommand {
    let ws = words_spec(line);
    if ws.len() == 0 {
        DebugCommand::Nothing
    } else {
        let cmd = spec_lower(ws[0]);
        if cmd == "give"@ || cmd == "付与"@ {
            give_spec(ws)
        } else if cmd == "tp"@ {
            tp_spec(ws)
        } else if cmd == "find_exit"@ || cmd == "exit_search"@ || cmd == "出口探索"@ {
            DebugCommand::FindExit
        } else if cmd == "inv"@ || cmd == "god"@ || cmd == "invincible"@ || cmd == "無敵"@ {
            inv_spec(ws)
        } else if cmd == "floor"@ || cmd == "fl"@ || cmd == "階層"@ {
            floor_spec(ws)
        } else if cmd == "place"@ || cmd == "obj"@ || cmd == "構造物"@ {
            place_spec(ws)
        } else {
            DebugCommand::Unknown
        }
    }
}

fn lower(v: &Vec<char>) -> (r: Vec<char>)
    ensures
        r@ == spec_lower(v@),
{
    lower_chars(v.as_slice())
}

fn is(v: &Vec<char>, s: &str) -> (b: bool)
    ensures
        b == (v@ == s@),
{
    chars_eq_str(v.as_slice(), s)
}

fn parse_give(ws: &Vec<Vec<char>>, Ghost(wv): Ghost<Seq<Seq<char>>>) -> (c: DebugCommand)
    requires
        ws@.len() == wv.len(),
        forall|i: int| 0 <= i < ws@.len() ==> #[trigger] ws@[i]@ == wv[i],
    ensures
        c == give_spec(wv),
{
    if ws.len() < 2 {
        return DebugCommand::GiveUsage;
    }
    let requested: u16 = if ws.len() >= 3 {
        match parse_unsigned(&ws[2], 65535) {
            Some(v) => if v >= 1 {
                v as u16
            } else {
                1
            },
            None => 1,
        }
    } else {
        1
    };
    let key = crate::strings::string_from_chars(ws[1].as_slice());
    match Item::from_key(key.as_str()) {
        Some(item) => DebugCommand::Give { item, count: requested },
        None => DebugCommand::GiveUnknownItem,
    }
}

fn parse_tp(ws: &Vec<Vec<char>>, Ghost(wv): Ghost<Seq<Seq<char>>>) -> (c: DebugCommand)
    requires
        ws@.len() == wv.len(),
        forall|i: int| 0 <= i < ws@.len() ==> #[trigger] ws@[i]@ == wv[i],
    ensures
        c == tp_spec(wv),
{
    if ws.len() < 2 {
        return DebugCommand::TpUsage;
    }
    let a = &ws[1];
    let al = lower(a);
    if is(&al, "exit") || is(&al, "stairs") || is(a, "出口") {
        return DebugCommand::TpStairs;
    }
    if is(&al, "altar") || is(&al, "temple") || is(&al, "ruin") || is(&al, "substory") || is(a, "祭壇")
        || is(a, "寺院") || is(a, "遺跡") {
        let t = if is(&al, "altar") {
            SiteTarget::Altar
        } else if is(&al, "temple") {
            SiteTarget::Temple
        } else if is(&al, "substory") {
            SiteTarget::Substory
        } else {
            SiteTarget::Any
        };
        return DebugCommand::TpSite(t);
    }
    if ws.len() < 3 {
        return DebugCommand::TpUsage;
    }
    match (parse_i32(a), parse_i32(&ws[2])) {
        (Some(x), Some(y)) => DebugCommand::TpTo { x, y },
        _ => DebugCommand::TpUsage,
    }
}

fn parse_inv(ws: &Vec<Vec<char>>, Ghost(wv): Ghost<Seq<Seq<char>>>) -> (c: DebugCommand)
    requires
        ws@.len() == wv.len(),
        forall|i: int| 0 <= i < ws@.len() ==> #[trigger] ws@[i]@ == wv[i],
    ensures
        c == inv_spec(wv),
{
    if ws.len() < 2 {
        return DebugCommand::Invincible(InvMode::Toggle);
    }
    let m = lower(&ws[1]);
    if is(&m, "toggle") {
        DebugCommand::Invincible(InvMode::Toggle)
    } else if is(&m, "on") {
        DebugCommand::Invincible(InvMode::On)
    } else if is(&m, "off") {
        DebugCommand::Invincible(InvMode::Off)
    } else {
        DebugCommand::InvUsage
    }
}

fn parse_floor(ws: &Vec<Vec<char>>, Ghost(wv): Ghost<Seq<Seq<char>>>) -> (c: DebugCommand)
    requires
        ws@.len() == wv.len(),
        forall|i: int| 0 <= i < ws@.len() ==> #[trigger] ws@[i]@ == wv[i],
    ensures
        c == floor_spec(wv),
{
    if ws.len() < 2 {
        return DebugCommand::FloorUsage;
    }
    match parse_unsigned(&ws[1], 4294967295) {
        Some(v) => if v >= 1 {
            DebugCommand::Floor(v as u32)
        } else {
            DebugCommand::FloorUsage
        },
        None => DebugCommand::FloorUsage,
    }
}

fn parse_place(ws: &Vec<Vec<char>>, Ghost(wv): Ghost<Seq<Seq<char>>>) -> (c: DebugCommand)
    requires
        ws@.len() == wv.len(),
        forall|i: int| 0 <= i < ws@.len() ==> #[trigger] ws@[i]@ == wv[i],
    ensures
        c == place_spec(wv),
{
    if ws.len() < 2 {
        return DebugCommand::PlaceUsage;
    }
    let k = lower(&ws[1]);
    if is(&k, "tree") || is(&k, "forest") || is(&k, "木") {
        DebugCommand::Place(PlaceTarget::Tile(Tile::Forest))
    } else if is(&k, "rock") || is(&k, "stone") || is(&k, "岩") {
        DebugCommand::Place(PlaceTarget::Tile(Tile::Rock))
    } else if is(&k, "tablet") || is(&k, "slab") || is(&k, "石板") || is(&k, "石碑") {
        if ws.len() < 3 {
            DebugCommand::Place(PlaceTarget::Tablet(StoneTabletKind::Oracle))
        } else {
            let v = lower(&ws[2]);
            if is(&v, "mercy") || is(&v, "oriens") {
                DebugCommand::Place(PlaceTarget::Tablet(StoneTabletKind::Mercy))
            } else if is(&v, "might") || is(&v, "occasus") {
                DebugCommand::Place(PlaceTarget::Tablet(StoneTabletKind::Might))
            } else if is(&v, "oracle") || is(&v, "prophecy") {
                DebugCommand::Place(PlaceTarget::Tablet(StoneTabletKind::Oracle))
            } else {
                DebugCommand::PlaceUsage
            }
        }
    } else if is(&k, "altar") || is(&k, "祭壇") {
        DebugCommand::Place(PlaceTarget::Structure(StructureKind::Altar))
    } else if is(&k, "temple") || is(&k, "temple_core") || is(&k, "寺院") {
        DebugCommand::Place(PlaceTarget::Temple)
    } else if is(&k, "terminal") || is(&k, "端末") {
        DebugCommand::Place(PlaceTarget::Structure(StructureKind::Terminal))
    } else if is(&k, "vending") || is(&k, "vending_machine") || is(&k, "自販機") || is(&k, "自動販売機") {
        DebugCommand::Place(PlaceTarget::Structure(StructureKind::VendingMachine))
    } else if is(&k, "bone") || is(&k, "bone_rack") || is(&k, "骨棚") {
        DebugCommand::Place(PlaceTarget::Structure(StructureKind::BoneRack))
    } else if is(&k, "cable") || is(&k, "cable_pylon") || is(&k, "導線柱") {
        DebugCommand::Place(PlaceTarget::Structure(StructureKind::CablePylon))
    } else {
        DebugCommand::PlaceUsage
    }
}

/// The words of a command line.
pub fn debug_words(line: &str) -> (words: Vec<String>)
    ensures
        words@.len() == words_spec(line@).len(),
        forall|i: int| 0 <= i < words@.len() ==> #[trigger] words@[i]@ == words_spec(line@)[i],
{
    let chars = chars_of(line);
    let ws = split_words(&chars);
    let mut out: Vec<String> = Vec::new();
    let mut i: usize = 0;
    while i < ws.len()
        invariant
            i <= ws@.len(),
            chars@ == line@,
            ws@.len() == words_spec(line@).len(),
            forall|k: int| 0 <= k < ws@.len() ==> #[trigger] ws@[k]@ == words_spec(line@)[k],
            out@.len() == i,
            forall|k: int| 0 <= k < i ==> #[trigger] out@[k]@ == words_spec(line@)[k],
        decreases ws@.len() - i,
    {
        out.push(crate::strings::string_from_chars(ws[i].as_slice()));
        i = i + 1;
    }
    out
}

/// What a debug command line asks for (see `debug_command_spec`).
pub fn parse_debug_command(line: &str) -> (c: DebugCommand)
    ensures
        c == debug_command_spec(line@),
{
    let chars = chars_of(line);
    let ws = split_words(&chars);
    let ghost wv = words_spec(line@);
    if ws.len() == 0 {
        return DebugCommand::Nothing;
    }
    let cmd = lower(&ws[0]);
    if is(&cmd, "give") || is(&cmd, "付与") {
        parse_give(&ws, Ghost(wv))
    } else if is(&cmd, "tp") {
        parse_tp(&ws, Ghost(wv))
    } else if is(&cmd, "find_exit") || is(&cmd, "exit_search") || is(&cmd, "出口探索") {
        DebugCommand::FindExit
    } else if is(&cmd, "inv") || is(&cmd, "god") || is(&cmd, "invincible") || is(&cmd, "無敵") {
        parse_inv(&ws, Ghost(wv))
    } else if is(&cmd, "floor") || is(&cmd, "fl") || is(&cmd, "階層") {
        parse_floor(&ws, Ghost(wv))
    } else if is(&cmd, "place") || is(&cmd, "obj") || is(&cmd, "構造物") {
        parse_place(&ws, Ghost(wv))
    } else {
        DebugCommand::Unknown
    }
}

// ---------------------------------------------------------------------------
// Carrying out the bag and floor commands
// ---------------------------------------------------------------------------

/// Adding up to `n` single units of `kind`, stopping at the first that does
/// not fit: the bag, the id counter, and how many were added.
pub open spec fn give_units_spec(items: Seq<crate::inventory::InventoryItem>, kind: Item, n: nat, next: u64) -> (Seq<crate::inventory::InventoryItem>, u64, nat)
    decreases n,
{
    if n == 0 {
        (items, next, 0)
    } else {
        let s = add_item_spec(items, new_stack(0, kind, 1), next);
        if s.2 {
            let r = give_units_spec(s.0, kind, (n - 1) as nat, s.1);
            (r.0, r.1, r.2 + 1)
        } else {
            (s.0, s.1, 0)
        }
    }
}

proof fn lemma_give_units_bound(items: Seq<crate::inventory::InventoryItem>, kind: Item, n: nat, next: u64)
    ensures
        give_units_spec(items, kind, n, next).2 <= n,
    decreases n,
{
    if n > 0 {
        let s = add_item_spec(items, new_stack(0, kind, 1), next);
        lemma_give_units_bound(s.0, kind, (n - 1) as nat, s.1);
    }
}

/// Adds `requested` single units of `kind` to the bag one by one, stopping
/// when one does not fit. Returns how many were added.
pub fn give_items(bag: &mut Inventory, kind: Item, requested: u16, next_entity_id: &mut u64) -> (added: u16)
    ensures
        ({
            let r = give_units_spec(old(bag).items@, kind, requested as nat, *old(next_entity_id));
            &&& final(bag).items@ == r.0
            &&& *final(next_entity_id) == r.1
            &&& added == r.2
        }),
        final(bag).equipped_sword == old(bag).equipped_sword,
        final(bag).equipped_shield == old(bag).equipped_shield,
        final(bag).equipped_accessory == old(bag).equipped_accessory,
{
    let ghost total = give_units_spec(bag.items@, kind, requested as nat, *next_entity_id);
    let mut added: u16 = 0;
    proof {
        lemma_give_units_bound(bag.items@, kind, requested as nat, *next_entity_id);
    }
    while added < requested
        invariant
            added <= requested,
            total == give_units_spec(old(bag).items@, kind, requested as nat, *old(next_entity_id)),
            ({
                let r = give_units_spec(bag.items@, kind, (requested - added) as nat, *next_entity_id);
                &&& r.0 == total.0
                &&& r.1 == total.1
                &&& r.2 + added == total.2
            }),
            bag.equipped_sword == old(bag).equipped_sword,
            bag.equipped_shield == old(bag).equipped_shield,
            bag.equipped_accessory == old(bag).equipped_accessory,
        decreases requested - added,
    {
        let ok = bag.add_item_kind_to_inventory(kind, next_entity_id);
        if !ok {
            return added;
        }
        added = added + 1;
    }
    added
}

/// What `floor` does from `current` to `target`.
#[derive(Clone, Copy, Debug, PartialEq, Eq, Structural)]
pub enum FloorJump {
    /// Already there.
    Same,
    /// The floors only go down.
    CannotAscend,
    /// Go down this many floors.
    Descend(u32),
}

/// What `floor` does from `current` to `target`.
pub fn floor_jump(current: u32, target: u32) -> (j: FloorJump)
    ensures
        target == current ==> j == FloorJump::Same,
        target < current ==> j == FloorJump::CannotAscend,
        target > current ==> j == FloorJump::Descend((target - current) as u32),
{
    if target == current {
        FloorJump::Same
    } else if target < current {
        FloorJump::CannotAscend
    } else {
        FloorJump::Descend(target - current)
    }
}


/// Whether a debug teleport may land on a cell.
#[derive(Clone, Copy, Debug, PartialEq, Eq, Structural)]
pub enum TeleportCheck {
    Allowed,
    /// The cell cannot be walked onto or holds a tablet or structure.
    Blocked,
    /// A creature stands there.
    Occupied,
}

/// A teleport lands on a walkable cell free of tablets and structures, and
/// of creatures.
pub fn teleport_check(walkable: bool, structure: bool, creature: bool) -> (r: TeleportCheck)
    ensures
        r == (if !walkable || structure {
            TeleportCheck::Blocked
        } else if creature {
            TeleportCheck::Occupied
        } else {
            TeleportCheck::Allowed
        }),
{
    if !walkable || structure {
        TeleportCheck::Blocked
    } else if creature {
        TeleportCheck::Occupied
    } else {
        TeleportCheck::Allowed
    }
}

/// The player moves to `(x, y)` exactly when `teleport_check` allows it
/// for what the cell holds; otherwise the player stays.
pub fn teleport_player(px: &mut i32, py: &mut i32, x: i32, y: i32, walkable: bool, structure: bool, creature: bool) -> (r:
    TeleportCheck)
    ensures
        r == (if !walkable || structure {
            TeleportCheck::Blocked
        } else if creature {
            TeleportCheck::Occupied
        } else {
            TeleportCheck::Allowed
        }),
        r == TeleportCheck::Allowed ==> *final(px) == x && *final(py) == y,
        r != TeleportCheck::Allowed ==> *final(px) == *old(px) && *final(py) == *old(py),
{
    let r = teleport_check(walkable, structure, creature);
    if r == TeleportCheck::Allowed {
        *px = x;
        *py = y;
    }
    r
}

/// Invincibility after an `inv` command of mode `m`, from `b`.
pub open spec fn inv_after(b: bool, m: InvMode) -> bool {
    match m {
        InvMode::Toggle => !b,
        InvMode::On => true,
        InvMode::Off => false,
    }
}

/// Invincibility after debug command `c`, from `b`: only an `inv` command
/// changes it.
pub open spec fn invincible_after_spec(b: bool, c: DebugCommand) -> bool {
    match c {
        DebugCommand::Invincible(m) => inv_after(b, m),
        _ => b,
    }
}

/// Invincibility after debug command `c` (see `invincible_after_spec`).
pub fn invincible_after(b: bool, c: &DebugCommand) -> (r: bool)
    ensures
        r == invincible_after_spec(b, *c),
{
    match c {
        DebugCommand::Invincible(InvMode::Toggle) => !b,
        DebugCommand::Invincible(InvMode::On) => true,
        DebugCommand::Invincible(InvMode::Off) => false,
        _ => b,
    }
}

/// `inv on` and `inv off` set invincibility whatever it was; toggling
/// twice restores it; a command other than `inv` (an `inv` with an
/// unknown mode among them) leaves it.
pub proof fn lemma_inv_modes(b: bool, c: DebugCommand)
    ensures
        invincible_after_spec(b, DebugCommand::Invincible(InvMode::On)),
        !invincible_after_spec(b, DebugCommand::Invincible(InvMode::Off)),
        invincible_after_spec(invincible_after_spec(b, DebugCommand::Invincible(InvMode::Toggle)), DebugCommand::Invincible(
            InvMode::Toggle,
        )) == b,
        !(c is Invincible) ==> invincible_after_spec(b, c) == b,
{
}

/// Whether `place` may put `target` on the cell ahead: a tile anywhere no
/// creature (nor the player) stands; a tablet or structure only on a
/// walkable cell that is not the stairs, with no creature; a temple
/// whenever its own check lets it.
pub fn place_allowed(target: PlaceTarget, taken: bool, walkable: bool, stairs: bool) -> (b: bool)
    ensures
        b == match target {
            PlaceTarget::Tile(_) => !taken,
            PlaceTarget::Tablet(_) | PlaceTarget::Structure(_) => !taken && walkable && !stairs,
            PlaceTarget::Temple => true,
        },
{
    match target {
        PlaceTarget::Tile(_) => !taken,
        PlaceTarget::Tablet(_) | PlaceTarget::Structure(_) => !taken && walkable && !stairs,
        PlaceTarget::Temple => true,
    }
}

} // verus!
