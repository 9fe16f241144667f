//! Game data definitions: creature factions, the forge-scroll ritual pattern,
//! and the checks that data files must pass.
use vstd::prelude::*;

use crate::items::Item;
use crate::strings::{is_whitespace_char, spec_is_whitespace, str_eq, string_from_chars};

verus! {

/// Which side a creature is on.
#[derive(Clone, Copy, Debug, PartialEq, Eq, Structural)]
pub enum Faction {
    Hostile,
    Neutral,
    Ally,
}

impl Faction {
    /// The faction named by `key`, if any.
    pub open spec fn from_key_spec(key: Seq<char>) -> Option<Faction> {
        if key == "ally"@ {
            Some(Faction::Ally)
        } else if key == "hostile"@ {
            Some(Faction::Hostile)
        } else if key == "neutral"@ {
            Some(Faction::Neutral)
        } else {
            None
        }
    }

    /// The faction named by `key`, if any.
    pub fn from_key(key: &str) -> (r: Option<Faction>)
        ensures
            r == Self::from_key_spec(key@),
    {
        if str_eq(key, "ally") {
            Some(Faction::Ally)
        } else if str_eq(key, "hostile") {
            Some(Faction::Hostile)
        } else if str_eq(key, "neutral") {
            Some(Faction::Neutral)
        } else {
            None
        }
    }
}

/// Items that loot tables may equip as weapons.
pub fn is_weapon_item(item: Item) -> (b: bool)
    ensures
        b == (item == Item::StoneAxe || item == Item::IronSword || item == Item::IronPickaxe),
{
    match item {
        Item::StoneAxe | Item::IronSword | Item::IronPickaxe => true,
        _ => false,
    }
}

/// Default drop chance of a loot entry, in percent.
pub fn default_drop_chance() -> (c: u8)
    ensures
        c == 100,
{
    100
}

/// The single character of a glyph string, if it has exactly one.
pub fn parse_single_char_or(s: &str, fallback: char) -> (c: char)
    ensures
        c == if s@.len() == 1 { s@[0] } else { fallback },
{
    if s.unicode_len() == 1 {
        s.get_char(0)
    } else {
        fallback
    }
}

/// The glyph of a data entry, which must be exactly one character.
pub fn parse_single_char(s: &str) -> (c: char)
    requires
        s@.len() == 1,
    ensures
        c == s@[0],
{
    s.get_char(0)
}

// ---------------------------------------------------------------------------
// The forge-scroll ritual pattern
// ---------------------------------------------------------------------------

/// The characters of `s` that are not whitespace, in order.
pub open spec fn non_ws(s: Seq<char>) -> Seq<char>
    decreases s.len(),
{
    if s.len() == 0 {
        Seq::empty()
    } else if spec_is_whitespace(s.last()) {
        non_ws(s.drop_last())
    } else {
        non_ws(s.drop_last()).push(s.last())
    }
}

/// What a pattern cell holds.
pub open spec fn cell_item(c: char) -> Option<Item> {
    if c == 'w' || c == 'W' {
        Some(Item::Wood)
    } else if c == 's' || c == 'S' {
        Some(Item::Stone)
    } else {
        None
    }
}

/// A cell symbol the pattern accepts: material, centre or empty.
pub open spec fn known_symbol(c: char) -> bool {
    c == 'w' || c == 'W' || c == 's' || c == 'S' || c == '@' || c == '.' || c == '-' || c == '_'
}

/// Why a ritual pattern is refused.
#[derive(Clone, Copy, Debug, PartialEq, Eq, Structural)]
pub enum ForgePatternError {
    /// The pattern does not have exactly three rows.
    RowCount,
    /// Row `0` does not hold exactly three non-space characters.
    RowWidth(usize),
    /// A cell holds a symbol other than w, s, @, `.`, `-`, `_`.
    UnknownSymbol(char),
    /// `@` stands outside the middle cell.
    CenterMisplaced,
    /// No `@` in the middle cell.
    CenterMissing,
}

/// The first problem met when reading `rows` row by row and cell by cell
/// (from row `r` on), if any, before the final check for the centre.
pub open spec fn row_problem(rows: Seq<Seq<char>>, r: nat) -> Option<ForgePatternError>
    decreases 3 - r,
{
    if r >= 3 {
        None
    } else {
        let cells = non_ws(rows[r as int]);
        if cells.len() != 3 {
            Some(ForgePatternError::RowWidth(r as usize))
        } else {
            match cell_problem(cells, r as int, 0) {
                Some(e) => Some(e),
                None => row_problem(rows, r + 1),
            }
        }
    }
}

/// The first bad cell of row `y` from cell `x` on.
pub open spec fn cell_problem(cells: Seq<char>, y: int, x: nat) -> Option<ForgePatternError>
    decreases 3 - x,
{
    if x >= 3 {
        None
    } else {
        let c = cells[x as int];
        if !known_symbol(c) {
            Some(ForgePatternError::UnknownSymbol(c))
        } else if c == '@' && !(x == 1 && y == 1) {
            Some(ForgePatternError::CenterMisplaced)
        } else {
            cell_problem(cells, y, x + 1)
        }
    }
}

/// Why `rows` is refused as a ritual pattern, if it is.
pub open spec fn forge_pattern_error_spec(rows: Seq<Seq<char>>) -> Option<ForgePatternError> {
    if rows.len() != 3 {
        Some(ForgePatternError::RowCount)
    } else {
        match row_problem(rows, 0) {
            Some(e) => Some(e),
            None => if non_ws(rows[1])[1] != '@' {
                Some(ForgePatternError::CenterMissing)
            } else {
                None
            },
        }
    }
}

/// The material cells of an accepted pattern, row by row, as offsets from the
/// centre.
pub open spec fn pattern_cells(rows: Seq<Seq<char>>, k: nat) -> Seq<(i32, i32, Item)>
    decreases k,
{
    if k == 0 {
        Seq::empty()
    } else {
        let prev = pattern_cells(rows, (k - 1) as nat);
        let y = (k - 1) / 3;
        let x = (k - 1) % 3;
        match cell_item(non_ws(rows[y as int])[x as int]) {
            Some(item) => prev.push(((x - 1) as i32, (y - 1) as i32, item)),
            None => prev,
        }
    }
}

/// The built-in pattern: wood in the corners, stone on the sides.
pub open spec fn default_forge_pattern_spec() -> Seq<(i32, i32, Item)> {
    seq![
        (-1i32, -1i32, Item::Wood),
        (0i32, -1i32, Item::Stone),
        (1i32, -1i32, Item::Wood),
        (-1i32, 0i32, Item::Stone),
        (1i32, 0i32, Item::Stone),
        (-1i32, 1i32, Item::Wood),
        (0i32, 1i32, Item::Stone),
        (1i32, 1i32, Item::Wood),
    ]
}

/// The built-in pattern.
pub fn default_forge_scroll_pattern() -> (p: Vec<(i32, i32, Item)>)
    ensures
        p@ == default_forge_pattern_spec(),
{
    let mut p: Vec<(i32, i32, Item)> = Vec::new();
    p.push((-1, -1, Item::Wood));
    p.push((0, -1, Item::Stone));
    p.push((1, -1, Item::Wood));
    p.push((-1, 0, Item::Stone));
    p.push((1, 0, Item::Stone));
    p.push((-1, 1, Item::Wood));
    p.push((0, 1, Item::Stone));
    p.push((1, 1, Item::Wood));
    assert(p@ =~= default_forge_pattern_spec());
    p
}

/// The non-space characters of `s`.
pub fn non_ws_chars(s: &str) -> (v: Vec<char>)
    ensures
        v@ == non_ws(s@),
{
    let chars = crate::strings::chars_of(s);
    let mut out: Vec<char> = Vec::new();
    let mut i: usize = 0;
    while i < chars.len()
        invariant
            i <= chars@.len(),
            chars@ == s@,
            out@ == non_ws(s@.subrange(0, i as int)),
        decreases chars@.len() - i,
    {
        assert(s@.subrange(0, i + 1).drop_last() =~= s@.subrange(0, i as int));
        if !is_whitespace_char(chars[i]) {
            out.push(chars[i]);
        }
        i = i + 1;
    }
    assert(s@.subrange(0, s@.len() as int) =~= s@);
    out
}

pub open spec fn rows_view(rows: Seq<String>) -> Seq<Seq<char>> {
    rows.map_values(|r: String| r@)
}

/// Why `rows` is refused as a ritual pattern, if it is.
pub fn forge_pattern_error(rows: &Vec<String>) -> (e: Option<ForgePatternError>)
    ensures
        e == forge_pattern_error_spec(rows_view(rows@)),
{
    let ghost rv = rows_view(rows@);
    if rows.len() != 3 {
        return Some(ForgePatternError::RowCount);
    }
    let mut y: usize = 0;
    while y < 3
        invariant
            y <= 3,
            rows@.len() == 3,
            rv == rows_view(rows@),
            row_problem(rv, 0) == row_problem(rv, y as nat),
        decreases 3 - y,
    {
        let cells = non_ws_chars(rows[y].as_str());
        assert(cells@ == non_ws(rv[y as int]));
        if cells.len() != 3 {
            return Some(ForgePatternError::RowWidth(y));
        }
        let mut x: usize = 0;
        while x < 3
            invariant
                x <= 3,
                y < 3,
                rows@.len() == 3,
                rv == rows_view(rows@),
                row_problem(rv, 0) == row_problem(rv, y as nat),
                cells@ == non_ws(rv[y as int]),
                cells@.len() == 3,
                cell_problem(cells@, y as int, 0) == cell_problem(cells@, y as int, x as nat),
            decreases 3 - x,
        {
            let c = cells[x];
            if !(c == 'w' || c == 'W' || c == 's' || c == 'S' || c == '@' || c == '.' || c == '-' || c == '_') {
                return Some(ForgePatternError::UnknownSymbol(c));
            }
            if c == '@' && !(x == 1 && y == 1) {
                return Some(ForgePatternError::CenterMisplaced);
            }
            x = x + 1;
        }
        y = y + 1;
    }
    proof {
        lemma_rows_width(rv);
    }
    let mid = non_ws_chars(rows[1].as_str());
    assert(mid@ == non_ws(rv[1]));
    if mid[1] != '@' {
        return Some(ForgePatternError::CenterMissing);
    }
    None
}

/// The material cells of an accepted pattern, or the built-in pattern when
/// the data gives none.
pub fn parse_forge_scroll_pattern(raw: Option<&Vec<String>>) -> (p: Vec<(i32, i32, Item)>)
    requires
        match raw {
            Some(rows) => forge_pattern_error_spec(rows_view(rows@)) is None,
            None => true,
        },
    ensures
        p@ == match raw {
            Some(rows) => pattern_cells(rows_view(rows@), 9),
            None => default_forge_pattern_spec(),
        },
{
    let rows = match raw {
        Some(rows) => rows,
        None => {
            return default_forge_scroll_pattern();
        },
    };
    let ghost rv = rows_view(rows@);
    proof {
        lemma_rows_well_formed(rv);
    }
    let mut out: Vec<(i32, i32, Item)> = Vec::new();
    let mut y: usize = 0;
    while y < 3
        invariant
            y <= 3,
            rows@.len() == 3,
            rv == rows_view(rows@),
            forall|r: int| 0 <= r < 3 ==> #[trigger] non_ws(rv[r]).len() == 3,
            out@ == pattern_cells(rv, (3 * y) as nat),
        decreases 3 - y,
    {
        let cells = non_ws_chars(rows[y].as_str());
        assert(cells@ == non_ws(rv[y as int]));
        assert(non_ws(rv[y as int]).len() == 3);
        let mut x: usize = 0;
        while x < 3
            invariant
                x <= 3,
                y < 3,
                cells@ == non_ws(rv[y as int]),
                cells@.len() == 3,
                out@ == pattern_cells(rv, (3 * y + x) as nat),
            decreases 3 - x,
        {
            let c = cells[x];
            let dx = x as i32 - 1;
            let dy = y as i32 - 1;
            assert((3 * y + x) / 3 == y && (3 * y + x) % 3 == x);
            if c == 'w' || c == 'W' {
                out.push((dx, dy, Item::Wood));
            } else if c == 's' || c == 'S' {
                out.push((dx, dy, Item::Stone));
            }
            x = x + 1;
        }
        y = y + 1;
    }
    out
}

proof fn lemma_rows_well_formed(rv: Seq<Seq<char>>)
    requires
        forge_pattern_error_spec(rv) is None,
    ensures
        rv.len() == 3,
        forall|r: int| 0 <= r < 3 ==> #[trigger] non_ws(rv[r]).len() == 3,
{
    lemma_rows_width(rv);
}

proof fn lemma_rows_width(rv: Seq<Seq<char>>)
    requires
        rv.len() == 3,
        row_problem(rv, 0) is None,
    ensures
        forall|r: int| 0 <= r < 3 ==> #[trigger] non_ws(rv[r]).len() == 3,
{
    assert(row_problem(rv, 0) is None);
    assert(non_ws(rv[0]).len() == 3);
    assert(row_problem(rv, 1) is None);
    assert(non_ws(rv[1]).len() == 3);
    assert(row_problem(rv, 2) is None);
    assert(non_ws(rv[2]).len() == 3);
}

/// The symbol a material shows in the ritual layout.
pub open spec fn pattern_symbol(item: Item) -> char {
    if item == Item::Wood {
        'w'
    } else if item == Item::Stone {
        's'
    } else {
        '?'
    }
}

/// The character of layout cell `(x, y)` after writing the cells of `pattern`
/// in order onto a grid of `.` with `@` in the middle; cells outside the 3x3
/// square are skipped.
pub open spec fn grid_char(pattern: Seq<(i32, i32, Item)>, x: int, y: int) -> char
    decreases pattern.len(),
{
    if pattern.len() == 0 {
        if x == 1 && y == 1 {
            '@'
        } else {
            '.'
        }
    } else {
        let e = pattern.last();
        if e.0 + 1 == x && e.1 + 1 == y {
            pattern_symbol(e.2)
        } else {
            grid_char(pattern.drop_last(), x, y)
        }
    }
}

/// Row `y` of the layout: its three cells separated by spaces.
pub open spec fn layout_line(pattern: Seq<(i32, i32, Item)>, y: int) -> Seq<char> {
    seq![grid_char(pattern, 0, y), ' ', grid_char(pattern, 1, y), ' ', grid_char(pattern, 2, y)]
}

/// The ritual layout as three text rows, such as `w s w` / `s @ s` / `w s w`.
pub fn forge_scroll_pattern_lines(pattern: &[(i32, i32, Item)]) -> (lines: Vec<String>)
    requires
        forall|i: int| 0 <= i < pattern@.len() ==> (#[trigger] pattern@[i]).0 < i32::MAX && pattern@[i].1 < i32::MAX,
    ensures
        lines@.len() == 3,
        forall|y: int| 0 <= y < 3 ==> #[trigger] lines@[y]@ == layout_line(pattern@, y),
{
    let mut grid: [[char; 3]; 3] = [['.'; 3]; 3];
    grid[1][1] = '@';
    let mut i: usize = 0;
    while i < pattern.len()
        invariant
            i <= pattern@.len(),
            forall|j: int| 0 <= j < pattern@.len() ==> (#[trigger] pattern@[j]).0 < i32::MAX && pattern@[j].1 < i32::MAX,
            forall|x: int, y: int| 0 <= x < 3 && 0 <= y < 3 ==> #[trigger] grid@[y]@[x] == grid_char(pattern@.subrange(0, i as int), x, y),
        decreases pattern@.len() - i,
    {
        let (dx, dy, item) = pattern[i];
        assert(pattern@.subrange(0, i + 1).drop_last() =~= pattern@.subrange(0, i as int));
        assert(pattern@.subrange(0, i + 1).last() == pattern@[i as int]);
        let xi = dx + 1;
        let yi = dy + 1;
        if 0 <= xi && xi < 3 && 0 <= yi && yi < 3 {
            let sym = match item {
                Item::Wood => 'w',
                Item::Stone => 's',
                _ => '?',
            };
            let x = xi as usize;
            let y = yi as usize;
            let mut row = grid[y];
            row[x] = sym;
            grid[y] = row;
        }
        i = i + 1;
    }
    assert(pattern@.subrange(0, pattern@.len() as int) =~= pattern@);
    let mut lines: Vec<String> = Vec::new();
    let mut y: usize = 0;
    while y < 3
        invariant
            y <= 3,
            lines@.len() == y,
            forall|x: int, yy: int| 0 <= x < 3 && 0 <= yy < 3 ==> #[trigger] grid@[yy]@[x] == grid_char(pattern@, x, yy),
            forall|yy: int| 0 <= yy < y ==> #[trigger] lines@[yy]@ == layout_line(pattern@, yy),
        decreases 3 - y,
    {
        let row = grid[y];
        let mut v: Vec<char> = Vec::new();
        v.push(row[0]);
        v.push(' ');
        v.push(row[1]);
        v.push(' ');
        v.push(row[2]);
        assert(v@ =~= layout_line(pattern@, y as int));
        lines.push(string_from_chars(&v));
        y = y + 1;
    }
    lines
}

/// How an accepted pattern cell is shown in the layout: materials in lower
/// case, the centre as `@`, empty cells as `.`.
pub open spec fn canonical_cell(c: char) -> char {
    if c == 'w' || c == 'W' {
        'w'
    } else if c == 's' || c == 'S' {
        's'
    } else if c == '@' {
        '@'
    } else {
        '.'
    }
}

proof fn lemma_pattern_grid(rv: Seq<Seq<char>>, k: nat, x: int, y: int)
    requires
        rv.len() == 3,
        forall|r: int| 0 <= r < 3 ==> #[trigger] non_ws(rv[r]).len() == 3,
        k <= 9,
        0 <= x < 3,
        0 <= y < 3,
    ensures
        grid_char(pattern_cells(rv, k), x, y) == if 3 * y + x < k && cell_item(non_ws(rv[y])[x]) is Some {
            pattern_symbol(cell_item(non_ws(rv[y])[x])->0)
        } else if x == 1 && y == 1 {
            '@'
        } else {
            '.'
        },
    decreases k,
{
    if k > 0 {
        lemma_pattern_grid(rv, (k - 1) as nat, x, y);
        let prev = pattern_cells(rv, (k - 1) as nat);
        let py = (k - 1) / 3;
        let px = (k - 1) % 3;
        assert(0 <= py < 3 && 0 <= px < 3 && 3 * py + px == k - 1);
        assert(3 * y + x == k - 1 ==> x == px && y == py);
        assert(non_ws(rv[py as int]).len() == 3);
        match cell_item(non_ws(rv[py as int])[px as int]) {
            Some(item) => {
                let e = ((px - 1) as i32, (py - 1) as i32, item);
                assert(pattern_cells(rv, k) == prev.push(e));
                assert(prev.push(e).drop_last() =~= prev);
                assert(prev.push(e).last() == e);
                assert(e.0 + 1 == px && e.1 + 1 == py);
            },
            None => {
                assert(pattern_cells(rv, k) == prev);
            },
        }
    }
}

proof fn lemma_cells_accepted(cells: Seq<char>, y: int, x: nat)
    requires
        cells.len() == 3,
        cell_problem(cells, y, x) is None,
    ensures
        forall|j: int| x <= j < 3 ==> known_symbol(#[trigger] cells[j]) && (cells[j] == '@' ==> j == 1 && y == 1),
    decreases 3 - x,
{
    if x < 3 {
        lemma_cells_accepted(cells, y, x + 1);
    }
}

/// Law: the layout shown for an accepted pattern is the pattern itself, row
/// by row, with spaces normalised, materials in lower case and empty cells as
/// `.`.
pub proof fn lemma_pattern_layout_roundtrip(rv: Seq<Seq<char>>, y: int)
    requires
        forge_pattern_error_spec(rv) is None,
        0 <= y < 3,
    ensures
        layout_line(pattern_cells(rv, 9), y) == seq![
            canonical_cell(non_ws(rv[y])[0]),
            ' ',
            canonical_cell(non_ws(rv[y])[1]),
            ' ',
            canonical_cell(non_ws(rv[y])[2]),
        ],
{
    lemma_rows_well_formed(rv);
    assert(row_problem(rv, 0) is None);
    assert(cell_problem(non_ws(rv[0]), 0, 0) is None);
    assert(row_problem(rv, 1) is None);
    assert(cell_problem(non_ws(rv[1]), 1, 0) is None);
    assert(row_problem(rv, 2) is None);
    assert(cell_problem(non_ws(rv[2]), 2, 0) is None);
    lemma_cells_accepted(non_ws(rv[y]), y, 0);
    assert(non_ws(rv[1])[1] == '@');
    lemma_pattern_grid(rv, 9, 0, y);
    lemma_pattern_grid(rv, 9, 1, y);
    lemma_pattern_grid(rv, 9, 2, y);
}

} // verus!
