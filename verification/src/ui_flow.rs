//! What each key does: the screen the game shows and the action a key asks
//! for, as a step from the current screen, the key and what the game says
//! about itself to the next screen and the action. The terminal front end
//! reads keys, performs the actions and draws.
use vstd::prelude::*;

use crate::catalog::{clamp3, move_cursor_3x3};
use crate::vending::{move_vending_cursor, vending_cursor_spec};
use crate::strings::{lower_char, spec_lower_char};

verus! {

/// A key.
#[derive(Clone, Copy, Debug, PartialEq, Eq, Structural)]
pub enum Key {
    Char(char),
    Up,
    Down,
    Left,
    Right,
    Enter,
    Esc,
    Tab,
    Backspace,
    /// The quick-save key.
    Save,
    Other,
}

/// A key press, with whether Ctrl was held.
#[derive(Clone, Copy, Debug, PartialEq, Eq, Structural)]
pub struct KeyInput {
    pub key: Key,
    pub ctrl: bool,
}

/// The screen shown.
#[derive(Clone, Copy, Debug, PartialEq, Eq, Structural)]
pub enum UiState {
    /// The title menu: start, settings, exit.
    Title { selected: usize },
    /// The save slots, with slot `selected` chosen.
    Slots { selected: usize },
    /// Asking whether the save in slot `selected` is to be erased.
    DeleteConfirm { selected: usize },
    /// The settings: the language.
    Settings,
    /// The map.
    Play,
    /// The bag, with entry `selected` chosen.
    Inventory { selected: usize },
    /// The debug console, with suggestion `selected` chosen.
    Debug { selected: usize },
    /// A vending machine, the cursor on a product (or the coin slot).
    Vending { cursor: usize },
    /// The crafting grid, the cursor on a cell and bag entry `selected`
    /// chosen.
    Craft { cursor: usize, selected: usize },
    /// Asking, on the stairs, whether to go down (`descend`) or stay.
    Stairs { descend: bool },
    /// A message shown until it is dismissed.
    Dialogue,
    /// The game menu, entry `selected` chosen.
    Menu { selected: usize },
    /// The hints page.
    Hints,
    /// The settings, reached from the game menu.
    GameSettings,
    /// The bag with entry `selected` picked up to be moved.
    InventoryMove { selected: usize },
    /// What to do with bag entry `selected`, action `action` chosen.
    ItemMenu { selected: usize, action: usize },
    /// Typing a new name for bag entry `selected`.
    Rename { selected: usize },
    /// What to do with the item under the player, action `action` chosen.
    GroundMenu { action: usize },
    /// Choosing bag entry `selected` to swap with the item under the player.
    GroundSwap { selected: usize },
    /// The player died.
    Dead,
}

/// What the game says about itself for a key.
#[derive(Clone, Copy, Debug, PartialEq, Eq, Structural)]
pub struct UiView {
    pub debug_enabled: bool,
    /// The chosen save slot holds a save.
    pub slot_saved: bool,
    pub bag_len: usize,
    pub on_stairs: bool,
    /// An item lies under the player.
    pub ground_item: bool,
    /// Suggestions the debug console shows.
    pub suggestions: usize,
    /// Length in bytes of the line being typed (debug console or new name).
    pub input_len: usize,
}

/// What a key asks the game to do.
#[derive(Clone, Copy, Debug, PartialEq, Eq, Structural)]
pub enum UiAction {
    Nothing,
    Quit,
    SaveAndQuit,
    /// Play in save slot `usize`: its game when it holds one, else a new
    /// game.
    OpenSlot(usize),
    /// Erase the game in save slot `usize`.
    DeleteSlot(usize),
    /// Switch to the next language.
    NextLanguage,
    Move { dx: i32, dy: i32 },
    /// Run straight on, step by step (see `auto_run_step`).
    AutoRun { dx: i32, dy: i32 },
    Attack,
    Wait,
    Use(usize),
    Throw(usize),
    Drop(usize),
    Descend,
    Save,
    DebugType(char),
    DebugErase,
    /// Complete the console line with suggestion `usize`.
    DebugComplete(usize),
    DebugRun,
    VendingPress(usize),
    VendingLeave,
    /// Put bag entry `selected` into grid cell `cursor`.
    CraftPlace { cursor: usize, selected: usize },
    CraftCraft,
    CraftLeave,
    Restart,
    /// Save, then show the title.
    SaveToTitle,
    RenameType(char),
    RenameErase,
    /// Give bag entry `usize` the typed name.
    RenameDone(usize),
    /// Move bag entry `from` to position `to`.
    MoveEntry { from: usize, to: usize },
    /// Pick up the item under the player, then name it.
    GroundRename,
    /// Pick up the item under the player, then throw it.
    GroundThrow,
    /// Pick up the item under the player, then use it.
    GroundUse,
    /// Pick up the item under the player.
    GroundPick,
    /// Swap bag entry `usize` with the item under the player.
    GroundSwapWith(usize),
}

/// Title menu entries.
pub const TITLE_ENTRIES: usize = 3;
/// Save slots.
pub const SAVE_SLOTS: usize = 3;
/// The longest debug console line, in bytes.
pub const DEBUG_INPUT_MAX: usize = 128;
/// Entries of the game menu: items, crafting, settings, hints, at the
/// feet, to the title, exit.
pub const MENU_ENTRIES: usize = 7;
/// Actions on a bag entry: rename, drop, throw, use.
pub const ITEM_ACTIONS: usize = 4;
/// Actions on the item under the player: rename, throw, use, pick up,
/// swap.
pub const GROUND_ACTIONS: usize = 5;
/// The longest new name, in bytes.
pub const NAME_INPUT_MAX: usize = 24;

/// A letter key in lower case; other keys as they are.
pub open spec fn key_lower(k: Key) -> Key {
    match k {
        Key::Char(c) => Key::Char(spec_lower_char(c)),
        _ => k,
    }
}

fn lower_key(k: Key) -> (r: Key)
    ensures
        r == key_lower(k),
{
    match k {
        Key::Char(c) => Key::Char(lower_char(c)),
        _ => k,
    }
}

/// A control character, which the debug console does not take.
pub open spec fn is_control_spec(c: char) -> bool {
    (c as u32) < 0x20 || (0x7f <= (c as u32) && (c as u32) <= 0x9f)
}

fn is_control(c: char) -> (b: bool)
    ensures
        b == is_control_spec(c),
{
    let v = c as u32;
    v < 0x20 || (0x7f <= v && v <= 0x9f)
}

/// The step a movement key makes, in either case: `w a s d` and the arrows
/// go straight, `q e z c` diagonally.
pub open spec fn movement_spec(k: Key) -> Option<(i32, i32)> {
    match key_lower(k) {
        Key::Char(c) => if c == 'w' {
            Some((0i32, -1i32))
        } else if c == 's' {
            Some((0i32, 1i32))
        } else if c == 'a' {
            Some((-1i32, 0i32))
        } else if c == 'd' {
            Some((1i32, 0i32))
        } else if c == 'q' {
            Some((-1i32, -1i32))
        } else if c == 'e' {
            Some((1i32, -1i32))
        } else if c == 'z' {
            Some((-1i32, 1i32))
        } else if c == 'c' {
            Some((1i32, 1i32))
        } else {
            None
        },
        Key::Up => Some((0i32, -1i32)),
        Key::Down => Some((0i32, 1i32)),
        Key::Left => Some((-1i32, 0i32)),
        Key::Right => Some((1i32, 0i32)),
        _ => None,
    }
}

/// The step a movement key makes (see `movement_spec`).
pub fn movement_delta(k: Key) -> (d: Option<(i32, i32)>)
    ensures
        d == movement_spec(k),
{
    match lower_key(k) {
        Key::Char(c) => if c == 'w' {
            Some((0, -1))
        } else if c == 's' {
            Some((0, 1))
        } else if c == 'a' {
            Some((-1, 0))
        } else if c == 'd' {
            Some((1, 0))
        } else if c == 'q' {
            Some((-1, -1))
        } else if c == 'e' {
            Some((1, -1))
        } else if c == 'z' {
            Some((-1, 1))
        } else if c == 'c' {
            Some((1, 1))
        } else {
            None
        },
        Key::Up => Some((0, -1)),
        Key::Down => Some((0, 1)),
        Key::Left => Some((-1, 0)),
        Key::Right => Some((1, 0)),
        _ => None,
    }
}

/// The quick-bar entry a digit uses: `1` to `9` the first nine, `0` the
/// tenth.
pub open spec fn quickbar_spec(c: char) -> Option<usize> {
    if c == '0' {
        Some(9usize)
    } else if '1' <= c <= '9' {
        Some((c as u32 - '1' as u32) as usize)
    } else {
        None
    }
}

fn quickbar(c: char) -> (r: Option<usize>)
    ensures
        r == quickbar_spec(c),
{
    if c == '0' {
        Some(9)
    } else if '1' <= c && c <= '9' {
        Some((c as u32 - '1' as u32) as usize)
    } else {
        None
    }
}

/// The menu and back key.
pub open spec fn is_back(k: Key) -> bool {
    k == Key::Esc || k == Key::Char('v')
}

/// The confirm key.
pub open spec fn is_confirm(k: Key) -> bool {
    k == Key::Enter || k == Key::Char('f')
}

/// The title menu: Up and Down choose; confirm opens the save slots, the
/// settings, or exits; Esc exits.
pub open spec fn title_step(sel: usize, k: Key) -> (UiState, UiAction) {
    if k == Key::Up || k == Key::Char('w') {
        (UiState::Title { selected: if sel > 0 { (sel - 1) as usize } else { 0 } }, UiAction::Nothing)
    } else if k == Key::Down || k == Key::Char('s') {
        (UiState::Title { selected: if sel + 1 < TITLE_ENTRIES { (sel + 1) as usize } else { sel } }, UiAction::Nothing)
    } else if is_confirm(k) {
        if sel == 0 {
            (UiState::Slots { selected: 0 }, UiAction::Nothing)
        } else if sel == 1 {
            (UiState::Settings, UiAction::Nothing)
        } else {
            (UiState::Title { selected: sel }, UiAction::Quit)
        }
    } else if k == Key::Esc {
        (UiState::Title { selected: sel }, UiAction::Quit)
    } else {
        (UiState::Title { selected: sel }, UiAction::Nothing)
    }
}

/// The save slots: Up and Down choose; confirm plays in the chosen slot;
/// `x` or Backspace asks whether to erase its save, when it holds one;
/// back returns to the title.
pub open spec fn slots_step(sel: usize, k: Key, v: UiView) -> (UiState, UiAction) {
    if k == Key::Up || k == Key::Char('w') {
        (UiState::Slots { selected: if sel > 0 { (sel - 1) as usize } else { 0 } }, UiAction::Nothing)
    } else if k == Key::Down || k == Key::Char('s') {
        (UiState::Slots { selected: if sel + 1 < SAVE_SLOTS { (sel + 1) as usize } else { sel } }, UiAction::Nothing)
    } else if is_confirm(k) {
        if sel < SAVE_SLOTS { (UiState::Play, UiAction::OpenSlot(sel)) } else { (UiState::Slots { selected: sel }, UiAction::Nothing) }
    } else if k == Key::Char('x') || k == Key::Backspace {
        (if sel < SAVE_SLOTS && v.slot_saved { UiState::DeleteConfirm { selected: sel } } else { UiState::Slots { selected: sel } }, UiAction::Nothing)
    } else if is_back(k) {
        (UiState::Title { selected: 0 }, UiAction::Nothing)
    } else {
        (UiState::Slots { selected: sel }, UiAction::Nothing)
    }
}

/// Erasing a save: confirm erases it; back keeps it; either returns to the
/// slots.
pub open spec fn delete_confirm_step(sel: usize, k: Key) -> (UiState, UiAction) {
    if is_confirm(k) {
        (UiState::Slots { selected: sel }, UiAction::DeleteSlot(sel))
    } else if is_back(k) {
        (UiState::Slots { selected: sel }, UiAction::Nothing)
    } else {
        (UiState::DeleteConfirm { selected: sel }, UiAction::Nothing)
    }
}

/// The stairs prompt: Up, Left, `w` or `a` choose to go down; Down, Right,
/// `s` or `d` to stay; confirm does what is chosen; back stays.
pub open spec fn stairs_step(descend: bool, k: Key) -> (UiState, UiAction) {
    if k == Key::Up || k == Key::Left || k == Key::Char('w') || k == Key::Char('a') {
        (UiState::Stairs { descend: true }, UiAction::Nothing)
    } else if k == Key::Down || k == Key::Right || k == Key::Char('s') || k == Key::Char('d') {
        (UiState::Stairs { descend: false }, UiAction::Nothing)
    } else if is_confirm(k) {
        (UiState::Play, if descend { UiAction::Descend } else { UiAction::Nothing })
    } else if is_back(k) {
        (UiState::Play, UiAction::Nothing)
    } else {
        (UiState::Stairs { descend }, UiAction::Nothing)
    }
}

/// A message: Esc, confirm or `v` dismiss it.
pub open spec fn dialogue_step(k: Key) -> (UiState, UiAction) {
    if k == Key::Esc || is_confirm(k) || k == Key::Char('v') {
        (UiState::Play, UiAction::Nothing)
    } else {
        (UiState::Dialogue, UiAction::Nothing)
    }
}

/// Moving a bag entry: Up/`w` and Down/`s` move it one place; Shift+`f`
/// puts it down; back returns to the game menu; other keys do nothing.
pub open spec fn inventory_move_step(sel: usize, k: Key, raw: Key, v: UiView) -> (UiState, UiAction) {
    if raw == Key::Char('F') {
        (UiState::Inventory { selected: sel }, UiAction::Nothing)
    } else if is_back(k) {
        (UiState::Menu { selected: 0 }, UiAction::Nothing)
    } else if k == Key::Up || k == Key::Char('w') {
        if sel > 0 && sel < v.bag_len {
            (UiState::InventoryMove { selected: (sel - 1) as usize }, UiAction::MoveEntry { from: sel, to: (sel - 1) as usize })
        } else {
            (UiState::InventoryMove { selected: sel }, UiAction::Nothing)
        }
    } else if k == Key::Down || k == Key::Char('s') {
        if sel + 1 < v.bag_len {
            (UiState::InventoryMove { selected: (sel + 1) as usize }, UiAction::MoveEntry { from: sel, to: (sel + 1) as usize })
        } else {
            (UiState::InventoryMove { selected: sel }, UiAction::Nothing)
        }
    } else {
        (UiState::InventoryMove { selected: sel }, UiAction::Nothing)
    }
}

/// The game menu: Up/`w` and Down/`s` choose; back returns to the map;
/// confirm opens the bag, the crafting grid, the settings or the hints,
/// looks at the feet (the stairs prompt on the stairs), saves and shows
/// the title, or saves and exits.
pub open spec fn menu_step(sel: usize, k: Key, v: UiView) -> (UiState, UiAction) {
    if k == Key::Up || k == Key::Char('w') {
        (UiState::Menu { selected: if sel > 0 { (sel - 1) as usize } else { 0 } }, UiAction::Nothing)
    } else if k == Key::Down || k == Key::Char('s') {
        (UiState::Menu { selected: if sel + 1 < MENU_ENTRIES { (sel + 1) as usize } else { sel } }, UiAction::Nothing)
    } else if is_back(k) {
        (UiState::Play, UiAction::Nothing)
    } else if is_confirm(k) {
        if sel == 0 {
            (UiState::Inventory { selected: 0 }, UiAction::Nothing)
        } else if sel == 1 {
            (UiState::Craft { cursor: 0, selected: 0 }, UiAction::Nothing)
        } else if sel == 2 {
            (UiState::GameSettings, UiAction::Nothing)
        } else if sel == 3 {
            (UiState::Hints, UiAction::Nothing)
        } else if sel == 4 {
            (
                if v.on_stairs {
                    UiState::Stairs { descend: true }
                } else if v.ground_item {
                    UiState::GroundMenu { action: 0 }
                } else {
                    UiState::Play
                },
                UiAction::Nothing,
            )
        } else if sel == 5 {
            (UiState::Title { selected: 0 }, UiAction::SaveToTitle)
        } else {
            (UiState::Menu { selected: sel }, UiAction::SaveAndQuit)
        }
    } else {
        (UiState::Menu { selected: sel }, UiAction::Nothing)
    }
}

/// The hints: Esc or `v` return to the game menu.
pub open spec fn hints_step(k: Key) -> (UiState, UiAction) {
    if k == Key::Esc || k == Key::Char('v') {
        (UiState::Menu { selected: 0 }, UiAction::Nothing)
    } else {
        (UiState::Hints, UiAction::Nothing)
    }
}

/// The settings from the game menu: confirm, Left or Right switch the
/// language; back returns to the menu.
pub open spec fn game_settings_step(k: Key) -> (UiState, UiAction) {
    if is_confirm(k) || k == Key::Left || k == Key::Right {
        (UiState::GameSettings, UiAction::NextLanguage)
    } else if is_back(k) {
        (UiState::Menu { selected: 2 }, UiAction::Nothing)
    } else {
        (UiState::GameSettings, UiAction::Nothing)
    }
}

/// A bag entry's actions: back returns to the bag; Up/`w` and Down/`s`
/// choose; confirm renames, drops, throws or uses the entry (the map
/// shows again once that took a turn).
pub open spec fn item_menu_step(sel: usize, a: usize, k: Key) -> (UiState, UiAction) {
    if is_back(k) {
        (UiState::Inventory { selected: sel }, UiAction::Nothing)
    } else if k == Key::Up || k == Key::Char('w') {
        (UiState::ItemMenu { selected: sel, action: if a > 0 { (a - 1) as usize } else { 0 } }, UiAction::Nothing)
    } else if k == Key::Down || k == Key::Char('s') {
        (UiState::ItemMenu { selected: sel, action: if a + 1 < ITEM_ACTIONS { (a + 1) as usize } else { a } }, UiAction::Nothing)
    } else if is_confirm(k) {
        if a == 0 {
            (UiState::Rename { selected: sel }, UiAction::Nothing)
        } else if a == 1 {
            (UiState::ItemMenu { selected: sel, action: a }, UiAction::Drop(sel))
        } else if a == 2 {
            (UiState::ItemMenu { selected: sel, action: a }, UiAction::Throw(sel))
        } else {
            (UiState::ItemMenu { selected: sel, action: a }, UiAction::Use(sel))
        }
    } else {
        (UiState::ItemMenu { selected: sel, action: a }, UiAction::Nothing)
    }
}

/// Typing a name: back returns to the entry's actions; confirm gives the
/// name; Backspace erases; another character (as typed, not a control
/// character) is added while the name is shorter than its limit.
pub open spec fn rename_step(sel: usize, k: Key, raw: Key, v: UiView) -> (UiState, UiAction) {
    if is_back(k) {
        (UiState::ItemMenu { selected: sel, action: 0 }, UiAction::Nothing)
    } else if is_confirm(k) {
        (UiState::ItemMenu { selected: sel, action: 0 }, UiAction::RenameDone(sel))
    } else if k == Key::Backspace {
        (UiState::Rename { selected: sel }, UiAction::RenameErase)
    } else if raw matches Key::Char(c) {
        (
            UiState::Rename { selected: sel },
            if v.input_len < NAME_INPUT_MAX && !is_control_spec(raw->Char_0) {
                UiAction::RenameType(raw->Char_0)
            } else {
                UiAction::Nothing
            },
        )
    } else {
        (UiState::Rename { selected: sel }, UiAction::Nothing)
    }
}

/// The item under the player: back returns to the map; Up/`w` and
/// Down/`s` choose; confirm picks it up to name, throw or use it, picks it
/// up, or (with a bag that is not empty) chooses an entry to swap it with.
pub open spec fn ground_menu_step(a: usize, k: Key, v: UiView) -> (UiState, UiAction) {
    if is_back(k) {
        (UiState::Play, UiAction::Nothing)
    } else if k == Key::Up || k == Key::Char('w') {
        (UiState::GroundMenu { action: if a > 0 { (a - 1) as usize } else { 0 } }, UiAction::Nothing)
    } else if k == Key::Down || k == Key::Char('s') {
        (UiState::GroundMenu { action: if a + 1 < GROUND_ACTIONS { (a + 1) as usize } else { a } }, UiAction::Nothing)
    } else if is_confirm(k) {
        if a == 0 {
            (UiState::Play, UiAction::GroundRename)
        } else if a == 1 {
            (UiState::Play, UiAction::GroundThrow)
        } else if a == 2 {
            (UiState::Play, UiAction::GroundUse)
        } else if a == 3 {
            (UiState::Play, UiAction::GroundPick)
        } else if v.bag_len > 0 {
            (UiState::GroundSwap { selected: 0 }, UiAction::Nothing)
        } else {
            (UiState::GroundMenu { action: 0 }, UiAction::Nothing)
        }
    } else {
        (UiState::GroundMenu { action: a }, UiAction::Nothing)
    }
}

/// Choosing what to swap: back returns to the item's actions; Up/`w` and
/// Down/`s` choose; confirm swaps (the map shows again once that took a
/// turn).
pub open spec fn ground_swap_step(sel: usize, k: Key, v: UiView) -> (UiState, UiAction) {
    if is_back(k) {
        (UiState::GroundMenu { action: 0 }, UiAction::Nothing)
    } else if k == Key::Up || k == Key::Char('w') {
        (UiState::GroundSwap { selected: if sel > 0 { (sel - 1) as usize } else { 0 } }, UiAction::Nothing)
    } else if k == Key::Down || k == Key::Char('s') {
        (UiState::GroundSwap { selected: if sel + 1 < v.bag_len { (sel + 1) as usize } else { sel } }, UiAction::Nothing)
    } else if is_confirm(k) {
        (UiState::GroundMenu { action: 0 }, if sel < v.bag_len { UiAction::GroundSwapWith(sel) } else { UiAction::Nothing })
    } else {
        (UiState::GroundSwap { selected: sel }, UiAction::Nothing)
    }
}

/// The settings: confirm, Left or Right switch the language; back returns
/// to the title.
pub open spec fn settings_step(k: Key) -> (UiState, UiAction) {
    if is_confirm(k) || k == Key::Left || k == Key::Right {
        (UiState::Settings, UiAction::NextLanguage)
    } else if is_back(k) {
        (UiState::Title { selected: 1 }, UiAction::Nothing)
    } else {
        (UiState::Settings, UiAction::Nothing)
    }
}

/// The map: Esc saves and quits; `v` or `m` open the game menu, `i` or Tab the bag; `k` the
/// crafting grid; `/` the debug console when debugging; `>` or Enter go
/// down the stairs the player stands on; the save key saves; a digit uses
/// that quick-bar entry; `f` attacks; Space waits; a movement key moves,
/// or with Ctrl runs.
pub open spec fn play_step(inp: KeyInput, v: UiView) -> (UiState, UiAction) {
    let k = inp.key;
    if k == Key::Esc {
        (UiState::Play, UiAction::SaveAndQuit)
    } else if k == Key::Char('v') || k == Key::Char('m') {
        (UiState::Menu { selected: 0 }, UiAction::Nothing)
    } else if k == Key::Char('i') || k == Key::Tab {
        (UiState::Inventory { selected: 0 }, UiAction::Nothing)
    } else if k == Key::Char('k') {
        (UiState::Craft { cursor: 0, selected: 0 }, UiAction::Nothing)
    } else if k == Key::Char('/') && v.debug_enabled {
        (UiState::Debug { selected: 0 }, UiAction::Nothing)
    } else if k == Key::Char('>') || k == Key::Enter {
        (if v.on_stairs { UiState::Stairs { descend: true } } else { UiState::Play }, UiAction::Nothing)
    } else if k == Key::Save {
        (UiState::Play, UiAction::Save)
    } else if k matches Key::Char(c) && quickbar_spec(c) is Some {
        let idx = quickbar_spec(k->Char_0)->0;
        (UiState::Play, if idx < v.bag_len { UiAction::Use(idx) } else { UiAction::Nothing })
    } else if k == Key::Char('f') {
        (UiState::Play, UiAction::Attack)
    } else if k == Key::Char(' ') {
        (UiState::Play, UiAction::Wait)
    } else {
        match movement_spec(k) {
            Some(d) => (
                UiState::Play,
                if inp.ctrl { UiAction::AutoRun { dx: d.0, dy: d.1 } } else { UiAction::Move { dx: d.0, dy: d.1 } },
            ),
            None => (UiState::Play, UiAction::Nothing),
        }
    }
}

/// The bag: back returns to the game menu, `i` or Tab to the map; Up/`w`
/// and Down/`s` choose; Shift+`f` picks the chosen entry up to move it;
/// confirm opens its actions, `t` throws and `d` drops it.
pub open spec fn inventory_step(sel: usize, k: Key, raw: Key, v: UiView) -> (UiState, UiAction) {
    if raw == Key::Char('F') {
        (if v.bag_len > 0 { UiState::InventoryMove { selected: sel } } else { UiState::Inventory { selected: sel } }, UiAction::Nothing)
    } else if is_back(k) {
        (UiState::Menu { selected: 0 }, UiAction::Nothing)
    } else if k == Key::Char('i') || k == Key::Tab {
        (UiState::Play, UiAction::Nothing)
    } else if k == Key::Up || k == Key::Char('w') {
        (UiState::Inventory { selected: if sel > 0 { (sel - 1) as usize } else { 0 } }, UiAction::Nothing)
    } else if k == Key::Down || k == Key::Char('s') {
        (UiState::Inventory { selected: if sel + 1 < v.bag_len { (sel + 1) as usize } else { sel } }, UiAction::Nothing)
    } else if is_confirm(k) {
        (if sel < v.bag_len { UiState::ItemMenu { selected: sel, action: 0 } } else { UiState::Inventory { selected: sel } }, UiAction::Nothing)
    } else if k == Key::Char('t') {
        (UiState::Inventory { selected: sel }, if sel < v.bag_len { UiAction::Throw(sel) } else { UiAction::Nothing })
    } else if k == Key::Char('d') {
        (UiState::Inventory { selected: sel }, UiAction::Drop(sel))
    } else {
        (UiState::Inventory { selected: sel }, UiAction::Nothing)
    }
}

/// The debug console: Esc closes it; Up/`w` and Down/`s` choose a suggestion; Tab
/// completes with it; Enter runs the line; Backspace erases; another
/// character (as typed, not a control character) is added while the line
/// is shorter than its limit. Keys are read in either case elsewhere.
pub open spec fn debug_step(sel: usize, k: Key, raw: Key, v: UiView) -> (UiState, UiAction) {
    if k == Key::Esc {
        (UiState::Play, UiAction::Nothing)
    } else if k == Key::Up || k == Key::Char('w') {
        (UiState::Debug { selected: if v.suggestions > 0 && sel > 0 { (sel - 1) as usize } else { sel } }, UiAction::Nothing)
    } else if k == Key::Down || k == Key::Char('s') {
        (
            UiState::Debug {
                selected: if v.suggestions > 0 {
                    if sel + 1 < v.suggestions { (sel + 1) as usize } else { (v.suggestions - 1) as usize }
                } else {
                    sel
                },
            },
            UiAction::Nothing,
        )
    } else if k == Key::Tab {
        if sel < v.suggestions {
            (UiState::Debug { selected: 0 }, UiAction::DebugComplete(sel))
        } else {
            (UiState::Debug { selected: sel }, UiAction::Nothing)
        }
    } else if k == Key::Enter {
        (UiState::Play, UiAction::DebugRun)
    } else if k == Key::Backspace {
        (UiState::Debug { selected: 0 }, UiAction::DebugErase)
    } else if raw matches Key::Char(c) {
        (
            UiState::Debug { selected: 0 },
            if v.input_len < DEBUG_INPUT_MAX && !is_control_spec(raw->Char_0) {
                UiAction::DebugType(raw->Char_0)
            } else {
                UiAction::Nothing
            },
        )
    } else {
        (UiState::Debug { selected: sel }, UiAction::Nothing)
    }
}

/// A vending machine: back leaves (returning what was inserted); confirm
/// presses the button under the cursor; a movement key moves the cursor.
pub open spec fn vending_step(cursor: usize, k: Key) -> (UiState, UiAction) {
    if is_back(k) {
        (UiState::Play, UiAction::VendingLeave)
    } else if is_confirm(k) {
        (UiState::Vending { cursor }, UiAction::VendingPress(cursor))
    } else {
        match movement_spec(k) {
            Some(d) => (
                UiState::Vending {
                    cursor: if cursor <= 12 { vending_cursor_spec(cursor as int, d.0 as int, d.1 as int) as usize } else { cursor },
                },
                UiAction::Nothing,
            ),
            None => (UiState::Vending { cursor }, UiAction::Nothing),
        }
    }
}

/// The crafting grid: back leaves it for the game menu; `[` and `]` choose a bag entry;
/// confirm places it under the cursor; `x` crafts; a movement key moves
/// the cursor on the three-by-three grid.
pub open spec fn craft_step(cursor: usize, sel: usize, k: Key, v: UiView) -> (UiState, UiAction) {
    if is_back(k) {
        (UiState::Menu { selected: 1 }, UiAction::CraftLeave)
    } else if k == Key::Char('[') {
        (UiState::Craft { cursor, selected: if sel > 0 { (sel - 1) as usize } else { 0 } }, UiAction::Nothing)
    } else if k == Key::Char(']') {
        (
            UiState::Craft {
                cursor,
                selected: if v.bag_len > 0 {
                    if sel + 1 < v.bag_len { (sel + 1) as usize } else { (v.bag_len - 1) as usize }
                } else {
                    0
                },
            },
            UiAction::Nothing,
        )
    } else if is_confirm(k) {
        (UiState::Craft { cursor, selected: sel }, UiAction::CraftPlace { cursor, selected: sel })
    } else if k == Key::Char('x') {
        (UiState::Craft { cursor, selected: sel }, UiAction::CraftCraft)
    } else {
        match movement_spec(k) {
            Some(d) => (
                UiState::Craft {
                    cursor: if cursor < 9 {
                        (clamp3(cursor as int / 3 + d.1) * 3 + clamp3(cursor as int % 3 + d.0)) as usize
                    } else {
                        cursor
                    },
                    selected: sel,
                },
                UiAction::Nothing,
            ),
            None => (UiState::Craft { cursor, selected: sel }, UiAction::Nothing),
        }
    }
}

/// The step of the game's screens: letters count in either case; Ctrl+C
/// quits from anywhere; otherwise each screen's own step decides.
pub open spec fn ui_step_spec(state: UiState, inp: KeyInput, v: UiView) -> (UiState, UiAction) {
    let k = key_lower(inp.key);
    if inp.ctrl && k == Key::Char('c') {
        (state, UiAction::Quit)
    } else {
        match state {
            UiState::Title { selected } => title_step(selected, k),
            UiState::Slots { selected } => slots_step(selected, k, v),
            UiState::DeleteConfirm { selected } => delete_confirm_step(selected, k),
            UiState::Stairs { descend } => stairs_step(descend, k),
            UiState::Dialogue => dialogue_step(k),
            UiState::Menu { selected } => menu_step(selected, k, v),
            UiState::Hints => hints_step(k),
            UiState::GameSettings => game_settings_step(k),
            UiState::ItemMenu { selected, action } => item_menu_step(selected, action, k),
            UiState::Rename { selected } => rename_step(selected, k, inp.key, v),
            UiState::GroundMenu { action } => ground_menu_step(action, k, v),
            UiState::GroundSwap { selected } => ground_swap_step(selected, k, v),
            UiState::Settings => settings_step(k),
            UiState::Play => play_step(KeyInput { key: k, ctrl: inp.ctrl }, v),
            UiState::Inventory { selected } => inventory_step(selected, k, inp.key, v),
            UiState::InventoryMove { selected } => inventory_move_step(selected, k, inp.key, v),
            UiState::Debug { selected } => debug_step(selected, k, inp.key, v),
            UiState::Vending { cursor } => vending_step(cursor, k),
            UiState::Craft { cursor, selected } => craft_step(cursor, selected, k, v),
            UiState::Dead => if k == Key::Char('r') {
                (UiState::Play, UiAction::Restart)
            } else if k == Key::Esc {
                (UiState::Dead, UiAction::Quit)
            } else {
                (UiState::Dead, UiAction::Nothing)
            },
        }
    }
}

fn back(k: Key) -> (b: bool)
    ensures
        b == is_back(k),
{
    k == Key::Esc || k == Key::Char('v')
}

fn confirm(k: Key) -> (b: bool)
    ensures
        b == is_confirm(k),
{
    k == Key::Enter || k == Key::Char('f')
}

fn step_title(sel: usize, k: Key, inp: KeyInput, view: UiView) -> (r: (UiState, UiAction))
    requires
        k == key_lower(inp.key),
        !(inp.ctrl && k == Key::Char('c')),
    ensures
        r == ui_step_spec(UiState::Title { selected: sel }, inp, view),
{
    if k == Key::Up || k == Key::Char('w') {
        (UiState::Title { selected: if sel > 0 { sel - 1 } else { 0 } }, UiAction::Nothing)
    } else if k == Key::Down || k == Key::Char('s') {
        (UiState::Title { selected: if sel < TITLE_ENTRIES - 1 { sel + 1 } else { sel } }, UiAction::Nothing)
    } else if confirm(k) {
        if sel == 0 {
            (UiState::Slots { selected: 0 }, UiAction::Nothing)
        } else if sel == 1 {
            (UiState::Settings, UiAction::Nothing)
        } else {
            (UiState::Title { selected: sel }, UiAction::Quit)
        }
    } else if k == Key::Esc {
        (UiState::Title { selected: sel }, UiAction::Quit)
    } else {
        (UiState::Title { selected: sel }, UiAction::Nothing)
    }
}

fn step_slots(sel: usize, k: Key, inp: KeyInput, view: UiView) -> (r: (UiState, UiAction))
    requires
        k == key_lower(inp.key),
        !(inp.ctrl && k == Key::Char('c')),
    ensures
        r == ui_step_spec(UiState::Slots { selected: sel }, inp, view),
{
    if k == Key::Up || k == Key::Char('w') {
        (UiState::Slots { selected: if sel > 0 { sel - 1 } else { 0 } }, UiAction::Nothing)
    } else if k == Key::Down || k == Key::Char('s') {
        (UiState::Slots { selected: if sel < SAVE_SLOTS - 1 { sel + 1 } else { sel } }, UiAction::Nothing)
    } else if confirm(k) {
        if sel < SAVE_SLOTS { (UiState::Play, UiAction::OpenSlot(sel)) } else { (UiState::Slots { selected: sel }, UiAction::Nothing) }
    } else if k == Key::Char('x') || k == Key::Backspace {
        (if sel < SAVE_SLOTS && view.slot_saved { UiState::DeleteConfirm { selected: sel } } else { UiState::Slots { selected: sel } }, UiAction::Nothing)
    } else if back(k) {
        (UiState::Title { selected: 0 }, UiAction::Nothing)
    } else {
        (UiState::Slots { selected: sel }, UiAction::Nothing)
    }
}

fn step_delete_confirm(sel: usize, k: Key, inp: KeyInput, view: UiView) -> (r: (UiState, UiAction))
    requires
        k == key_lower(inp.key),
        !(inp.ctrl && k == Key::Char('c')),
    ensures
        r == ui_step_spec(UiState::DeleteConfirm { selected: sel }, inp, view),
{
    if confirm(k) {
        (UiState::Slots { selected: sel }, UiAction::DeleteSlot(sel))
    } else if back(k) {
        (UiState::Slots { selected: sel }, UiAction::Nothing)
    } else {
        (UiState::DeleteConfirm { selected: sel }, UiAction::Nothing)
    }
}

fn step_stairs(descend: bool, k: Key, inp: KeyInput, view: UiView) -> (r: (UiState, UiAction))
    requires
        k == key_lower(inp.key),
        !(inp.ctrl && k == Key::Char('c')),
    ensures
        r == ui_step_spec(UiState::Stairs { descend }, inp, view),
{
    if k == Key::Up || k == Key::Left || k == Key::Char('w') || k == Key::Char('a') {
        (UiState::Stairs { descend: true }, UiAction::Nothing)
    } else if k == Key::Down || k == Key::Right || k == Key::Char('s') || k == Key::Char('d') {
        (UiState::Stairs { descend: false }, UiAction::Nothing)
    } else if confirm(k) {
        (UiState::Play, if descend { UiAction::Descend } else { UiAction::Nothing })
    } else if back(k) {
        (UiState::Play, UiAction::Nothing)
    } else {
        (UiState::Stairs { descend }, UiAction::Nothing)
    }
}

fn step_dialogue(k: Key, inp: KeyInput, view: UiView) -> (r: (UiState, UiAction))
    requires
        k == key_lower(inp.key),
        !(inp.ctrl && k == Key::Char('c')),
    ensures
        r == ui_step_spec(UiState::Dialogue, inp, view),
{
    if k == Key::Esc || confirm(k) || k == Key::Char('v') {
        (UiState::Play, UiAction::Nothing)
    } else {
        (UiState::Dialogue, UiAction::Nothing)
    }
}

fn step_menu(sel: usize, k: Key, inp: KeyInput, view: UiView) -> (r: (UiState, UiAction))
    requires
        k == key_lower(inp.key),
        !(inp.ctrl && k == Key::Char('c')),
    ensures
        r == ui_step_spec(UiState::Menu { selected: sel }, inp, view),
{
    if k == Key::Up || k == Key::Char('w') {
        (UiState::Menu { selected: if sel > 0 { sel - 1 } else { 0 } }, UiAction::Nothing)
    } else if k == Key::Down || k == Key::Char('s') {
        (UiState::Menu { selected: if sel < MENU_ENTRIES - 1 { sel + 1 } else { sel } }, UiAction::Nothing)
    } else if back(k) {
        (UiState::Play, UiAction::Nothing)
    } else if confirm(k) {
        if sel == 0 {
            (UiState::Inventory { selected: 0 }, UiAction::Nothing)
        } else if sel == 1 {
            (UiState::Craft { cursor: 0, selected: 0 }, UiAction::Nothing)
        } else if sel == 2 {
            (UiState::GameSettings, UiAction::Nothing)
        } else if sel == 3 {
            (UiState::Hints, UiAction::Nothing)
        } else if sel == 4 {
            (
                if view.on_stairs {
                    UiState::Stairs { descend: true }
                } else if view.ground_item {
                    UiState::GroundMenu { action: 0 }
                } else {
                    UiState::Play
                },
                UiAction::Nothing,
            )
        } else if sel == 5 {
            (UiState::Title { selected: 0 }, UiAction::SaveToTitle)
        } else {
            (UiState::Menu { selected: sel }, UiAction::SaveAndQuit)
        }
    } else {
        (UiState::Menu { selected: sel }, UiAction::Nothing)
    }
}

fn step_hints(k: Key, inp: KeyInput, view: UiView) -> (r: (UiState, UiAction))
    requires
        k == key_lower(inp.key),
        !(inp.ctrl && k == Key::Char('c')),
    ensures
        r == ui_step_spec(UiState::Hints, inp, view),
{
    if k == Key::Esc || k == Key::Char('v') {
        (UiState::Menu { selected: 0 }, UiAction::Nothing)
    } else {
        (UiState::Hints, UiAction::Nothing)
    }
}

fn step_game_settings(k: Key, inp: KeyInput, view: UiView) -> (r: (UiState, UiAction))
    requires
        k == key_lower(inp.key),
        !(inp.ctrl && k == Key::Char('c')),
    ensures
        r == ui_step_spec(UiState::GameSettings, inp, view),
{
    if confirm(k) || k == Key::Left || k == Key::Right {
        (UiState::GameSettings, UiAction::NextLanguage)
    } else if back(k) {
        (UiState::Menu { selected: 2 }, UiAction::Nothing)
    } else {
        (UiState::GameSettings, UiAction::Nothing)
    }
}

fn step_item_menu(sel: usize, a: usize, k: Key, inp: KeyInput, view: UiView) -> (r: (UiState, UiAction))
    requires
        k == key_lower(inp.key),
        !(inp.ctrl && k == Key::Char('c')),
    ensures
        r == ui_step_spec(UiState::ItemMenu { selected: sel, action: a }, inp, view),
{
    if back(k) {
        (UiState::Inventory { selected: sel }, UiAction::Nothing)
    } else if k == Key::Up || k == Key::Char('w') {
        (UiState::ItemMenu { selected: sel, action: if a > 0 { a - 1 } else { 0 } }, UiAction::Nothing)
    } else if k == Key::Down || k == Key::Char('s') {
        (UiState::ItemMenu { selected: sel, action: if a < ITEM_ACTIONS - 1 { a + 1 } else { a } }, UiAction::Nothing)
    } else if confirm(k) {
        if a == 0 {
            (UiState::Rename { selected: sel }, UiAction::Nothing)
        } else if a == 1 {
            (UiState::ItemMenu { selected: sel, action: a }, UiAction::Drop(sel))
        } else if a == 2 {
            (UiState::ItemMenu { selected: sel, action: a }, UiAction::Throw(sel))
        } else {
            (UiState::ItemMenu { selected: sel, action: a }, UiAction::Use(sel))
        }
    } else {
        (UiState::ItemMenu { selected: sel, action: a }, UiAction::Nothing)
    }
}

fn step_inventory_move(sel: usize, k: Key, inp: KeyInput, view: UiView) -> (r: (UiState, UiAction))
    requires
        k == key_lower(inp.key),
        !(inp.ctrl && k == Key::Char('c')),
    ensures
        r == ui_step_spec(UiState::InventoryMove { selected: sel }, inp, view),
{
    if inp.key == Key::Char('F') {
        (UiState::Inventory { selected: sel }, UiAction::Nothing)
    } else if back(k) {
        (UiState::Menu { selected: 0 }, UiAction::Nothing)
    } else if k == Key::Up || k == Key::Char('w') {
        if sel > 0 && sel < view.bag_len {
            (UiState::InventoryMove { selected: sel - 1 }, UiAction::MoveEntry { from: sel, to: sel - 1 })
        } else {
            (UiState::InventoryMove { selected: sel }, UiAction::Nothing)
        }
    } else if k == Key::Down || k == Key::Char('s') {
        if sel < view.bag_len && sel + 1 < view.bag_len {
            (UiState::InventoryMove { selected: sel + 1 }, UiAction::MoveEntry { from: sel, to: sel + 1 })
        } else {
            (UiState::InventoryMove { selected: sel }, UiAction::Nothing)
        }
    } else {
        (UiState::InventoryMove { selected: sel }, UiAction::Nothing)
    }
}

fn step_ground_menu(a: usize, k: Key, inp: KeyInput, view: UiView) -> (r: (UiState, UiAction))
    requires
        k == key_lower(inp.key),
        !(inp.ctrl && k == Key::Char('c')),
    ensures
        r == ui_step_spec(UiState::GroundMenu { action: a }, inp, view),
{
    if back(k) {
        (UiState::Play, UiAction::Nothing)
    } else if k == Key::Up || k == Key::Char('w') {
        (UiState::GroundMenu { action: if a > 0 { a - 1 } else { 0 } }, UiAction::Nothing)
    } else if k == Key::Down || k == Key::Char('s') {
        (UiState::GroundMenu { action: if a < GROUND_ACTIONS - 1 { a + 1 } else { a } }, UiAction::Nothing)
    } else if confirm(k) {
        if a == 0 {
            (UiState::Play, UiAction::GroundRename)
        } else if a == 1 {
            (UiState::Play, UiAction::GroundThrow)
        } else if a == 2 {
            (UiState::Play, UiAction::GroundUse)
        } else if a == 3 {
            (UiState::Play, UiAction::GroundPick)
        } else if view.bag_len > 0 {
            (UiState::GroundSwap { selected: 0 }, UiAction::Nothing)
        } else {
            (UiState::GroundMenu { action: 0 }, UiAction::Nothing)
        }
    } else {
        (UiState::GroundMenu { action: a }, UiAction::Nothing)
    }
}

fn step_ground_swap(sel: usize, k: Key, inp: KeyInput, view: UiView) -> (r: (UiState, UiAction))
    requires
        k == key_lower(inp.key),
        !(inp.ctrl && k == Key::Char('c')),
    ensures
        r == ui_step_spec(UiState::GroundSwap { selected: sel }, inp, view),
{
    if back(k) {
        (UiState::GroundMenu { action: 0 }, UiAction::Nothing)
    } else if k == Key::Up || k == Key::Char('w') {
        (UiState::GroundSwap { selected: if sel > 0 { sel - 1 } else { 0 } }, UiAction::Nothing)
    } else if k == Key::Down || k == Key::Char('s') {
        (UiState::GroundSwap { selected: if sel < view.bag_len && sel + 1 < view.bag_len { sel + 1 } else { sel } }, UiAction::Nothing)
    } else if confirm(k) {
        (UiState::GroundMenu { action: 0 }, if sel < view.bag_len { UiAction::GroundSwapWith(sel) } else { UiAction::Nothing })
    } else {
        (UiState::GroundSwap { selected: sel }, UiAction::Nothing)
    }
}

fn step_rename(sel: usize, k: Key, inp: KeyInput, view: UiView) -> (r: (UiState, UiAction))
    requires
        k == key_lower(inp.key),
        !(inp.ctrl && k == Key::Char('c')),
    ensures
        r == ui_step_spec(UiState::Rename { selected: sel }, inp, view),
{
    if back(k) {
        (UiState::ItemMenu { selected: sel, action: 0 }, UiAction::Nothing)
    } else if confirm(k) {
        (UiState::ItemMenu { selected: sel, action: 0 }, UiAction::RenameDone(sel))
    } else if k == Key::Backspace {
        (UiState::Rename { selected: sel }, UiAction::RenameErase)
    } else {
        match inp.key {
            Key::Char(c) => (
                UiState::Rename { selected: sel },
                if view.input_len < NAME_INPUT_MAX && !is_control(c) { UiAction::RenameType(c) } else { UiAction::Nothing },
            ),
            _ => (UiState::Rename { selected: sel }, UiAction::Nothing),
        }
    }
}

fn step_settings(k: Key, inp: KeyInput, view: UiView) -> (r: (UiState, UiAction))
    requires
        k == key_lower(inp.key),
        !(inp.ctrl && k == Key::Char('c')),
    ensures
        r == ui_step_spec(UiState::Settings, inp, view),
{
    if confirm(k) || k == Key::Left || k == Key::Right {
        (UiState::Settings, UiAction::NextLanguage)
    } else if back(k) {
        (UiState::Title { selected: 1 }, UiAction::Nothing)
    } else {
        (UiState::Settings, UiAction::Nothing)
    }
}

fn step_play(k: Key, inp: KeyInput, view: UiView) -> (r: (UiState, UiAction))
    requires
        k == key_lower(inp.key),
        !(inp.ctrl && k == Key::Char('c')),
    ensures
        r == ui_step_spec(UiState::Play, inp, view),
{
    if k == Key::Esc {
        (UiState::Play, UiAction::SaveAndQuit)
    } else if k == Key::Char('v') || k == Key::Char('m') {
        (UiState::Menu { selected: 0 }, UiAction::Nothing)
    } else if k == Key::Char('i') || k == Key::Tab {
        (UiState::Inventory { selected: 0 }, UiAction::Nothing)
    } else if k == Key::Char('k') {
        (UiState::Craft { cursor: 0, selected: 0 }, UiAction::Nothing)
    } else if k == Key::Char('/') && view.debug_enabled {
        (UiState::Debug { selected: 0 }, UiAction::Nothing)
    } else if k == Key::Char('>') || k == Key::Enter {
        (if view.on_stairs { UiState::Stairs { descend: true } } else { UiState::Play }, UiAction::Nothing)
    } else if k == Key::Save {
        (UiState::Play, UiAction::Save)
    } else {
        let digit = match k {
            Key::Char(c) => quickbar(c),
            _ => None,
        };
        match digit {
            Some(idx) => (UiState::Play, if idx < view.bag_len { UiAction::Use(idx) } else { UiAction::Nothing }),
            None => if k == Key::Char('f') {
                (UiState::Play, UiAction::Attack)
            } else if k == Key::Char(' ') {
                (UiState::Play, UiAction::Wait)
            } else {
                match movement_delta(k) {
                    Some(d) => (
                        UiState::Play,
                        if inp.ctrl { UiAction::AutoRun { dx: d.0, dy: d.1 } } else { UiAction::Move { dx: d.0, dy: d.1 } },
                    ),
                    None => (UiState::Play, UiAction::Nothing),
                }
            },
        }
    }
}

fn step_inventory(sel: usize, k: Key, inp: KeyInput, view: UiView) -> (r: (UiState, UiAction))
    requires
        k == key_lower(inp.key),
        !(inp.ctrl && k == Key::Char('c')),
    ensures
        r == ui_step_spec(UiState::Inventory { selected: sel }, inp, view),
{
    if inp.key == Key::Char('F') {
        (if view.bag_len > 0 { UiState::InventoryMove { selected: sel } } else { UiState::Inventory { selected: sel } }, UiAction::Nothing)
    } else if back(k) {
        (UiState::Menu { selected: 0 }, UiAction::Nothing)
    } else if k == Key::Char('i') || k == Key::Tab {
        (UiState::Play, UiAction::Nothing)
    } else if k == Key::Up || k == Key::Char('w') {
        (UiState::Inventory { selected: if sel > 0 { sel - 1 } else { 0 } }, UiAction::Nothing)
    } else if k == Key::Down || k == Key::Char('s') {
        (UiState::Inventory { selected: if sel < view.bag_len && sel + 1 < view.bag_len { sel + 1 } else { sel } }, UiAction::Nothing)
    } else if confirm(k) {
        (if sel < view.bag_len { UiState::ItemMenu { selected: sel, action: 0 } } else { UiState::Inventory { selected: sel } }, UiAction::Nothing)
    } else if k == Key::Char('t') {
        (UiState::Inventory { selected: sel }, if sel < view.bag_len { UiAction::Throw(sel) } else { UiAction::Nothing })
    } else if k == Key::Char('d') {
        (UiState::Inventory { selected: sel }, UiAction::Drop(sel))
    } else {
        (UiState::Inventory { selected: sel }, UiAction::Nothing)
    }
}

fn step_debug(sel: usize, k: Key, inp: KeyInput, view: UiView) -> (r: (UiState, UiAction))
    requires
        k == key_lower(inp.key),
        !(inp.ctrl && k == Key::Char('c')),
    ensures
        r == ui_step_spec(UiState::Debug { selected: sel }, inp, view),
{
    if k == Key::Esc {
        (UiState::Play, UiAction::Nothing)
    } else if k == Key::Up || k == Key::Char('w') {
        (UiState::Debug { selected: if view.suggestions > 0 && sel > 0 { sel - 1 } else { sel } }, UiAction::Nothing)
    } else if k == Key::Down || k == Key::Char('s') {
        let s = if view.suggestions > 0 {
            if sel < view.suggestions - 1 { sel + 1 } else { view.suggestions - 1 }
        } else {
            sel
        };
        (UiState::Debug { selected: s }, UiAction::Nothing)
    } else if k == Key::Tab {
        if sel < view.suggestions {
            (UiState::Debug { selected: 0 }, UiAction::DebugComplete(sel))
        } else {
            (UiState::Debug { selected: sel }, UiAction::Nothing)
        }
    } else if k == Key::Enter {
        (UiState::Play, UiAction::DebugRun)
    } else if k == Key::Backspace {
        (UiState::Debug { selected: 0 }, UiAction::DebugErase)
    } else {
        match inp.key {
            Key::Char(c) => (
                UiState::Debug { selected: 0 },
                if view.input_len < DEBUG_INPUT_MAX && !is_control(c) { UiAction::DebugType(c) } else { UiAction::Nothing },
            ),
            _ => (UiState::Debug { selected: sel }, UiAction::Nothing),
        }
    }
}

fn step_vending(cursor: usize, k: Key, inp: KeyInput, view: UiView) -> (r: (UiState, UiAction))
    requires
        k == key_lower(inp.key),
        !(inp.ctrl && k == Key::Char('c')),
    ensures
        r == ui_step_spec(UiState::Vending { cursor }, inp, view),
{
    if back(k) {
        (UiState::Play, UiAction::VendingLeave)
    } else if confirm(k) {
        (UiState::Vending { cursor }, UiAction::VendingPress(cursor))
    } else {
        match movement_delta(k) {
            Some(d) => (
                UiState::Vending { cursor: if cursor <= 12 { move_vending_cursor(cursor, d.0, d.1) } else { cursor } },
                UiAction::Nothing,
            ),
            None => (UiState::Vending { cursor }, UiAction::Nothing),
        }
    }
}

fn step_craft(cursor: usize, sel: usize, k: Key, inp: KeyInput, view: UiView) -> (r: (UiState, UiAction))
    requires
        k == key_lower(inp.key),
        !(inp.ctrl && k == Key::Char('c')),
    ensures
        r == ui_step_spec(UiState::Craft { cursor, selected: sel }, inp, view),
{
    if back(k) {
        (UiState::Menu { selected: 1 }, UiAction::CraftLeave)
    } else if k == Key::Char('[') {
        (UiState::Craft { cursor, selected: if sel > 0 { sel - 1 } else { 0 } }, UiAction::Nothing)
    } else if k == Key::Char(']') {
        let s = if view.bag_len > 0 {
            if sel < view.bag_len - 1 { sel + 1 } else { view.bag_len - 1 }
        } else {
            0
        };
        (UiState::Craft { cursor, selected: s }, UiAction::Nothing)
    } else if confirm(k) {
        (UiState::Craft { cursor, selected: sel }, UiAction::CraftPlace { cursor, selected: sel })
    } else if k == Key::Char('x') {
        (UiState::Craft { cursor, selected: sel }, UiAction::CraftCraft)
    } else {
        match movement_delta(k) {
            Some(d) => (
                UiState::Craft { cursor: if cursor < 9 { move_cursor_3x3(cursor, d.0, d.1) } else { cursor }, selected: sel },
                UiAction::Nothing,
            ),
            None => (UiState::Craft { cursor, selected: sel }, UiAction::Nothing),
        }
    }
}

fn step_dead(k: Key, inp: KeyInput, view: UiView) -> (r: (UiState, UiAction))
    requires
        k == key_lower(inp.key),
        !(inp.ctrl && k == Key::Char('c')),
    ensures
        r == ui_step_spec(UiState::Dead, inp, view),
{
    if k == Key::Char('r') {
        (UiState::Play, UiAction::Restart)
    } else if k == Key::Esc {
        (UiState::Dead, UiAction::Quit)
    } else {
        (UiState::Dead, UiAction::Nothing)
    }
}

/// The next screen and the action for a key (see `ui_step_spec`).
pub fn ui_step(state: UiState, inp: KeyInput, view: UiView) -> (r: (UiState, UiAction))
    ensures
        r == ui_step_spec(state, inp, view),
{
    let k = lower_key(inp.key);
    if inp.ctrl && k == Key::Char('c') {
        return (state, UiAction::Quit);
    }
    match state {
        UiState::Title { selected: sel } => step_title(sel, k, inp, view),
        UiState::Slots { selected: sel } => step_slots(sel, k, inp, view),
        UiState::DeleteConfirm { selected: sel } => step_delete_confirm(sel, k, inp, view),
        UiState::Stairs { descend } => step_stairs(descend, k, inp, view),
        UiState::Dialogue => step_dialogue(k, inp, view),
        UiState::Menu { selected: sel } => step_menu(sel, k, inp, view),
        UiState::Hints => step_hints(k, inp, view),
        UiState::GameSettings => step_game_settings(k, inp, view),
        UiState::ItemMenu { selected: sel, action: a } => step_item_menu(sel, a, k, inp, view),
        UiState::InventoryMove { selected: sel } => step_inventory_move(sel, k, inp, view),
        UiState::GroundMenu { action: a } => step_ground_menu(a, k, inp, view),
        UiState::GroundSwap { selected: sel } => step_ground_swap(sel, k, inp, view),
        UiState::Rename { selected: sel } => step_rename(sel, k, inp, view),
        UiState::Settings => step_settings(k, inp, view),
        UiState::Play => step_play(k, inp, view),
        UiState::Inventory { selected: sel } => step_inventory(sel, k, inp, view),
        UiState::Debug { selected: sel } => step_debug(sel, k, inp, view),
        UiState::Vending { cursor } => step_vending(cursor, k, inp, view),
        UiState::Craft { cursor, selected: sel } => step_craft(cursor, sel, k, inp, view),
        UiState::Dead => step_dead(k, inp, view),
    }
}

/// What happened on the map that a screen shows next.
#[derive(Clone, Copy, Debug, PartialEq, Eq, Structural)]
pub struct Aftermath {
    /// A vending machine the player walked into waits.
    pub vending: bool,
    /// The player stepped onto stairs.
    pub stairs: bool,
    /// A message waits to be shown.
    pub message: bool,
    /// The player died.
    pub dead: bool,
    /// The player's action took a turn.
    pub acted: bool,
    /// A picked-up item waits to be named: its bag entry.
    pub naming: Option<usize>,
}

/// The screen once the game has acted: a dead player sees the death
/// screen; on the map, a vending machine the player walked into opens,
/// else the stairs just stepped onto ask, else a waiting message shows;
/// an entry's actions give way to the map once one took a turn, and to
/// the bag when it is empty; a chosen bag entry past the end moves to the
/// last.
pub open spec fn ui_settle_spec(state: UiState, bag_len: usize, a: Aftermath) -> UiState {
    if a.dead {
        UiState::Dead
    } else if a.vending && state == UiState::Play {
        UiState::Vending { cursor: 0 }
    } else if a.stairs && state == UiState::Play {
        UiState::Stairs { descend: true }
    } else if a.message && state == UiState::Play {
        UiState::Dialogue
    } else if a.naming is Some && state == UiState::Play {
        UiState::Rename { selected: a.naming->0 }
    } else {
        match state {
            UiState::Inventory { selected } => UiState::Inventory {
                selected: if selected < bag_len { selected } else if bag_len > 0 { (bag_len - 1) as usize } else { 0 },
            },
            UiState::GroundMenu { .. } => if a.acted {
                UiState::Play
            } else {
                state
            },
            UiState::ItemMenu { selected, action } => if a.acted {
                UiState::Play
            } else if bag_len == 0 {
                UiState::Inventory { selected: 0 }
            } else if selected < bag_len {
                state
            } else {
                UiState::ItemMenu { selected: (bag_len - 1) as usize, action }
            },
            _ => state,
        }
    }
}

/// The screen once the game has acted (see `ui_settle_spec`).
pub fn ui_settle(state: UiState, bag_len: usize, a: Aftermath) -> (s: UiState)
    ensures
        s == ui_settle_spec(state, bag_len, a),
{
    if a.dead {
        UiState::Dead
    } else if a.vending && state == UiState::Play {
        UiState::Vending { cursor: 0 }
    } else if a.stairs && state == UiState::Play {
        UiState::Stairs { descend: true }
    } else if a.message && state == UiState::Play {
        UiState::Dialogue
    } else if a.naming.is_some() && state == UiState::Play {
        UiState::Rename { selected: a.naming.unwrap() }
    } else {
        match state {
            UiState::Inventory { selected } => UiState::Inventory {
                selected: if selected < bag_len { selected } else if bag_len > 0 { bag_len - 1 } else { 0 },
            },
            UiState::GroundMenu { .. } => if a.acted {
                UiState::Play
            } else {
                state
            },
            UiState::ItemMenu { selected, action } => if a.acted {
                UiState::Play
            } else if bag_len == 0 {
                UiState::Inventory { selected: 0 }
            } else if selected < bag_len {
                state
            } else {
                UiState::ItemMenu { selected: bag_len - 1, action }
            },
            _ => state,
        }
    }
}

// ---------------------------------------------------------------------------
// Running
// ---------------------------------------------------------------------------

/// What a run needs to know before each step.
#[derive(Clone, Copy, Debug, PartialEq, Eq, Structural)]
pub struct AutoRunView {
    /// A hostile creature stands next to the player.
    pub hostile_adjacent: bool,
    /// The cell ahead can be walked onto.
    pub ahead_open: bool,
    /// An item lies on the cell ahead.
    pub item_ahead: bool,
}

/// The next step of a run.
#[derive(Clone, Copy, Debug, PartialEq, Eq, Structural)]
pub enum AutoRunStep {
    /// The run ends without a step.
    Stop,
    /// Step by `(dx, dy)`, picking up what lies there when `pick_up`; the
    /// run ends after the step when `last`.
    Step { dx: i32, dy: i32, pick_up: bool, last: bool },
}

/// A run stops before a step while a hostile is next to the player (so a
/// hostile next to the player after a step ends it at the next step); it
/// steps onto an item without taking it and ends there; it ends after a
/// step that is blocked; otherwise it steps by `(dx, dy)` and goes on.
pub open spec fn auto_run_spec(v: AutoRunView, dx: i32, dy: i32) -> AutoRunStep {
    if v.hostile_adjacent {
        AutoRunStep::Stop
    } else {
        AutoRunStep::Step { dx, dy, pick_up: !v.item_ahead, last: v.item_ahead || !v.ahead_open }
    }
}

/// The next step of a run (see `auto_run_spec`).
pub fn auto_run_step(view: AutoRunView, dx: i32, dy: i32) -> (r: AutoRunStep)
    ensures
        r == auto_run_spec(view, dx, dy),
{
    if view.hostile_adjacent {
        AutoRunStep::Stop
    } else {
        AutoRunStep::Step { dx, dy, pick_up: !view.item_ahead, last: view.item_ahead || !view.ahead_open }
    }
}

/// Whether a hostile creature (at `hostiles`) stands next to the player.
pub fn hostile_adjacent(px: i32, py: i32, hostiles: &Vec<(i32, i32)>) -> (b: bool)
    ensures
        b == exists|i: int|
            0 <= i < hostiles@.len() && {
                let h = #[trigger] hostiles@[i];
                let ax: int = if h.0 >= px { h.0 - px } else { px - h.0 };
                let ay: int = if h.1 >= py { h.1 - py } else { py - h.1 };
                (if ax > ay { ax } else { ay }) == 1
            },
{
    let mut k: usize = 0;
    while k < hostiles.len()
        invariant
            k <= hostiles@.len(),
            forall|i: int|
                0 <= i < k ==> {
                    let h = #[trigger] hostiles@[i];
                    let ax: int = if h.0 >= px { h.0 - px } else { px - h.0 };
                    let ay: int = if h.1 >= py { h.1 - py } else { py - h.1 };
                    (if ax > ay { ax } else { ay }) != 1
                },
        decreases hostiles@.len() - k,
    {
        let (hx, hy) = hostiles[k];
        let ax: i64 = if hx >= px { hx as i64 - px as i64 } else { px as i64 - hx as i64 };
        let ay: i64 = if hy >= py { hy as i64 - py as i64 } else { py as i64 - hy as i64 };
        let m = if ax > ay { ax } else { ay };
        if m == 1 {
            return true;
        }
        k = k + 1;
    }
    false
}


// ---------------------------------------------------------------------------
// What a map cell shows
// ---------------------------------------------------------------------------

/// What lies on a map cell, as the player sees it.
#[derive(Clone, Copy, Debug, PartialEq, Eq, Structural)]
pub struct CellView {
    /// In the player's sight, or lit by a torch the player sees.
    pub visible: bool,
    pub player: bool,
    pub creature: bool,
    /// A tile that cannot be walked or seen through.
    pub opaque: bool,
    pub copper: bool,
    pub item: bool,
    pub structure: bool,
    pub tablet: bool,
    pub torch: bool,
    pub blood: bool,
}

/// What a map cell shows.
#[derive(Clone, Copy, Debug, PartialEq, Eq, Structural)]
pub enum CellLayer {
    Hidden,
    Player,
    Creature,
    Copper,
    Item,
    Structure,
    Tablet,
    Torch,
    Blood,
    /// The tile itself.
    Ground,
}

/// A cell out of sight shows nothing; else the player, then a creature,
/// then an opaque tile; on open ground, copper over an item over a
/// structure over a tablet over a torch over blood over the tile.
pub open spec fn cell_layer_spec(c: CellView) -> CellLayer {
    if !c.visible {
        CellLayer::Hidden
    } else if c.player {
        CellLayer::Player
    } else if c.creature {
        CellLayer::Creature
    } else if c.opaque {
        CellLayer::Ground
    } else if c.copper {
        CellLayer::Copper
    } else if c.item {
        CellLayer::Item
    } else if c.structure {
        CellLayer::Structure
    } else if c.tablet {
        CellLayer::Tablet
    } else if c.torch {
        CellLayer::Torch
    } else if c.blood {
        CellLayer::Blood
    } else {
        CellLayer::Ground
    }
}

/// What a map cell shows (see `cell_layer_spec`).
pub fn cell_layer(c: CellView) -> (l: CellLayer)
    ensures
        l == cell_layer_spec(c),
{
    if !c.visible {
        CellLayer::Hidden
    } else if c.player {
        CellLayer::Player
    } else if c.creature {
        CellLayer::Creature
    } else if c.opaque {
        CellLayer::Ground
    } else if c.copper {
        CellLayer::Copper
    } else if c.item {
        CellLayer::Item
    } else if c.structure {
        CellLayer::Structure
    } else if c.tablet {
        CellLayer::Tablet
    } else if c.torch {
        CellLayer::Torch
    } else if c.blood {
        CellLayer::Blood
    } else {
        CellLayer::Ground
    }
}

/// An action that only the debug console asks for.
pub open spec fn is_debug_action(a: UiAction) -> bool {
    a is DebugType || a is DebugErase || a is DebugComplete || a is DebugRun
}

/// One event of a run of the screens: a key, what the game said when it
/// was read, and the bag size, a pending vending machine and death after
/// the action was carried out.
pub struct UiEvent {
    pub input: KeyInput,
    pub view: UiView,
    pub bag_len: usize,
    pub after: Aftermath,
}

/// The screen after a run of events from `state`, each read by `ui_step`
/// and then settled by `ui_settle`.
pub open spec fn ui_run(state: UiState, events: Seq<UiEvent>) -> UiState
    decreases events.len(),
{
    if events.len() == 0 {
        state
    } else {
        let prev = ui_run(state, events.drop_last());
        let e = events.last();
        ui_settle_spec(ui_step_spec(prev, e.input, e.view).0, e.bag_len, e.after)
    }
}

/// Without the debug switch, one key never opens the debug console from
/// another screen nor asks for a debug action, and settling never opens it.
pub proof fn lemma_debug_stays_closed(state: UiState, inp: KeyInput, v: UiView, bag_len: usize, a: Aftermath)
    requires
        !v.debug_enabled,
        !(state is Debug),
    ensures
        !(ui_step_spec(state, inp, v).0 is Debug),
        !is_debug_action(ui_step_spec(state, inp, v).1),
        !(ui_settle_spec(state, bag_len, a) is Debug),
{
    let k = key_lower(inp.key);
    if !(inp.ctrl && k == Key::Char('c')) {
        match state {
            UiState::Title { selected } => assert(!(title_step(selected, k).0 is Debug)),
            UiState::Slots { selected } => assert(!(slots_step(selected, k, v).0 is Debug)),
            UiState::DeleteConfirm { selected } => assert(!(delete_confirm_step(selected, k).0 is Debug)),
            UiState::Stairs { descend } => assert(!(stairs_step(descend, k).0 is Debug)),
            UiState::Dialogue => assert(!(dialogue_step(k).0 is Debug)),
            UiState::Settings => assert(!(settings_step(k).0 is Debug)),
            UiState::Play => assert(!(play_step(KeyInput { key: k, ctrl: inp.ctrl }, v).0 is Debug)),
            UiState::Inventory { selected } => assert(!(inventory_step(selected, k, inp.key, v).0 is Debug)),
            UiState::InventoryMove { selected } => assert(!(inventory_move_step(selected, k, inp.key, v).0 is Debug)),
            UiState::Vending { cursor } => assert(!(vending_step(cursor, k).0 is Debug)),
            UiState::Craft { cursor, selected } => assert(!(craft_step(cursor, selected, k, v).0 is Debug)),
            UiState::Menu { selected } => assert(!(menu_step(selected, k, v).0 is Debug)),
            UiState::Hints => assert(!(hints_step(k).0 is Debug)),
            UiState::GameSettings => assert(!(game_settings_step(k).0 is Debug)),
            UiState::ItemMenu { selected, action } => assert(!(item_menu_step(selected, action, k).0 is Debug)),
            UiState::Rename { selected } => assert(!(rename_step(selected, k, inp.key, v).0 is Debug)),
            UiState::GroundMenu { action } => assert(!(ground_menu_step(action, k, v).0 is Debug)),
            UiState::GroundSwap { selected } => assert(!(ground_swap_step(selected, k, v).0 is Debug)),
            _ => {},
        }
    }
}

/// Without the debug switch in any event, a run that starts outside the
/// debug console never reaches it, and so no debug command ever runs.
pub proof fn lemma_debug_run_stays_closed(state: UiState, events: Seq<UiEvent>)
    requires
        !(state is Debug),
        forall|i: int| 0 <= i < events.len() ==> !(#[trigger] events[i]).view.debug_enabled,
    ensures
        !(ui_run(state, events) is Debug),
        forall|i: int|
            0 <= i < events.len() ==> !is_debug_action(
                #[trigger] ui_step_spec(ui_run(state, events.take(i)), events[i].input, events[i].view).1,
            ),
    decreases events.len(),
{
    if events.len() > 0 {
        let init = events.drop_last();
        lemma_debug_run_stays_closed(state, init);
        let prev = ui_run(state, init);
        let e = events.last();
        lemma_debug_stays_closed(prev, e.input, e.view, e.bag_len, e.after);
        let mid = ui_step_spec(prev, e.input, e.view).0;
        lemma_debug_stays_closed(mid, e.input, e.view, e.bag_len, e.after);
        assert forall|i: int|
            0 <= i < events.len() implies !is_debug_action(
                #[trigger] ui_step_spec(ui_run(state, events.take(i)), events[i].input, events[i].view).1,
            ) by {
            if i < init.len() {
                assert(events.take(i) =~= init.take(i));
                assert(events[i] == init[i]);
                assert(!is_debug_action(ui_step_spec(ui_run(state, init.take(i)), init[i].input, init[i].view).1));
            } else {
                assert(events.take(i) =~= init);
                lemma_debug_stays_closed(ui_run(state, init), events[i].input, events[i].view, 0, events[i].after);
            }
        }
    }
}

} // verus!
