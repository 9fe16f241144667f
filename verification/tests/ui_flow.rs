use abyss::ui_flow::{
    auto_run_step, cell_layer, hostile_adjacent, movement_delta, ui_settle, ui_step, Aftermath, AutoRunStep, AutoRunView,
    CellLayer, CellView, Key, KeyInput, UiAction, UiState, UiView,
};

fn key(k: Key) -> KeyInput {
    KeyInput { key: k, ctrl: false }
}

fn ch(c: char) -> KeyInput {
    key(Key::Char(c))
}

fn view() -> UiView {
    UiView { debug_enabled: false, slot_saved: true, bag_len: 3, on_stairs: false, ground_item: false, suggestions: 2, input_len: 0 }
}

#[test]
fn keys_on_the_map() {
    let v = view();
    assert_eq!(ui_step(UiState::Play, ch('d'), v), (UiState::Play, UiAction::Move { dx: 1, dy: 0 }));
    assert_eq!(
        ui_step(UiState::Play, KeyInput { key: Key::Char('q'), ctrl: true }, v),
        (UiState::Play, UiAction::AutoRun { dx: -1, dy: -1 })
    );
    assert_eq!(ui_step(UiState::Play, ch('f'), v), (UiState::Play, UiAction::Attack));
    assert_eq!(ui_step(UiState::Play, ch(' '), v), (UiState::Play, UiAction::Wait));
    assert_eq!(ui_step(UiState::Play, ch('2'), v), (UiState::Play, UiAction::Use(1)));
    assert_eq!(ui_step(UiState::Play, ch('0'), v), (UiState::Play, UiAction::Nothing));
    assert_eq!(ui_step(UiState::Play, ch('v'), v), (UiState::Menu { selected: 0 }, UiAction::Nothing));
    assert_eq!(ui_step(UiState::Play, ch('M'), v), (UiState::Menu { selected: 0 }, UiAction::Nothing));
    assert_eq!(ui_step(UiState::Play, ch('i'), v), (UiState::Inventory { selected: 0 }, UiAction::Nothing));
    assert_eq!(ui_step(UiState::Play, ch('/'), v), (UiState::Play, UiAction::Nothing));
    let dbg = UiView { debug_enabled: true, ..v };
    assert_eq!(ui_step(UiState::Play, ch('/'), dbg), (UiState::Debug { selected: 0 }, UiAction::Nothing));
    assert_eq!(ui_step(UiState::Play, key(Key::Enter), v), (UiState::Play, UiAction::Nothing));
    let stairs = UiView { on_stairs: true, ..v };
    assert_eq!(ui_step(UiState::Play, key(Key::Enter), stairs), (UiState::Stairs { descend: true }, UiAction::Nothing));
    assert_eq!(ui_step(UiState::Stairs { descend: true }, ch('f'), v), (UiState::Play, UiAction::Descend));
    assert_eq!(ui_step(UiState::Stairs { descend: true }, ch('s'), v), (UiState::Stairs { descend: false }, UiAction::Nothing));
    assert_eq!(ui_step(UiState::Stairs { descend: false }, key(Key::Enter), v), (UiState::Play, UiAction::Nothing));
    assert_eq!(ui_step(UiState::Stairs { descend: false }, key(Key::Left), v), (UiState::Stairs { descend: true }, UiAction::Nothing));
    assert_eq!(ui_step(UiState::Stairs { descend: true }, key(Key::Esc), v), (UiState::Play, UiAction::Nothing));
    assert_eq!(ui_step(UiState::Play, key(Key::Esc), v), (UiState::Play, UiAction::SaveAndQuit));
    assert_eq!(
        ui_step(UiState::Inventory { selected: 1 }, KeyInput { key: Key::Char('c'), ctrl: true }, v),
        (UiState::Inventory { selected: 1 }, UiAction::Quit)
    );
}

#[test]
fn keys_in_the_menus() {
    let v = view();
    assert_eq!(ui_step(UiState::Inventory { selected: 2 }, key(Key::Down), v).0, UiState::Inventory { selected: 2 });
    assert_eq!(ui_step(UiState::Inventory { selected: 1 }, ch('f'), v), (UiState::ItemMenu { selected: 1, action: 0 }, UiAction::Nothing));
    assert_eq!(ui_step(UiState::Inventory { selected: 5 }, ch('f'), v), (UiState::Inventory { selected: 5 }, UiAction::Nothing));
    assert_eq!(ui_step(UiState::Inventory { selected: 1 }, ch('t'), v).1, UiAction::Throw(1));
    assert_eq!(ui_step(UiState::Inventory { selected: 1 }, ch('v'), v), (UiState::Menu { selected: 0 }, UiAction::Nothing));
    assert_eq!(ui_step(UiState::Inventory { selected: 1 }, key(Key::Tab), v), (UiState::Play, UiAction::Nothing));
    assert_eq!(ui_step(UiState::Debug { selected: 1 }, key(Key::Tab), v), (UiState::Debug { selected: 0 }, UiAction::DebugComplete(1)));
    assert_eq!(ui_step(UiState::Debug { selected: 0 }, ch('g'), v), (UiState::Debug { selected: 0 }, UiAction::DebugType('g')));
    assert_eq!(ui_step(UiState::Debug { selected: 1 }, ch('w'), v), (UiState::Debug { selected: 0 }, UiAction::Nothing));
    assert_eq!(ui_step(UiState::Debug { selected: 0 }, ch('S'), v), (UiState::Debug { selected: 1 }, UiAction::Nothing));
    let full = UiView { input_len: 128, ..v };
    assert_eq!(ui_step(UiState::Debug { selected: 0 }, ch('w'), full).1, UiAction::Nothing);
    assert_eq!(ui_step(UiState::Debug { selected: 0 }, key(Key::Enter), v), (UiState::Play, UiAction::DebugRun));
    assert_eq!(ui_step(UiState::Vending { cursor: 4 }, ch('f'), v), (UiState::Vending { cursor: 4 }, UiAction::VendingPress(4)));
    assert_eq!(ui_step(UiState::Vending { cursor: 4 }, key(Key::Esc), v), (UiState::Play, UiAction::VendingLeave));
    assert_eq!(ui_step(UiState::Craft { cursor: 4, selected: 0 }, ch('d'), v).0, UiState::Craft { cursor: 5, selected: 0 });
    assert_eq!(ui_step(UiState::Craft { cursor: 4, selected: 0 }, ch(']'), v).0, UiState::Craft { cursor: 4, selected: 1 });
    assert_eq!(
        ui_step(UiState::Craft { cursor: 4, selected: 2 }, key(Key::Enter), v).1,
        UiAction::CraftPlace { cursor: 4, selected: 2 }
    );
    assert_eq!(ui_step(UiState::Dead, ch('r'), v), (UiState::Play, UiAction::Restart));
}

#[test]
fn the_title_slot_and_settings_screens() {
    let v = view();
    assert_eq!(ui_step(UiState::Title { selected: 0 }, key(Key::Enter), v), (UiState::Slots { selected: 0 }, UiAction::Nothing));
    assert_eq!(ui_step(UiState::Title { selected: 1 }, ch('f'), v), (UiState::Settings, UiAction::Nothing));
    assert_eq!(ui_step(UiState::Title { selected: 2 }, key(Key::Enter), v).1, UiAction::Quit);
    assert_eq!(ui_step(UiState::Title { selected: 2 }, key(Key::Down), v).0, UiState::Title { selected: 2 });
    assert_eq!(ui_step(UiState::Slots { selected: 0 }, key(Key::Down), v).0, UiState::Slots { selected: 1 });
    assert_eq!(ui_step(UiState::Slots { selected: 2 }, key(Key::Down), v).0, UiState::Slots { selected: 2 });
    assert_eq!(ui_step(UiState::Slots { selected: 1 }, key(Key::Enter), v), (UiState::Play, UiAction::OpenSlot(1)));
    assert_eq!(ui_step(UiState::Slots { selected: 1 }, ch('x'), v), (UiState::DeleteConfirm { selected: 1 }, UiAction::Nothing));
    assert_eq!(
        ui_step(UiState::Slots { selected: 1 }, key(Key::Backspace), UiView { slot_saved: false, ..v }),
        (UiState::Slots { selected: 1 }, UiAction::Nothing)
    );
    assert_eq!(ui_step(UiState::DeleteConfirm { selected: 1 }, ch('f'), v), (UiState::Slots { selected: 1 }, UiAction::DeleteSlot(1)));
    assert_eq!(ui_step(UiState::DeleteConfirm { selected: 1 }, ch('v'), v), (UiState::Slots { selected: 1 }, UiAction::Nothing));
    assert_eq!(ui_step(UiState::DeleteConfirm { selected: 1 }, ch('q'), v), (UiState::DeleteConfirm { selected: 1 }, UiAction::Nothing));
    assert_eq!(ui_step(UiState::Slots { selected: 1 }, ch('v'), v), (UiState::Title { selected: 0 }, UiAction::Nothing));
    assert_eq!(ui_step(UiState::Settings, key(Key::Right), v), (UiState::Settings, UiAction::NextLanguage));
    assert_eq!(ui_step(UiState::Settings, key(Key::Esc), v), (UiState::Title { selected: 1 }, UiAction::Nothing));
}

#[test]
fn the_screen_after_the_game_acts() {
    let calm = Aftermath { vending: false, stairs: false, message: false, dead: false, acted: false, naming: None };
    let vending = Aftermath { vending: true, ..calm };
    assert_eq!(ui_settle(UiState::Inventory { selected: 3 }, 3, calm), UiState::Inventory { selected: 2 });
    assert_eq!(ui_settle(UiState::Inventory { selected: 0 }, 0, calm), UiState::Inventory { selected: 0 });
    assert_eq!(ui_settle(UiState::Play, 3, vending), UiState::Vending { cursor: 0 });
    assert_eq!(ui_settle(UiState::Play, 3, Aftermath { stairs: true, message: true, ..vending }), UiState::Vending { cursor: 0 });
    assert_eq!(ui_settle(UiState::Play, 3, Aftermath { stairs: true, message: true, ..calm }), UiState::Stairs { descend: true });
    assert_eq!(ui_settle(UiState::Play, 3, Aftermath { message: true, ..calm }), UiState::Dialogue);
    assert_eq!(ui_settle(UiState::Inventory { selected: 1 }, 3, vending), UiState::Inventory { selected: 1 });
    assert_eq!(ui_settle(UiState::Play, 3, Aftermath { dead: true, ..vending }), UiState::Dead);
    assert_eq!(ui_step(UiState::Dialogue, ch('x'), view()), (UiState::Dialogue, UiAction::Nothing));
    assert_eq!(ui_step(UiState::Dialogue, ch('F'), view()), (UiState::Play, UiAction::Nothing));
}

#[test]
fn a_run_stops_by_hostiles_items_and_walls() {
    let clear = AutoRunView { hostile_adjacent: false, ahead_open: true, item_ahead: false };
    assert_eq!(auto_run_step(clear, 1, 0), AutoRunStep::Step { dx: 1, dy: 0, pick_up: true, last: false });
    let hostile = AutoRunView { hostile_adjacent: true, ..clear };
    assert_eq!(auto_run_step(hostile, 1, 0), AutoRunStep::Stop);
    let item = AutoRunView { item_ahead: true, ..clear };
    assert_eq!(auto_run_step(item, 0, 1), AutoRunStep::Step { dx: 0, dy: 1, pick_up: false, last: true });
    let wall = AutoRunView { ahead_open: false, ..clear };
    assert_eq!(auto_run_step(wall, 0, 1), AutoRunStep::Step { dx: 0, dy: 1, pick_up: true, last: true });
    assert!(hostile_adjacent(0, 0, &vec![(5, 5), (1, -1)]));
    assert!(!hostile_adjacent(0, 0, &vec![(5, 5), (2, 0), (0, 0)]));
    assert!(!hostile_adjacent(i32::MIN, 0, &vec![(i32::MAX, 0)]));
    assert_eq!(movement_delta(Key::Char('z')), Some((-1, 1)));
    assert_eq!(movement_delta(Key::Char('x')), None);
}

#[test]
fn a_map_cell_shows_its_topmost_layer() {
    let bare = CellView {
        visible: true,
        player: false,
        creature: false,
        opaque: false,
        copper: false,
        item: false,
        structure: false,
        tablet: false,
        torch: false,
        blood: false,
    };
    assert_eq!(cell_layer(bare), CellLayer::Ground);
    assert_eq!(cell_layer(CellView { visible: false, player: true, ..bare }), CellLayer::Hidden);
    assert_eq!(cell_layer(CellView { player: true, creature: true, ..bare }), CellLayer::Player);
    assert_eq!(cell_layer(CellView { creature: true, opaque: true, ..bare }), CellLayer::Creature);
    assert_eq!(cell_layer(CellView { opaque: true, item: true, ..bare }), CellLayer::Ground);
    assert_eq!(cell_layer(CellView { copper: true, item: true, ..bare }), CellLayer::Copper);
    assert_eq!(cell_layer(CellView { item: true, structure: true, ..bare }), CellLayer::Item);
    assert_eq!(cell_layer(CellView { structure: true, tablet: true, ..bare }), CellLayer::Structure);
    assert_eq!(cell_layer(CellView { tablet: true, torch: true, ..bare }), CellLayer::Tablet);
    assert_eq!(cell_layer(CellView { torch: true, blood: true, ..bare }), CellLayer::Torch);
    assert_eq!(cell_layer(CellView { blood: true, ..bare }), CellLayer::Blood);
}

#[test]
fn keys_count_in_either_case_but_the_console_keeps_what_is_typed() {
    let v = view();
    assert_eq!(movement_delta(Key::Char('W')), Some((0, -1)));
    assert_eq!(movement_delta(Key::Char('C')), Some((1, 1)));
    assert_eq!(ui_step(UiState::Play, ch('W'), v), (UiState::Play, UiAction::Move { dx: 0, dy: -1 }));
    assert_eq!(ui_step(UiState::Play, ch('F'), v), (UiState::Play, UiAction::Attack));
    assert_eq!(
        ui_step(UiState::Debug { selected: 0 }, ch('G'), v),
        (UiState::Debug { selected: 0 }, UiAction::DebugType('G'))
    );
    assert_eq!(ui_step(UiState::Debug { selected: 0 }, ch('\u{7}'), v), (UiState::Debug { selected: 0 }, UiAction::Nothing));
}

#[test]
fn without_debugging_the_console_stays_shut() {
    let v = view();
    let keys = ['/', 'W', 'i', 'v', 'k', 'f', ' '];
    let mut state = UiState::Play;
    for k in keys {
        let (next, action) = ui_step(state, ch(k), v);
        assert!(!matches!(next, UiState::Debug { .. }));
        assert!(!matches!(action, UiAction::DebugRun | UiAction::DebugType(_) | UiAction::DebugErase | UiAction::DebugComplete(_)));
        state = ui_settle(next, 3, Aftermath { vending: false, stairs: false, message: false, dead: false, acted: false, naming: None });
    }
}

#[test]
fn the_game_menu_leads_to_each_screen() {
    let v = view();
    let pick = |sel: usize, vw: UiView| ui_step(UiState::Menu { selected: sel }, ch('f'), vw);
    assert_eq!(pick(0, v), (UiState::Inventory { selected: 0 }, UiAction::Nothing));
    assert_eq!(pick(1, v), (UiState::Craft { cursor: 0, selected: 0 }, UiAction::Nothing));
    assert_eq!(pick(2, v), (UiState::GameSettings, UiAction::Nothing));
    assert_eq!(pick(3, v), (UiState::Hints, UiAction::Nothing));
    assert_eq!(pick(4, v), (UiState::Play, UiAction::Nothing));
    assert_eq!(pick(4, UiView { on_stairs: true, ..v }), (UiState::Stairs { descend: true }, UiAction::Nothing));
    assert_eq!(pick(5, v), (UiState::Title { selected: 0 }, UiAction::SaveToTitle));
    assert_eq!(pick(6, v).1, UiAction::SaveAndQuit);
    assert_eq!(ui_step(UiState::Menu { selected: 6 }, ch('s'), v).0, UiState::Menu { selected: 6 });
    assert_eq!(ui_step(UiState::Menu { selected: 0 }, ch('w'), v).0, UiState::Menu { selected: 0 });
    assert_eq!(ui_step(UiState::Menu { selected: 3 }, key(Key::Esc), v), (UiState::Play, UiAction::Nothing));
    assert_eq!(ui_step(UiState::Hints, ch('x'), v), (UiState::Hints, UiAction::Nothing));
    assert_eq!(ui_step(UiState::Hints, ch('v'), v), (UiState::Menu { selected: 0 }, UiAction::Nothing));
    assert_eq!(ui_step(UiState::GameSettings, key(Key::Left), v), (UiState::GameSettings, UiAction::NextLanguage));
    assert_eq!(ui_step(UiState::GameSettings, key(Key::Esc), v), (UiState::Menu { selected: 2 }, UiAction::Nothing));
    assert_eq!(ui_step(UiState::Craft { cursor: 0, selected: 0 }, ch('v'), v), (UiState::Menu { selected: 1 }, UiAction::CraftLeave));
}

#[test]
fn an_entrys_actions_and_its_new_name() {
    let v = view();
    let menu = |a: usize| UiState::ItemMenu { selected: 2, action: a };
    assert_eq!(ui_step(menu(0), ch('f'), v), (UiState::Rename { selected: 2 }, UiAction::Nothing));
    assert_eq!(ui_step(menu(1), ch('f'), v), (menu(1), UiAction::Drop(2)));
    assert_eq!(ui_step(menu(2), ch('f'), v), (menu(2), UiAction::Throw(2)));
    assert_eq!(ui_step(menu(3), ch('f'), v), (menu(3), UiAction::Use(2)));
    assert_eq!(ui_step(menu(3), ch('s'), v).0, menu(3));
    assert_eq!(ui_step(menu(1), key(Key::Up), v).0, menu(0));
    assert_eq!(ui_step(menu(1), ch('v'), v), (UiState::Inventory { selected: 2 }, UiAction::Nothing));
    let calm = Aftermath { vending: false, stairs: false, message: false, dead: false, acted: false, naming: None };
    assert_eq!(ui_settle(menu(3), 3, Aftermath { acted: true, ..calm }), UiState::Play);
    assert_eq!(ui_settle(menu(3), 3, calm), menu(3));
    assert_eq!(ui_settle(menu(3), 2, calm), UiState::ItemMenu { selected: 1, action: 3 });
    assert_eq!(ui_settle(menu(3), 0, calm), UiState::Inventory { selected: 0 });
    let r = UiState::Rename { selected: 2 };
    assert_eq!(ui_step(r, ch('N'), v), (r, UiAction::RenameType('N')));
    assert_eq!(ui_step(r, ch('F'), v), (menu(0), UiAction::RenameDone(2)));
    assert_eq!(ui_step(r, key(Key::Backspace), v), (r, UiAction::RenameErase));
    assert_eq!(ui_step(r, key(Key::Esc), v), (menu(0), UiAction::Nothing));
    assert_eq!(ui_step(r, ch('x'), UiView { input_len: 24, ..v }), (r, UiAction::Nothing));
    assert_eq!(ui_step(r, ch('x'), UiView { input_len: 23, ..v }), (r, UiAction::RenameType('x')));
}

#[test]
fn the_item_under_the_player_can_be_taken_used_or_swapped() {
    let v = view();
    let ground = UiView { ground_item: true, ..v };
    assert_eq!(ui_step(UiState::Menu { selected: 4 }, ch('f'), ground), (UiState::GroundMenu { action: 0 }, UiAction::Nothing));
    let gm = |a: usize| UiState::GroundMenu { action: a };
    assert_eq!(ui_step(gm(0), ch('f'), ground), (UiState::Play, UiAction::GroundRename));
    assert_eq!(ui_step(gm(1), ch('f'), ground), (UiState::Play, UiAction::GroundThrow));
    assert_eq!(ui_step(gm(2), ch('f'), ground), (UiState::Play, UiAction::GroundUse));
    assert_eq!(ui_step(gm(3), ch('f'), ground), (UiState::Play, UiAction::GroundPick));
    assert_eq!(ui_step(gm(4), ch('f'), ground), (UiState::GroundSwap { selected: 0 }, UiAction::Nothing));
    assert_eq!(ui_step(gm(4), ch('f'), UiView { bag_len: 0, ..ground }), (gm(0), UiAction::Nothing));
    assert_eq!(ui_step(gm(4), ch('s'), ground).0, gm(4));
    assert_eq!(ui_step(gm(2), key(Key::Esc), ground), (UiState::Play, UiAction::Nothing));
    let sw = |s: usize| UiState::GroundSwap { selected: s };
    assert_eq!(ui_step(sw(0), ch('s'), ground).0, sw(1));
    assert_eq!(ui_step(sw(2), ch('s'), ground).0, sw(2));
    assert_eq!(ui_step(sw(1), ch('f'), ground), (gm(0), UiAction::GroundSwapWith(1)));
    assert_eq!(ui_step(sw(1), ch('v'), ground), (gm(0), UiAction::Nothing));
    let calm = Aftermath { vending: false, stairs: false, message: false, dead: false, acted: false, naming: None };
    assert_eq!(ui_settle(gm(0), 3, Aftermath { acted: true, ..calm }), UiState::Play);
    assert_eq!(ui_settle(gm(0), 3, calm), gm(0));
    assert_eq!(ui_settle(UiState::Play, 3, Aftermath { naming: Some(2), ..calm }), UiState::Rename { selected: 2 });
}

#[test]
fn shift_f_moves_a_bag_entry() {
    let v = view();
    let inv = |s: usize| UiState::Inventory { selected: s };
    let mv = |s: usize| UiState::InventoryMove { selected: s };
    assert_eq!(ui_step(inv(1), ch('F'), v), (mv(1), UiAction::Nothing));
    assert_eq!(ui_step(inv(0), ch('F'), UiView { bag_len: 0, ..v }), (inv(0), UiAction::Nothing));
    assert_eq!(ui_step(mv(1), ch('w'), v), (mv(0), UiAction::MoveEntry { from: 1, to: 0 }));
    assert_eq!(ui_step(mv(0), ch('w'), v), (mv(0), UiAction::Nothing));
    assert_eq!(ui_step(mv(1), key(Key::Down), v), (mv(2), UiAction::MoveEntry { from: 1, to: 2 }));
    assert_eq!(ui_step(mv(2), ch('s'), v), (mv(2), UiAction::Nothing));
    assert_eq!(ui_step(mv(2), ch('f'), v), (mv(2), UiAction::Nothing));
    assert_eq!(ui_step(mv(2), ch('F'), v), (inv(2), UiAction::Nothing));
    assert_eq!(ui_step(mv(2), key(Key::Esc), v), (UiState::Menu { selected: 0 }, UiAction::Nothing));
}
