use youtube_tui::{KeyAction, KeyBindingsConfig, KeyCode, KeyEvent};

fn press(code: KeyCode, modifiers: u8) -> KeyEvent {
    KeyEvent { code, modifiers }
}

#[test]
fn empty_table_binds_nothing() {
    let table = KeyBindingsConfig::new();
    assert_eq!(table.resolve(&press(KeyCode::Enter, 0)), None);
    assert_eq!(table.resolve(&press(KeyCode::Char('q'), 2)), None);
}

#[test]
fn bound_key_resolves_to_its_action() {
    let mut table = KeyBindingsConfig::new();
    table.bind(KeyCode::Up, 0, KeyAction::MoveUp);
    table.bind(KeyCode::Char('j'), 0, KeyAction::MoveDown);
    table.bind(KeyCode::Enter, 0, KeyAction::Select);
    assert_eq!(table.resolve(&press(KeyCode::Up, 0)), Some(KeyAction::MoveUp));
    assert_eq!(table.resolve(&press(KeyCode::Char('j'), 0)), Some(KeyAction::MoveDown));
    assert_eq!(table.resolve(&press(KeyCode::Enter, 0)), Some(KeyAction::Select));
}

#[test]
fn unmapped_key_resolves_to_nothing() {
    let mut table = KeyBindingsConfig::new();
    table.bind(KeyCode::Char('j'), 0, KeyAction::MoveDown);
    assert_eq!(table.resolve(&press(KeyCode::Char('k'), 0)), None);
    assert_eq!(table.resolve(&press(KeyCode::Down, 0)), None);
}

#[test]
fn unmapped_modifiers_resolve_to_nothing() {
    let mut table = KeyBindingsConfig::new();
    table.bind(KeyCode::Char('c'), 2, KeyAction::Exit);
    assert_eq!(table.resolve(&press(KeyCode::Char('c'), 2)), Some(KeyAction::Exit));
    assert_eq!(table.resolve(&press(KeyCode::Char('c'), 0)), None);
    assert_eq!(table.resolve(&press(KeyCode::Char('c'), 3)), None);
}

#[test]
fn one_key_can_hold_several_combinations() {
    let mut table = KeyBindingsConfig::new();
    table.bind(KeyCode::Left, 0, KeyAction::MoveLeft);
    table.bind(KeyCode::Left, 4, KeyAction::Back);
    assert_eq!(table.resolve(&press(KeyCode::Left, 0)), Some(KeyAction::MoveLeft));
    assert_eq!(table.resolve(&press(KeyCode::Left, 4)), Some(KeyAction::Back));
}

#[test]
fn binding_again_replaces_the_action() {
    let mut table = KeyBindingsConfig::new();
    table.bind(KeyCode::F(5), 0, KeyAction::Reload);
    table.bind(KeyCode::F(5), 0, KeyAction::Deselect);
    assert_eq!(table.resolve(&press(KeyCode::F(5), 0)), Some(KeyAction::Deselect));
}

#[test]
fn keys_of_different_kinds_do_not_collide() {
    let mut table = KeyBindingsConfig::new();
    table.bind(KeyCode::F(1), 0, KeyAction::MoveUp);
    table.bind(KeyCode::Media(1), 0, KeyAction::MoveDown);
    table.bind(KeyCode::Modifier(1), 0, KeyAction::MoveLeft);
    table.bind(KeyCode::Char('\u{1}'), 0, KeyAction::MoveRight);
    table.bind(KeyCode::Enter, 0, KeyAction::Select);
    assert_eq!(table.resolve(&press(KeyCode::F(1), 0)), Some(KeyAction::MoveUp));
    assert_eq!(table.resolve(&press(KeyCode::Media(1), 0)), Some(KeyAction::MoveDown));
    assert_eq!(table.resolve(&press(KeyCode::Modifier(1), 0)), Some(KeyAction::MoveLeft));
    assert_eq!(table.resolve(&press(KeyCode::Char('\u{1}'), 0)), Some(KeyAction::MoveRight));
    assert_eq!(table.resolve(&press(KeyCode::Enter, 0)), Some(KeyAction::Select));
}

#[test]
fn slot_numbers_are_as_documented() {
    assert_eq!(KeyCode::Backspace.slot_number(), 0);
    assert_eq!(KeyCode::KeypadBegin.slot_number(), 22);
    assert_eq!(KeyCode::F(12).slot_number(), 0x10c);
    assert_eq!(KeyCode::Media(255).slot_number(), 0x2ff);
    assert_eq!(KeyCode::Modifier(0).slot_number(), 0x300);
    assert_eq!(KeyCode::Char('a').slot_number(), 0x1061);
    assert_eq!(KeyCode::Char('\u{10FFFF}').slot_number(), 0x110fff);
}

#[test]
fn cloned_table_binds_the_same() {
    let mut table = KeyBindingsConfig::new();
    table.bind(KeyCode::Char('q'), 0, KeyAction::Exit);
    let copy = table.clone();
    assert_eq!(copy.resolve(&press(KeyCode::Char('q'), 0)), Some(KeyAction::Exit));
    assert_eq!(copy.resolve(&press(KeyCode::Char('w'), 0)), None);
}
