use castellan::components::user_input::{draft_submission, submits_on_key};
use castellan::input::key_event::{KeyCode, KeyEvent, KeyModifiers};
use castellan::input::{InputMode, KeyAction, KeyCommand, KeybindResolver};
use castellan::settings::settings_keybinds::AppKeybindsSettings;

#[test]
fn i_enters_input_mode_from_normal() {
    let keybinds = AppKeybindsSettings::default();
    let resolver = KeybindResolver::new(&keybinds);

    let action = resolver.resolve(KeyEvent::new(KeyCode::Char('i'), KeyModifiers::none()), InputMode::Normal);

    assert_eq!(action, KeyAction::Command(KeyCommand::EnterInputMode));
}

#[test]
fn i_types_in_input_mode() {
    let keybinds = AppKeybindsSettings::default();
    let resolver = KeybindResolver::new(&keybinds);

    let action = resolver.resolve(KeyEvent::new(KeyCode::Char('i'), KeyModifiers::none()), InputMode::Insert);

    assert_eq!(action, KeyAction::InsertChar('i'));
}

#[test]
fn close_tab_shortcut_is_ignored_in_input_mode() {
    let keybinds = AppKeybindsSettings::default();
    let resolver = KeybindResolver::new(&keybinds);

    let action = resolver.resolve(KeyEvent::new(KeyCode::Char('w'), KeyModifiers::control()), InputMode::Insert);

    assert_eq!(action, KeyAction::Noop);
}

#[test]
fn rename_tab_shortcut_is_allowed_in_normal_mode() {
    let keybinds = AppKeybindsSettings::default();
    let resolver = KeybindResolver::new(&keybinds);

    let action = resolver.resolve(KeyEvent::new(KeyCode::Char('r'), KeyModifiers::control()), InputMode::Normal);

    assert_eq!(action, KeyAction::Command(KeyCommand::RenameCurrentTab));
}

#[test]
fn rename_tab_shortcut_is_ignored_in_input_mode() {
    let keybinds = AppKeybindsSettings::default();
    let resolver = KeybindResolver::new(&keybinds);

    let action = resolver.resolve(KeyEvent::new(KeyCode::Char('r'), KeyModifiers::control()), InputMode::Insert);

    assert_eq!(action, KeyAction::Noop);
}

#[test]
fn normal_mode_ignores_unbound_and_editing_keys() {
    let keybinds = AppKeybindsSettings::default();
    let resolver = KeybindResolver::new(&keybinds);
    assert_eq!(resolver.resolve(KeyEvent::new(KeyCode::Char('x'), KeyModifiers::none()), InputMode::Normal), KeyAction::Noop);
    assert_eq!(resolver.resolve(KeyEvent::new(KeyCode::Enter, KeyModifiers::none()), InputMode::Normal), KeyAction::Noop);
    assert_eq!(resolver.resolve(KeyEvent::new(KeyCode::Backspace, KeyModifiers::none()), InputMode::Normal), KeyAction::Noop);
}

#[test]
fn insert_mode_keeps_only_exit_edit_and_submit_commands() {
    let keybinds = AppKeybindsSettings::default();
    let resolver = KeybindResolver::new(&keybinds);
    let mode = InputMode::Insert;
    assert_eq!(resolver.resolve(KeyEvent::new(KeyCode::Esc, KeyModifiers::none()), mode), KeyAction::Command(KeyCommand::ExitInputMode));
    assert_eq!(resolver.resolve(KeyEvent::new(KeyCode::Enter, KeyModifiers::none()), mode), KeyAction::Command(KeyCommand::Submit));
    assert_eq!(resolver.resolve(KeyEvent::new(KeyCode::Backspace, KeyModifiers::none()), mode), KeyAction::Command(KeyCommand::Backspace));
    assert_eq!(resolver.resolve(KeyEvent::new(KeyCode::Tab, KeyModifiers::none()), mode), KeyAction::Noop);
    assert_eq!(resolver.resolve(KeyEvent::new(KeyCode::BackTab, KeyModifiers::shift()), mode), KeyAction::Noop);
    assert_eq!(resolver.resolve(KeyEvent::new(KeyCode::Char('c'), KeyModifiers::control()), mode), KeyAction::Command(KeyCommand::ExitApp));
}

#[test]
fn insert_mode_types_shifted_and_navigation_letters() {
    let keybinds = AppKeybindsSettings::default();
    let resolver = KeybindResolver::new(&keybinds);
    assert_eq!(resolver.resolve(KeyEvent::new(KeyCode::Char('J'), KeyModifiers::shift()), InputMode::Insert), KeyAction::InsertChar('J'));
    assert_eq!(resolver.resolve(KeyEvent::new(KeyCode::Char('k'), KeyModifiers::none()), InputMode::Insert), KeyAction::InsertChar('k'));
    assert_eq!(resolver.resolve(KeyEvent::new(KeyCode::Char('a'), KeyModifiers::alt()), InputMode::Insert), KeyAction::Noop);
    assert_eq!(resolver.resolve(KeyEvent::new(KeyCode::Up, KeyModifiers::none()), InputMode::Insert), KeyAction::Noop);
}

#[test]
fn insert_mode_backspace_binding_wins_over_other_commands() {
    let keybinds = AppKeybindsSettings {
        backspace: castellan::settings::settings_keybinds::key(KeyCode::Char('i')),
        ..AppKeybindsSettings::default()
    };
    let resolver = KeybindResolver::new(&keybinds);
    assert_eq!(
        resolver.resolve(KeyEvent::new(KeyCode::Char('i'), KeyModifiers::none()), InputMode::Insert),
        KeyAction::Command(KeyCommand::Backspace)
    );
}

#[test]
fn modifier_sets_report_held_keys() {
    let m = KeyModifiers::shift().union(KeyModifiers::control());
    assert!(m.contains(KeyModifiers::shift()));
    assert!(m.contains(KeyModifiers::control()));
    assert!(!m.contains(KeyModifiers::alt()));
    assert!(KeyModifiers::none().contains(KeyModifiers::none()));
    assert_eq!(KeyModifiers::from_bits(0b110), KeyModifiers::control().union(KeyModifiers::alt()));
    assert_eq!(InputMode::default(), InputMode::Normal);
}

#[test]
fn composer_submits_trimmed_drafts_only() {
    assert_eq!(draft_submission("  hello there \n"), Some("hello there".to_string()));
    assert_eq!(draft_submission(" \t\n "), None);
    assert_eq!(draft_submission(""), None);
}

#[test]
fn composer_submits_on_enter_without_shift() {
    assert!(submits_on_key(KeyEvent::new(KeyCode::Enter, KeyModifiers::none())));
    assert!(submits_on_key(KeyEvent::new(KeyCode::Enter, KeyModifiers::control())));
    assert!(!submits_on_key(KeyEvent::new(KeyCode::Enter, KeyModifiers::shift())));
    assert!(!submits_on_key(KeyEvent::new(KeyCode::Char('a'), KeyModifiers::none())));
}
