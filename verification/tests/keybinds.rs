use castellan::input::key_event::{KeyCode, KeyEvent, KeyModifiers};
use castellan::settings::settings_keybinds::{
    key, key_code_from_name, key_code_label, parse_key_code, shift_key, ctrl_key, AppKeybindsSettings,
    KeyChordSettings, KeyCommand,
};

#[test]
fn shift_char_binding_matches_uppercase_char_event() {
    let keybinds = AppKeybindsSettings {
        page_down: shift_key('j'),
        ..AppKeybindsSettings::default()
    };

    let command = keybinds.resolve_command(&KeyEvent::new(KeyCode::Char('J'), KeyModifiers::shift()));

    assert_eq!(command, Some(KeyCommand::PageDown));
}

#[test]
fn unshifted_and_shifted_char_bindings_do_not_overlap() {
    let keybinds = AppKeybindsSettings {
        scroll_down: key(KeyCode::Char('j')),
        page_down: shift_key('j'),
        ..AppKeybindsSettings::default()
    };

    let plain = keybinds.resolve_command(&KeyEvent::new(KeyCode::Char('j'), KeyModifiers::none()));
    let shifted = keybinds.resolve_command(&KeyEvent::new(KeyCode::Char('J'), KeyModifiers::shift()));

    assert_eq!(plain, Some(KeyCommand::ScrollDown));
    assert_eq!(shifted, Some(KeyCommand::PageDown));
}

#[test]
fn prev_tab_matches_backtab_with_shift_modifier() {
    let keybinds = AppKeybindsSettings::default();

    let command = keybinds.resolve_command(&KeyEvent::new(KeyCode::BackTab, KeyModifiers::shift()));

    assert_eq!(command, Some(KeyCommand::PrevTab));
}

#[test]
fn prev_tab_matches_shift_tab_encoding() {
    let keybinds = AppKeybindsSettings::default();

    let command = keybinds.resolve_command(&KeyEvent::new(KeyCode::Tab, KeyModifiers::shift()));

    assert_eq!(command, Some(KeyCommand::PrevTab));
}

#[test]
fn plain_tab_selects_next_tab() {
    let keybinds = AppKeybindsSettings::default();
    let command = keybinds.resolve_command(&KeyEvent::new(KeyCode::Tab, KeyModifiers::none()));
    assert_eq!(command, Some(KeyCommand::NextTab));
}

#[test]
fn modifiers_must_match_exactly() {
    let keybinds = AppKeybindsSettings::default();
    let with_alt = KeyEvent::new(KeyCode::Char('c'), KeyModifiers::control().union(KeyModifiers::alt()));
    assert_eq!(keybinds.resolve_command(&with_alt), None);
    let ctrl_c = KeyEvent::new(KeyCode::Char('c'), KeyModifiers::control());
    assert_eq!(keybinds.resolve_command(&ctrl_c), Some(KeyCommand::ExitApp));
}

#[test]
fn first_matching_command_wins() {
    let keybinds = AppKeybindsSettings {
        scroll_to_bottom: ctrl_key('c'),
        ..AppKeybindsSettings::default()
    };
    let ev = KeyEvent::new(KeyCode::Char('c'), KeyModifiers::control());
    assert_eq!(keybinds.resolve_command(&ev), Some(KeyCommand::ExitApp));
}

#[test]
fn unbound_key_resolves_to_nothing() {
    let keybinds = AppKeybindsSettings::default();
    let ev = KeyEvent::new(KeyCode::F(5), KeyModifiers::none());
    assert_eq!(keybinds.resolve_command(&ev), None);
}

#[test]
fn chord_labels_list_modifiers_then_key() {
    let keybinds = AppKeybindsSettings::default();
    assert_eq!(keybinds.label_for(KeyCommand::ExitApp), "ctrl+c");
    assert_eq!(keybinds.label_for(KeyCommand::PageDown), "shift+j");
    assert_eq!(keybinds.label_for(KeyCommand::PrevTab), "backtab");
    assert_eq!(keybinds.label_for(KeyCommand::Submit), "enter");
    let all = KeyChordSettings { code: KeyCode::Char('X'), ctrl: true, alt: true, shift: true };
    assert_eq!(all.label(), "ctrl+alt+shift+x");
    assert_eq!(KeyChordSettings::default().label(), "esc");
}

#[test]
fn key_code_labels() {
    assert_eq!(key_code_label(KeyCode::PageUp), "pageup");
    assert_eq!(key_code_label(KeyCode::Home), "key");
    assert_eq!(key_code_label(KeyCode::Char('Q')), "q");
}

#[test]
fn key_names_parse_with_aliases_case_and_spaces() {
    assert_eq!(parse_key_code("enter"), Some(KeyCode::Enter));
    assert_eq!(parse_key_code("  PgDn "), Some(KeyCode::PageDown));
    assert_eq!(parse_key_code("pgdown"), Some(KeyCode::PageDown));
    assert_eq!(parse_key_code("pgup"), Some(KeyCode::PageUp));
    assert_eq!(parse_key_code("Shift+Tab"), Some(KeyCode::BackTab));
    assert_eq!(parse_key_code("escape"), Some(KeyCode::Esc));
    assert_eq!(parse_key_code("K"), Some(KeyCode::Char('k')));
    assert_eq!(parse_key_code("ab"), None);
    assert_eq!(parse_key_code("   "), None);
}

#[test]
fn key_label_parses_back_to_the_key() {
    for name in ["enter", "tab", "backtab", "backspace", "up", "down", "pgup", "pgdn", "end", "esc", "Z"] {
        let code = parse_key_code(name).unwrap();
        assert_eq!(parse_key_code(&key_code_label(code)), Some(code));
    }
}

#[test]
fn invalid_key_name_is_refused_with_message() {
    assert_eq!(
        key_code_from_name("hyper"),
        Err("invalid key code 'hyper', expected one of: single character, enter, tab, backtab, backspace, up, down, pageup, pagedown, end, esc".to_string())
    );
    assert_eq!(key_code_from_name("end"), Ok(KeyCode::End));
}
