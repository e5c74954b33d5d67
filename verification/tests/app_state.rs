use castellan::input::key_event::{KeyCode, KeyEvent, KeyModifiers};
use castellan::input::{InputMode, KeyCommand, KeybindResolver};
use castellan::settings::settings_keybinds::AppKeybindsSettings;
use castellan::tui::app::{Castellan, CommandResult};
use castellan::tui::layout::Rect;

fn labels(app: &Castellan) -> Vec<String> {
    app.tab_labels()
}

fn type_text(app: &mut Castellan, text: &str) {
    for ch in text.chars() {
        app.push_char(ch);
    }
}

#[test]
fn starts_with_one_tab_in_normal_mode() {
    let app = Castellan::default();
    assert_eq!(labels(&app), vec!["chat 1".to_string()]);
    assert_eq!(app.active_tab_index(), 0);
    assert_eq!(app.input_mode, InputMode::Normal);
    assert!(!app.is_renaming_current_tab());
}

#[test]
fn new_tabs_are_numbered_and_selected() {
    let mut app = Castellan::default();
    app.apply_command(KeyCommand::NewChatTab, 1, 10);
    app.apply_command(KeyCommand::NewChatTab, 1, 10);
    assert_eq!(labels(&app), vec!["chat 1", "chat 2", "chat 3"]);
    assert_eq!(app.active_tab_index(), 2);
}

#[test]
fn next_and_prev_wrap_around() {
    let mut app = Castellan::default();
    app.apply_command(KeyCommand::NewChatTab, 1, 10);
    app.apply_command(KeyCommand::NewChatTab, 1, 10);
    app.apply_command(KeyCommand::NextTab, 1, 10);
    assert_eq!(app.active_tab_index(), 0);
    app.apply_command(KeyCommand::PrevTab, 1, 10);
    assert_eq!(app.active_tab_index(), 2);
    app.apply_command(KeyCommand::NextTab, 1, 10);
    app.apply_command(KeyCommand::PrevTab, 1, 10);
    assert_eq!(app.active_tab_index(), 2);
}

#[test]
fn single_tab_does_not_switch_or_close() {
    let mut app = Castellan::default();
    app.apply_command(KeyCommand::NextTab, 1, 10);
    app.apply_command(KeyCommand::PrevTab, 1, 10);
    app.apply_command(KeyCommand::CloseCurrentTab, 1, 10);
    assert_eq!(labels(&app), vec!["chat 1"]);
    assert_eq!(app.active_tab_index(), 0);
}

#[test]
fn closing_last_tab_selects_new_last() {
    let mut app = Castellan::default();
    app.apply_command(KeyCommand::NewChatTab, 1, 10);
    app.apply_command(KeyCommand::NewChatTab, 1, 10);
    app.apply_command(KeyCommand::CloseCurrentTab, 1, 10);
    assert_eq!(labels(&app), vec!["chat 1", "chat 2"]);
    assert_eq!(app.active_tab_index(), 1);
    app.apply_command(KeyCommand::PrevTab, 1, 10);
    app.apply_command(KeyCommand::CloseCurrentTab, 1, 10);
    assert_eq!(labels(&app), vec!["chat 2"]);
    assert_eq!(app.active_tab_index(), 0);
}

#[test]
fn close_undoes_new_tab() {
    let mut app = Castellan::default();
    app.apply_command(KeyCommand::NewChatTab, 1, 10);
    app.apply_command(KeyCommand::CloseCurrentTab, 1, 10);
    assert_eq!(labels(&app), vec!["chat 1"]);
}

#[test]
fn mode_commands_switch_modes() {
    let mut app = Castellan::default();
    app.apply_command(KeyCommand::EnterInputMode, 1, 10);
    assert_eq!(app.input_mode, InputMode::Insert);
    app.apply_command(KeyCommand::ExitInputMode, 1, 10);
    assert_eq!(app.input_mode, InputMode::Normal);
    assert!(matches!(app.apply_command(KeyCommand::ExitApp, 1, 10), CommandResult::Exit));
}

#[test]
fn submit_sends_trimmed_input_and_clears_it() {
    let mut app = Castellan::default();
    type_text(&mut app, "  hello there \n");
    match app.apply_command(KeyCommand::Submit, 1, 10) {
        CommandResult::Submit { tab_index, message } => {
            assert_eq!(tab_index, 0);
            assert_eq!(message, "hello there");
        }
        _ => panic!("expected a submit"),
    }
    let chat = app.active_chat();
    assert_eq!(chat.input(), "");
    assert_eq!(chat.messages().len(), 1);
    assert_eq!(chat.messages()[0].content, "hello there");
    assert_eq!(chat.status_text(), "scroll: bottom");
}

#[test]
fn blank_submit_is_refused() {
    let mut app = Castellan::default();
    type_text(&mut app, " \t ");
    assert!(matches!(app.apply_command(KeyCommand::Submit, 1, 10), CommandResult::Continue));
    assert_eq!(app.active_chat().input(), " \t ");
    assert!(app.take_input_for_submit().is_none());
}

#[test]
fn backspace_removes_last_character() {
    let mut app = Castellan::default();
    type_text(&mut app, "ab");
    app.apply_command(KeyCommand::Backspace, 1, 10);
    assert_eq!(app.active_chat().input(), "a");
    app.backspace();
    app.backspace();
    assert_eq!(app.active_chat().input(), "");
}

#[test]
fn take_input_reports_tab_index() {
    let mut app = Castellan::default();
    app.apply_command(KeyCommand::NewChatTab, 1, 10);
    type_text(&mut app, "hi");
    assert_eq!(app.take_input_for_submit(), Some((1, "hi".to_string())));
    assert_eq!(app.active_chat().input(), "");
}

#[test]
fn assistant_reply_goes_to_its_tab_and_bad_index_is_ignored() {
    let mut app = Castellan::default();
    app.apply_command(KeyCommand::NewChatTab, 1, 10);
    app.push_assistant_message_for_tab(0, "reply".to_string());
    app.push_assistant_message_for_tab(7, "lost".to_string());
    assert_eq!(app.active_chat().messages().len(), 0);
    app.apply_command(KeyCommand::NextTab, 1, 10);
    assert_eq!(app.active_chat().messages().len(), 1);
    assert_eq!(app.active_chat().messages()[0].content, "reply");
}

#[test]
fn rename_flow_commits_trimmed_title() {
    let mut app = Castellan::default();
    app.apply_command(KeyCommand::RenameCurrentTab, 1, 10);
    assert!(app.is_renaming_current_tab());
    for ch in " notes x".chars() {
        assert!(app.handle_rename_key_event(KeyEvent::new(KeyCode::Char(ch), KeyModifiers::none())));
    }
    assert_eq!(labels(&app), vec![" notes x\u{2588}"]);
    app.handle_rename_key_event(KeyEvent::new(KeyCode::Backspace, KeyModifiers::none()));
    app.handle_rename_key_event(KeyEvent::new(KeyCode::Char('w'), KeyModifiers::control()));
    app.handle_rename_key_event(KeyEvent::new(KeyCode::Enter, KeyModifiers::none()));
    assert!(!app.is_renaming_current_tab());
    assert_eq!(labels(&app), vec!["notes"]);
    assert!(!app.handle_rename_key_event(KeyEvent::new(KeyCode::Char('z'), KeyModifiers::none())));
}

#[test]
fn blank_or_cancelled_rename_keeps_title() {
    let mut app = Castellan::default();
    app.rename_current_tab();
    app.rename_current_tab_push_char(' ');
    app.commit_current_tab_rename();
    assert_eq!(labels(&app), vec!["chat 1"]);
    app.rename_current_tab();
    app.rename_current_tab_push_char('q');
    app.handle_rename_key_event(KeyEvent::new(KeyCode::Esc, KeyModifiers::none()));
    assert!(!app.is_renaming_current_tab());
    assert_eq!(labels(&app), vec!["chat 1"]);
}

#[test]
fn rename_only_starts_in_normal_mode() {
    let mut app = Castellan::default();
    app.apply_command(KeyCommand::EnterInputMode, 1, 10);
    app.apply_command(KeyCommand::RenameCurrentTab, 1, 10);
    assert!(!app.is_renaming_current_tab());
}

#[test]
fn closing_a_tab_cancels_rename() {
    let mut app = Castellan::default();
    app.rename_current_tab();
    app.close_current_tab();
    assert!(!app.is_renaming_current_tab());
}

#[test]
fn layout_regions_split_page() {
    let (chat, sidebar, status) = Castellan::layout_regions(Rect::new(0, 0, 100, 40));
    assert_eq!(status, Rect::new(0, 39, 100, 1));
    assert_eq!(chat, Rect::new(0, 0, 68, 38));
    assert_eq!(sidebar, Rect::new(70, 0, 30, 38));
}

#[test]
fn viewport_follows_terminal_area() {
    let mut app = Castellan::default();
    for _ in 0..30 {
        app.push_user_message("line".to_string());
    }
    app.update_viewport_from_area(Rect::new(0, 0, 100, 40));
    app.record_render_metrics(68, 38);
    assert_eq!(app.active_chat().status_text(), "scroll: bottom");
    app.apply_command(KeyCommand::PageUp, 1, 10);
    assert_eq!(app.active_chat().status_text(), "scroll: 10 lines up");
    app.apply_command(KeyCommand::ScrollDown, 1, 10);
    assert_eq!(app.active_chat().status_text(), "scroll: 9 lines up");
    app.apply_command(KeyCommand::ScrollToBottom, 1, 10);
    assert_eq!(app.active_chat().status_text(), "scroll: bottom");
}

fn press(app: &mut Castellan, resolver: &KeybindResolver, code: KeyCode, modifiers: KeyModifiers) -> CommandResult {
    app.handle_key_event(resolver, KeyEvent::new(code, modifiers), 1, 10)
}

#[test]
fn key_presses_drive_modes_typing_and_submit() {
    let keybinds = AppKeybindsSettings::default();
    let resolver = KeybindResolver::new(&keybinds);
    let mut app = Castellan::default();
    // A plain character in normal mode does nothing.
    assert!(matches!(press(&mut app, &resolver, KeyCode::Char('h'), KeyModifiers::none()), CommandResult::Continue));
    assert_eq!(app.active_chat().input(), "");
    press(&mut app, &resolver, KeyCode::Char('i'), KeyModifiers::none());
    assert_eq!(app.input_mode, InputMode::Insert);
    for ch in " hi ".chars() {
        press(&mut app, &resolver, KeyCode::Char(ch), KeyModifiers::none());
    }
    assert_eq!(app.active_chat().input(), " hi ");
    match press(&mut app, &resolver, KeyCode::Enter, KeyModifiers::none()) {
        CommandResult::Submit { tab_index, message } => {
            assert_eq!(tab_index, 0);
            assert_eq!(message, "hi");
        }
        _ => panic!("expected a submit"),
    }
    assert_eq!(app.active_chat().input(), "");
    press(&mut app, &resolver, KeyCode::Esc, KeyModifiers::none());
    assert_eq!(app.input_mode, InputMode::Normal);
    assert!(matches!(press(&mut app, &resolver, KeyCode::Char('c'), KeyModifiers::control()), CommandResult::Exit));
}

#[test]
fn key_presses_go_to_a_rename_first() {
    let keybinds = AppKeybindsSettings::default();
    let resolver = KeybindResolver::new(&keybinds);
    let mut app = Castellan::default();
    app.apply_command(KeyCommand::RenameCurrentTab, 1, 10);
    // ctrl+c would quit, but the rename takes the key and ignores it.
    assert!(matches!(press(&mut app, &resolver, KeyCode::Char('c'), KeyModifiers::control()), CommandResult::Continue));
    press(&mut app, &resolver, KeyCode::Char('x'), KeyModifiers::none());
    press(&mut app, &resolver, KeyCode::Enter, KeyModifiers::none());
    assert_eq!(labels(&app), vec!["x".to_string()]);
    assert!(matches!(press(&mut app, &resolver, KeyCode::Char('c'), KeyModifiers::control()), CommandResult::Exit));
}

#[test]
fn prev_then_next_and_a_full_cycle_return_to_the_tab() {
    let mut app = Castellan::default();
    app.apply_command(KeyCommand::NewChatTab, 1, 10);
    app.apply_command(KeyCommand::NewChatTab, 1, 10);
    app.apply_command(KeyCommand::NextTab, 1, 10);
    assert_eq!(app.active_tab_index(), 0);
    app.apply_command(KeyCommand::PrevTab, 1, 10);
    app.apply_command(KeyCommand::NextTab, 1, 10);
    assert_eq!(app.active_tab_index(), 0);
    app.apply_command(KeyCommand::NextTab, 1, 10);
    for _ in 0..3 {
        app.apply_command(KeyCommand::NextTab, 1, 10);
    }
    assert_eq!(app.active_tab_index(), 1);
}

#[test]
fn only_exit_quits_and_only_submit_sends() {
    let mut app = Castellan::default();
    assert!(matches!(app.apply_command(KeyCommand::ExitApp, 1, 10), CommandResult::Exit));
    assert_eq!(labels(&app), vec!["chat 1".to_string()]);
    assert!(matches!(app.apply_command(KeyCommand::ScrollUp, 1, 10), CommandResult::Continue));
    assert!(matches!(app.apply_command(KeyCommand::Submit, 1, 10), CommandResult::Continue));
    type_text(&mut app, "x");
    assert!(matches!(app.apply_command(KeyCommand::Submit, 1, 10), CommandResult::Submit { .. }));
}
