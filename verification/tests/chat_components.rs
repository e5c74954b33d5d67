use castellan::tui::components::chat::{
    calculate_input_height, chat_sections, empty_state_area, empty_state_gaps, empty_state_lines,
    empty_state_shortcuts, ChatState, EmptyStateLineKind, ScrollOffset, TranscriptRowKind,
};
use castellan::tui::components::info_sidebar::InfoSidebar;
use castellan::tui::components::request_message::RequestMessageWidget;
use castellan::tui::components::response_message::ResponseMessageWidget;
use castellan::tui::components::status_bar::{hint_text, mode_label, status_sections};
use castellan::tui::components::tabs_bar::{TabPiece, TabsBar};
use castellan::tui::components::user_input::{InputPart, UserInputWidget};
use castellan::tui::layout::Rect;
use castellan::tui::util::{wrap_text, wrapped_line_count};
use castellan::input::InputMode;
use castellan::settings::settings_keybinds::AppKeybindsSettings;

#[test]
fn wrapped_line_count_counts_rows() {
    assert_eq!(wrapped_line_count("abcdef", 0), 0);
    assert_eq!(wrapped_line_count("", 4), 1);
    assert_eq!(wrapped_line_count("abcd", 4), 1);
    assert_eq!(wrapped_line_count("abcde", 4), 2);
    assert_eq!(wrapped_line_count("ab\n\ncdefghij", 4), 4);
    assert_eq!(wrapped_line_count("\n", 3), 2);
}

#[test]
fn wrap_text_cuts_lines_into_chunks() {
    assert_eq!(wrap_text("abcdefg\n\nxy", 3), vec!["abc", "def", "g", "", "xy"]);
    assert_eq!(wrap_text("", 5), vec![""]);
    assert_eq!(wrap_text("héllo", 2), vec!["hé", "ll", "o"]);
    let text = "one two three\nfour";
    assert_eq!(wrap_text(text, 4).len(), wrapped_line_count(text, 4));
}

#[test]
fn request_rows_are_padded_between_spacers() {
    let rows = RequestMessageWidget::new("hello world", 7).plain_rows();
    assert_eq!(rows, vec!["       ", " hello ", "  worl ", " d     ", "       "]);
    let narrow = RequestMessageWidget::new("ab", 0).plain_rows();
    assert_eq!(narrow, vec![" ", " a ", " b ", " "]);
}

#[test]
fn response_rows_carry_prefix() {
    let rows = ResponseMessageWidget::new("abc\n\nde", 3).plain_rows();
    assert_eq!(rows, vec!["\u{2502}ab", "\u{2502}c", "\u{2502}", "\u{2502}de"]);
    assert_eq!(ResponseMessageWidget::new("", 10).plain_rows(), vec!["\u{2502}"]);
}

#[test]
fn input_height_includes_borders() {
    assert_eq!(UserInputWidget::required_height("anything", 0), 1);
    assert_eq!(UserInputWidget::required_height("", 10), 3);
    assert_eq!(UserInputWidget::required_height("abcdefghij", 6), 5);
    assert_eq!(calculate_input_height("abcdefghij", Rect::new(0, 0, 8, 40)), 5);
    assert_eq!(calculate_input_height("abcdefghij", Rect::new(0, 0, 8, 3)), 2);
}

#[test]
fn fresh_chat_state() {
    let chat = ChatState::default();
    assert_eq!(chat.title(), "chat");
    assert_eq!(chat.input(), "");
    assert!(chat.messages().is_empty());
    assert_eq!(chat.status_text(), "scroll: top");
}

#[test]
fn scrolling_is_clamped_and_reported() {
    let mut chat = ChatState::default();
    for _ in 0..5 {
        chat.push_assistant_message("a\nb\nc".to_string());
    }
    chat.record_render_metrics(20, 6);
    // 5 messages of 3 rows and 4 blank rows: 19 rows, 6 visible.
    assert_eq!(chat.scroll_offset().y, 14);
    chat.scroll_up(4);
    assert_eq!(chat.status_text(), "scroll: 4 lines up");
    chat.scroll_up(100);
    assert_eq!(chat.status_text(), "scroll: top");
    chat.scroll_down(usize::MAX);
    assert_eq!(chat.status_text(), "scroll: bottom");
    assert_eq!(chat.scroll_offset().y, 14);
    chat.scroll_up(3);
    chat.scroll_down(3);
    assert_eq!(chat.scroll_offset().y, 14);
}

#[test]
fn viewport_height_is_what_input_leaves() {
    let mut chat = ChatState::default();
    chat.set_viewport_from_area(Rect::new(0, 0, 30, 10));
    chat.set_scroll_offset(ScrollOffset { x: 0, y: 0 });
    chat.push_char('x');
    chat.record_render_metrics(30, 7);
    assert_eq!(chat.status_text(), "scroll: bottom");
}

#[test]
fn welcome_screen_layout() {
    assert_eq!(empty_state_gaps(10, 4), (0, 0));
    assert_eq!(empty_state_gaps(3, 10), (3, 4));
    let shortcuts = empty_state_shortcuts(&AppKeybindsSettings::default());
    assert_eq!(shortcuts[0], ("ctrl+t".to_string(), "new tab".to_string()));
    assert_eq!(shortcuts[1], ("ctrl+w".to_string(), "close tab".to_string()));
    assert_eq!(shortcuts[2], ("i".to_string(), "insert mode".to_string()));
    assert_eq!(shortcuts[3], ("esc".to_string(), "normal mode".to_string()));
}

#[test]
fn status_bar_texts() {
    let keybinds = AppKeybindsSettings::default();
    assert_eq!(mode_label(InputMode::Normal), " normal ");
    assert_eq!(
        hint_text(InputMode::Normal, &keybinds),
        "i insert | tab/backtab switch | ctrl+t new | ctrl+w close | j/k scroll | ctrl+c quit"
    );
    assert_eq!(
        hint_text(InputMode::Insert, &keybinds),
        "enter send | esc normal | backspace delete | placeholder: chars and model hint"
    );
}

#[test]
fn tab_strip_and_sidebar_texts() {
    let tabs = vec!["chat 1".to_string(), "notes".to_string()];
    let bar = TabsBar::new(&tabs, 1);
    assert_eq!(bar.tab_texts(), vec![" chat 1 ", " notes "]);
    assert_eq!(bar.active_tab(), 1);
    let empty: Vec<String> = Vec::new();
    assert_eq!(TabsBar::new(&empty, 0).tab_texts(), vec!["no chats"]);
    assert_eq!(InfoSidebar::new().content(), "metadata / useful info");
}

#[test]
fn welcome_screen_lines_are_padded_to_the_widest_entry() {
    let lines = empty_state_lines(&AppKeybindsSettings::default());
    assert_eq!(lines.len(), 14);
    for line in &lines[0..7] {
        assert_eq!(line.kind, EmptyStateLineKind::Brand);
        assert_eq!(line.text.chars().count(), 45);
    }
    assert_eq!(lines[7].kind, EmptyStateLineKind::Blank);
    assert_eq!(lines[7].text, "");
    assert_eq!(lines[8].kind, EmptyStateLineKind::Heading);
    assert_eq!(lines[8].text, "Keyboard Shortcuts");
    assert_eq!(lines[9].kind, EmptyStateLineKind::Rule);
    assert_eq!(lines[9].text, "\u{2500}".repeat(18));
    let rows: Vec<(String, String)> = lines[10..]
        .iter()
        .map(|l| {
            assert_eq!(l.kind, EmptyStateLineKind::Shortcut);
            (l.text.clone(), l.detail.clone())
        })
        .collect();
    assert_eq!(
        rows,
        vec![
            ("ctrl+t  ".to_string(), "new tab    ".to_string()),
            ("ctrl+w  ".to_string(), "close tab  ".to_string()),
            ("i       ".to_string(), "insert mode".to_string()),
            ("esc     ".to_string(), "normal mode".to_string()),
        ]
    );
}

#[test]
fn chat_area_splits_into_transcript_and_input() {
    let (transcript, input) = chat_sections("", Rect::new(0, 0, 50, 20));
    assert_eq!(transcript, Rect::new(1, 0, 48, 16));
    assert_eq!(input, Rect::new(1, 17, 48, 3));
}

#[test]
fn welcome_screen_is_centred_in_the_transcript() {
    assert_eq!(empty_state_area(Rect::new(1, 0, 48, 16), 14), Rect::new(1, 1, 48, 14));
    assert_eq!(empty_state_area(Rect::new(1, 0, 48, 10), 14), Rect::new(1, 0, 48, 10));
}

#[test]
fn status_bar_splits_into_badge_hints_and_scroll() {
    let (badge, hints, scroll) = status_sections(Rect::new(0, 21, 80, 1));
    assert_eq!(badge, Rect::new(1, 21, 16, 1));
    assert_eq!(hints, Rect::new(17, 21, 38, 1));
    assert_eq!(scroll, Rect::new(55, 21, 24, 1));
}

#[test]
fn inner_rect_drops_margins_or_collapses() {
    assert_eq!(Rect::new(2, 3, 10, 6).inner(1, 2), Rect::new(3, 5, 8, 2));
    assert_eq!(Rect::new(2, 3, 1, 6).inner(1, 0), Rect::new(0, 0, 0, 0));
    assert_eq!(Rect::new(2, 3, 2, 6).inner(1, 0), Rect::new(3, 3, 0, 6));
}

#[test]
fn input_line_shows_placeholder_or_text_with_cursor() {
    assert_eq!(
        UserInputWidget::new("").line_parts(),
        vec![(InputPart::Cursor, "\u{2588}".to_string()), (InputPart::Placeholder, "type a message...".to_string())]
    );
    assert_eq!(
        UserInputWidget::new("hi").line_parts(),
        vec![(InputPart::Text, "hi".to_string()), (InputPart::Cursor, "\u{2588}".to_string())]
    );
}

#[test]
fn transcript_rows_separate_messages_with_a_gap() {
    let mut chat = ChatState::default();
    chat.push_user_message("hi".to_string());
    chat.push_assistant_message("ok then".to_string());
    let rows = chat.transcript_rows(6);
    assert_eq!(
        rows,
        vec![
            (TranscriptRowKind::Request, "      ".to_string()),
            (TranscriptRowKind::Request, " hi   ".to_string()),
            (TranscriptRowKind::Request, "      ".to_string()),
            (TranscriptRowKind::Gap, String::new()),
            (TranscriptRowKind::Response, "ok th".to_string()),
            (TranscriptRowKind::Response, "en".to_string()),
        ]
    );
    assert!(ChatState::default().transcript_rows(0).is_empty());
}

#[test]
fn bottom_anchor_is_clamped_and_follows_the_next_render() {
    let mut chat = ChatState::default();
    chat.push_assistant_message("a\nb\nc".to_string());
    chat.record_render_metrics(20, 2);
    // 3 rows, 2 visible: the bottom is offset 2.
    assert_eq!(chat.scroll_offset().y, 2);
    chat.scroll_up(2);
    assert_eq!(chat.scroll_offset().y, 0);
    chat.scroll_to_bottom();
    assert_eq!(chat.scroll_offset().y, 2);
    assert_eq!(chat.status_text(), "scroll: bottom");
    // A new message anchors at the bottom of the current bounds, and the
    // render that counts its rows moves to the new bottom.
    chat.push_user_message("hi".to_string());
    assert_eq!(chat.scroll_offset().y, 2);
    chat.record_render_metrics(20, 2);
    // 3 + 1 + 3 rows, 2 visible.
    assert_eq!(chat.scroll_offset().y, 6);
    assert_eq!(chat.status_text(), "scroll: bottom");
}

#[test]
fn tab_strip_joins_tabs_and_highlights_the_selected_one() {
    let labels = vec!["a".to_string(), "bb".to_string(), "c".to_string()];
    assert_eq!(
        TabsBar::new(&labels, 1).tab_pieces(),
        vec![
            (TabPiece::Unselected, " a ".to_string()),
            (TabPiece::Plain, "  ".to_string()),
            (TabPiece::Selected, " bb ".to_string()),
            (TabPiece::Plain, "  ".to_string()),
            (TabPiece::Unselected, " c ".to_string()),
        ]
    );
    let none: Vec<String> = Vec::new();
    assert_eq!(TabsBar::new(&none, 0).tab_pieces(), vec![(TabPiece::Plain, "no chats".to_string())]);
    assert!(TabsBar::new(&labels, 7).tab_pieces().iter().all(|(p, _)| *p != TabPiece::Selected));
}

#[test]
fn newline_separated_lines_wrap_independently() {
    assert_eq!(wrapped_line_count("abcde\nxy", 2), wrapped_line_count("abcde", 2) + wrapped_line_count("xy", 2));
    assert_eq!(wrapped_line_count("abcde", 2), 3);
    assert_eq!(wrapped_line_count("", 2), 1);
}

#[test]
fn input_box_shrinks_only_when_widened_and_grows_only_when_typed() {
    let text = "hello there, general";
    assert!(UserInputWidget::required_height(text, 30) <= UserInputWidget::required_height(text, 8));
    assert_eq!(UserInputWidget::required_height(text, 8), 6);
    assert!(UserInputWidget::required_height("hello there, general!", 8) >= UserInputWidget::required_height(text, 8));
}
