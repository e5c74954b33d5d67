//! Chat state: title, input buffer, transcript and transcript scrolling.
use vstd::prelude::*;

use crate::settings::settings_keybinds::{AppKeybindsSettings, KeyCommand};
use crate::text::{chars_of, decimal, decimal_string, owned, push_str, trim, trim_str};
use crate::tui::components::request_message::{request_content_width, request_rows, RequestMessageWidget};
use crate::tui::components::response_message::{
    response_content_lines, response_content_width, ResponseMessageWidget,
};
use crate::tui::components::user_input::{spec_required_height, UserInputWidget};
use crate::tui::layout::{
    layout_outcome, spec_inner, split_area, vertical_piece, Constraint, Direction, Flex, Rect,
};
use crate::tui::util::{
    lemma_wrapped_count_matches_rows, pad_right, push_padded, spec_wrapped_line_count, string_views,
    wrapped_line_count,
};

verus! {

/// Speaker identity for a transcript message.
#[derive(Clone, Copy, Debug, PartialEq, Eq, Structural)]
pub enum ChatSender {
    /// Message authored by the local user.
    User,
    /// Message authored by the assistant backend.
    Assistant,
}

/// Single row in the transcript with speaker and content.
#[derive(Clone, Debug)]
pub struct ChatMessage {
    pub sender: ChatSender,
    pub content: String,
}

/// The messages of a chat, oldest first.
struct ChatTranscript {
    messages: Vec<ChatMessage>,
}

/// A message as plain values.
pub open spec fn message_view(m: ChatMessage) -> (ChatSender, Seq<char>) {
    (m.sender, m.content@)
}

impl ChatTranscript {
    spec fn spec_messages(&self) -> Seq<(ChatSender, Seq<char>)> {
        self.messages@.map_values(|m: ChatMessage| message_view(m))
    }

    fn new() -> (r: Self)
        ensures
            r.spec_messages() == Seq::<(ChatSender, Seq<char>)>::empty(),
    {
        let r = ChatTranscript { messages: Vec::new() };
        assert(r.spec_messages() =~= Seq::<(ChatSender, Seq<char>)>::empty());
        r
    }

    fn is_empty(&self) -> (r: bool)
        ensures
            r == (self.spec_messages().len() == 0),
    {
        self.messages.len() == 0
    }

    fn len(&self) -> (r: usize)
        ensures
            r == self.spec_messages().len(),
    {
        self.messages.len()
    }

    fn push_message(&mut self, sender: ChatSender, content: String)
        ensures
            final(self).spec_messages() == old(self).spec_messages().push((sender, content@)),
    {
        let ghost before = self.messages@;
        self.messages.push(ChatMessage { sender, content });
        assert(self.messages@.map_values(|m: ChatMessage| message_view(m)) =~= before.map_values(
            |m: ChatMessage| message_view(m),
        ).push((sender, content@)));
    }

    fn push_user_message(&mut self, content: String)
        ensures
            final(self).spec_messages() == old(self).spec_messages().push(
                (ChatSender::User, content@),
            ),
    {
        self.push_message(ChatSender::User, content);
    }

    fn push_assistant_message(&mut self, content: String)
        ensures
            final(self).spec_messages() == old(self).spec_messages().push(
                (ChatSender::Assistant, content@),
            ),
    {
        self.push_message(ChatSender::Assistant, content);
    }
}

/// The scroll position of the transcript viewport, in cells.
#[derive(Clone, Copy, Debug, PartialEq, Eq, Structural)]
pub struct ScrollOffset {
    pub x: u16,
    pub y: u16,
}

/// The abstract state of a chat.
#[verifier::ext_equal]
pub struct ChatStateView {
    pub title: Seq<char>,
    pub input: Seq<char>,
    pub messages: Seq<(ChatSender, Seq<char>)>,
    pub offset_x: u16,
    pub offset_y: u16,
    pub content_height: u16,
    pub viewport_height: u16,
    /// Whether the view follows the bottom: set when anchored at the
    /// bottom, so that the next render, which may add rows, moves the
    /// offset to the new bottom.
    pub follow_bottom: bool,
}

/// `a - b`, or 0 where that would be negative.
pub open spec fn sat_sub(a: int, b: int) -> int {
    if a > b {
        a - b
    } else {
        0
    }
}

/// The smaller of two integers.
pub open spec fn min_int(a: int, b: int) -> int {
    if a < b {
        a
    } else {
        b
    }
}

/// The larger of two integers.
pub open spec fn max_int(a: int, b: int) -> int {
    if a > b {
        a
    } else {
        b
    }
}

/// Freshly created chat state.
pub open spec fn new_chat_view() -> ChatStateView {
    ChatStateView {
        title: "chat"@,
        input: Seq::empty(),
        messages: Seq::empty(),
        offset_x: 0,
        offset_y: 0,
        content_height: 1,
        viewport_height: 1,
        follow_bottom: false,
    }
}

/// The largest vertical offset: the content height less all but one row of
/// the viewport.
pub open spec fn max_scroll(v: ChatStateView) -> u16 {
    sat_sub(v.content_height as int, sat_sub(v.viewport_height as int, 1)) as u16
}

/// `v` with its vertical offset limited to [`max_scroll`].
pub open spec fn clamped(v: ChatStateView) -> ChatStateView {
    ChatStateView { offset_y: min_int(v.offset_y as int, max_scroll(v) as int) as u16, ..v }
}

/// `v` with vertical offset `y`, then clamped; it no longer follows the
/// bottom.
pub open spec fn with_offset_y(v: ChatStateView, y: u16) -> ChatStateView {
    clamped(ChatStateView { offset_y: y, follow_bottom: false, ..v })
}

/// The step a scroll of `lines` moves: at most `u16::MAX`.
pub open spec fn scroll_step(lines: usize) -> int {
    min_int(lines as int, u16::MAX as int)
}

/// `v` scrolled up by `lines` rows (not past the top).
pub open spec fn scrolled_up(v: ChatStateView, lines: usize) -> ChatStateView {
    with_offset_y(v, sat_sub(v.offset_y as int, scroll_step(lines)) as u16)
}

/// `v` scrolled down by `lines` rows (not past the bottom).
pub open spec fn scrolled_down(v: ChatStateView, lines: usize) -> ChatStateView {
    with_offset_y(v, min_int(v.offset_y + scroll_step(lines), u16::MAX as int) as u16)
}

/// `v`, no longer following the bottom.
pub open spec fn unfollowed(v: ChatStateView) -> ChatStateView {
    ChatStateView { follow_bottom: false, ..v }
}

/// `v` anchored at the bottom: the offset is the largest within the
/// current bounds, and the view follows the bottom until the next render.
pub open spec fn at_bottom(v: ChatStateView) -> ChatStateView {
    ChatStateView { offset_y: max_scroll(v), follow_bottom: true, ..v }
}

/// `v` with one more message, anchored at the bottom.
pub open spec fn with_message(v: ChatStateView, sender: ChatSender, content: Seq<char>) -> ChatStateView {
    at_bottom(ChatStateView { messages: v.messages.push((sender, content)), ..v })
}

/// `v` with new transcript metrics (each at least 1): a view that follows
/// the bottom moves to the new bottom, any other is clamped to the new
/// bounds; either way it no longer follows the bottom.
pub open spec fn with_metrics(v: ChatStateView, content_height: u16, viewport_height: u16) -> ChatStateView {
    let m = ChatStateView {
        content_height: max_int(content_height as int, 1) as u16,
        viewport_height: max_int(viewport_height as int, 1) as u16,
        follow_bottom: false,
        ..v
    };
    if v.follow_bottom {
        ChatStateView { offset_y: max_scroll(m), ..m }
    } else {
        clamped(m)
    }
}

/// The scroll status shown in the status bar.
pub open spec fn spec_status_text(v: ChatStateView) -> Seq<char> {
    if v.offset_y >= max_scroll(v) {
        "scroll: bottom"@
    } else if v.offset_y == 0 {
        "scroll: top"@
    } else {
        "scroll: "@ + decimal(sat_sub(max_scroll(v) as int, v.offset_y as int) as nat)
            + " lines up"@
    }
}

/// The input box height in a chat area: the box's required height at the
/// area width less the border columns, at most the area height less one
/// row (and at least 1).
pub open spec fn spec_input_height(input: Seq<char>, area: Rect) -> u16 {
    let needed = spec_required_height(input, sat_sub(area.width as int, 2) as u16);
    let limit = max_int(sat_sub(area.height as int, 1), 1);
    min_int(needed as int, limit) as u16
}

/// The transcript viewport height in a chat area: what the input box
/// leaves, at least 1.
pub open spec fn spec_viewport_for_area(input: Seq<char>, area: Rect) -> u16 {
    max_int(sat_sub(area.height as int, spec_input_height(input, area) as int), 1) as u16
}

/// `n`, or `usize::MAX` where it is larger.
pub open spec fn sat_usize(n: int) -> int {
    if n > usize::MAX {
        usize::MAX as int
    } else {
        n
    }
}

/// The number of rendered rows of one message at a transcript width.
pub open spec fn message_row_count(m: (ChatSender, Seq<char>), width: nat) -> nat {
    match m.0 {
        ChatSender::User => spec_wrapped_line_count(m.1, request_content_width(width)) + 2,
        ChatSender::Assistant => spec_wrapped_line_count(m.1, response_content_width(width)),
    }
}

/// The number of rendered rows of a transcript: every message's rows with a
/// blank row between consecutive messages.
pub open spec fn transcript_row_count(messages: Seq<(ChatSender, Seq<char>)>, width: nat) -> nat
    decreases messages.len(),
{
    if messages.len() == 0 {
        0
    } else if messages.len() == 1 {
        message_row_count(messages[0], width)
    } else {
        transcript_row_count(messages.drop_last(), width) + 1 + message_row_count(
            messages.last(),
            width,
        )
    }
}

/// What a transcript row shows, which decides its style.
#[derive(Clone, Copy, Debug, PartialEq, Eq, Structural)]
pub enum TranscriptRowKind {
    /// A row of a user message, already padded to the transcript width.
    Request,
    /// A wrapped line of an assistant message, shown after the prefix
    /// marker.
    Response,
    /// The blank row between two messages.
    Gap,
}

/// The rows of one message at a transcript width.
pub open spec fn spec_message_rows(m: (ChatSender, Seq<char>), width: nat) -> Seq<(TranscriptRowKind, Seq<char>)> {
    match m.0 {
        ChatSender::User => request_rows(m.1, width).map_values(
            |row: Seq<char>| (TranscriptRowKind::Request, row),
        ),
        ChatSender::Assistant => response_content_lines(m.1, width).map_values(
            |line: Seq<char>| (TranscriptRowKind::Response, line),
        ),
    }
}

/// The rows of a transcript: every message's rows, with a gap row between
/// consecutive messages.
pub open spec fn spec_transcript_rows(messages: Seq<(ChatSender, Seq<char>)>, width: nat) -> Seq<(TranscriptRowKind, Seq<char>)>
    decreases messages.len(),
{
    if messages.len() == 0 {
        Seq::empty()
    } else if messages.len() == 1 {
        spec_message_rows(messages[0], width)
    } else {
        spec_transcript_rows(messages.drop_last(), width) + seq![
            (TranscriptRowKind::Gap, Seq::<char>::empty()),
        ] + spec_message_rows(messages.last(), width)
    }
}

/// A transcript renders into as many rows as its row count says.
pub proof fn lemma_transcript_rows_len(messages: Seq<(ChatSender, Seq<char>)>, width: nat)
    requires
        width >= 1,
    ensures
        spec_transcript_rows(messages, width).len() == transcript_row_count(messages, width),
    decreases messages.len(),
{
    if messages.len() > 0 {
        let m = messages.last();
        lemma_wrapped_count_matches_rows(m.1, request_content_width(width));
        lemma_wrapped_count_matches_rows(m.1, response_content_width(width));
        if messages.len() > 1 {
            lemma_transcript_rows_len(messages.drop_last(), width);
        } else {
            assert(messages[0] == m);
        }
    }
}

/// The content height recorded when a transcript of `messages` is rendered
/// `width` cells wide: its row count (at least 1), at most `u16::MAX`.
pub open spec fn rendered_content_height(messages: Seq<(ChatSender, Seq<char>)>, width: nat) -> u16 {
    min_int(max_int(transcript_row_count(messages, width) as int, 1), u16::MAX as int) as u16
}

/// The state after a render of the transcript into an area of the given
/// width and height: an empty transcript shows the welcome screen and
/// counts one content row.
pub open spec fn rendered(v: ChatStateView, width: u16, height: u16) -> ChatStateView {
    let viewport = max_int(height as int, 1) as u16;
    if v.messages.len() == 0 {
        with_metrics(v, 1, viewport)
    } else {
        with_metrics(
            v,
            rendered_content_height(v.messages, max_int(width as int, 1) as nat),
            viewport,
        )
    }
}

/// Mutable chat domain state used by app events and rendering.
///
/// The vertical scroll offset is clamped to the current transcript bounds
/// whenever metrics are recorded, the view is scrolled or anchored at the
/// bottom; a view anchored at the bottom moves to the new bottom when the
/// next render records its metrics.
pub struct ChatState {
    title: String,
    input: String,
    transcript: ChatTranscript,
    scroll_offset: ScrollOffset,
    transcript_content_height: u16,
    transcript_viewport_height: u16,
    follow_bottom: bool,
}

impl View for ChatState {
    type V = ChatStateView;

    closed spec fn view(&self) -> ChatStateView {
        ChatStateView {
            title: self.title@,
            input: self.input@,
            messages: self.transcript.spec_messages(),
            offset_x: self.scroll_offset.x,
            offset_y: self.scroll_offset.y,
            content_height: self.transcript_content_height,
            viewport_height: self.transcript_viewport_height,
            follow_bottom: self.follow_bottom,
        }
    }
}

impl Default for ChatState {
    fn default() -> (r: Self)
        ensures
            r@ == new_chat_view(),
    {
        ChatState {
            title: owned("chat"),
            input: String::new(),
            transcript: ChatTranscript::new(),
            scroll_offset: ScrollOffset { x: 0, y: 0 },
            transcript_content_height: 1,
            transcript_viewport_height: 1,
            follow_bottom: false,
        }
    }
}

/// The input box height for `input` in a chat area.
pub fn calculate_input_height(input: &str, area: Rect) -> (r: u16)
    ensures
        r == spec_input_height(input@, area),
{
    let input_panel_width = area.width.saturating_sub(2);
    let input_height = UserInputWidget::required_height(input, input_panel_width);
    let available = area.height.saturating_sub(1);
    let max_input_height = if available > 1 {
        available
    } else {
        1
    };
    if input_height < max_input_height {
        input_height
    } else {
        max_input_height
    }
}

/// The gaps above and below a block of `content` rows centred in
/// `available` rows: none when it does not fit, else the odd row below.
pub fn empty_state_gaps(content: usize, available: usize) -> (r: (usize, usize))
    ensures
        r == spec_empty_state_gaps(content, available),
        content >= available ==> r == (0usize, 0usize),
        content < available ==> r.0 == (available - content) / 2 && r.0 + content + r.1
            == available,
{
    if content >= available {
        (0, 0)
    } else {
        let gap = (available - content) / 2;
        (gap, available - content - gap)
    }
}

/// Splits a chat `area` into its transcript and input sections: inside a
/// one-column margin on each side, the layout solver cuts it vertically,
/// one row apart, into the transcript (at least one row) and the input box
/// (the height `calculate_input_height` gives). The result is the
/// solver's answer to that request, the transcript first; both sections
/// have the inner area's columns and lie within its rows. Where the solver
/// puts the cut is its own.
pub fn chat_sections(input: &str, area: Rect) -> (r: (Rect, Rect))
    ensures
        layout_outcome(
            spec_inner(area, 1, 0),
            Direction::Vertical,
            Flex::Start,
            1,
            seq![Constraint::Min(1), Constraint::Length(spec_input_height(input@, area))],
            seq![r.0, r.1],
        ),
        vertical_piece(r.0, spec_inner(area, 1, 0)),
        vertical_piece(r.1, spec_inner(area, 1, 0)),
{
    let input_height = calculate_input_height(input, area);
    let constraints = vec![Constraint::Min(1), Constraint::Length(input_height)];
    let sections = split_area(area.inner(1, 0), Direction::Vertical, Flex::Start, 1, &constraints);
    assert(constraints@ =~= seq![Constraint::Min(1), Constraint::Length(input_height)]);
    let r = (sections[0], sections[1]);
    assert(sections@ =~= seq![r.0, r.1]);
    r
}

/// The gaps above and below a block of `content` rows centred in
/// `available` rows: none when it does not fit, else the odd row below.
pub open spec fn spec_empty_state_gaps(content: usize, available: usize) -> (usize, usize) {
    if content >= available {
        (0, 0)
    } else {
        (((available - content) / 2) as usize, (available - content - (available - content) / 2) as usize)
    }
}

/// The request for the welcome screen's area: the top gap, the lines and
/// the bottom gap as lengths, each taken modulo 2^16.
pub open spec fn empty_state_constraints(transcript: Rect, line_count: usize) -> Seq<Constraint> {
    let gaps = spec_empty_state_gaps(line_count, transcript.height as usize);
    seq![
        Constraint::Length(gaps.0 as u16),
        Constraint::Length(line_count as u16),
        Constraint::Length(gaps.1 as u16),
    ]
}

/// Places the welcome screen of `line_count` lines in the transcript
/// section, centred vertically: the middle area of a vertical split into
/// the top gap, the lines and the bottom gap (`empty_state_gaps`), each
/// length taken modulo 2^16. The area is the middle one of the solver's
/// answer to that request; it has the transcript's columns and lies within
/// its rows.
pub fn empty_state_area(transcript: Rect, line_count: usize) -> (r: Rect)
    ensures
        exists|parts: Seq<Rect>|
            #[trigger] layout_outcome(
                transcript,
                Direction::Vertical,
                Flex::Start,
                0,
                empty_state_constraints(transcript, line_count),
                parts,
            ) && parts.len() == 3 && parts[1] == r,
        vertical_piece(r, transcript),
{
    let (top, bottom) = empty_state_gaps(line_count, transcript.height as usize);
    let constraints = vec![
        Constraint::Length(top as u16),
        Constraint::Length(line_count as u16),
        Constraint::Length(bottom as u16),
    ];
    let parts = split_area(transcript, Direction::Vertical, Flex::Start, 0, &constraints);
    assert(constraints@ =~= empty_state_constraints(transcript, line_count));
    parts[1]
}

/// The key labels and descriptions of the shortcuts shown on the welcome
/// screen.
pub fn empty_state_shortcuts(keybinds: &AppKeybindsSettings) -> (r: Vec<(String, String)>)
    ensures
        r@.len() == 4,
        r@[0].0@ == keybinds.binding(KeyCommand::NewChatTab).spec_label(),
        r@[0].1@ == "new tab"@,
        r@[1].0@ == keybinds.binding(KeyCommand::CloseCurrentTab).spec_label(),
        r@[1].1@ == "close tab"@,
        r@[2].0@ == keybinds.binding(KeyCommand::EnterInputMode).spec_label(),
        r@[2].1@ == "insert mode"@,
        r@[3].0@ == keybinds.binding(KeyCommand::ExitInputMode).spec_label(),
        r@[3].1@ == "normal mode"@,
{
    let mut r: Vec<(String, String)> = Vec::new();
    r.push((keybinds.label_for(KeyCommand::NewChatTab), owned("new tab")));
    r.push((keybinds.label_for(KeyCommand::CloseCurrentTab), owned("close tab")));
    r.push((keybinds.label_for(KeyCommand::EnterInputMode), owned("insert mode")));
    r.push((keybinds.label_for(KeyCommand::ExitInputMode), owned("normal mode")));
    r
}

/// What a line of the welcome screen shows, which decides its style.
#[derive(Clone, Copy, Debug, PartialEq, Eq, Structural)]
pub enum EmptyStateLineKind {
    /// A row of the brand art.
    Brand,
    /// An empty separator row.
    Blank,
    /// The shortcuts heading.
    Heading,
    /// The rule under the heading.
    Rule,
    /// A shortcut: `text` is its key label, `detail` its description.
    Shortcut,
}

/// One line of the welcome screen shown while a chat has no messages.
#[derive(Clone, Debug)]
pub struct EmptyStateLine {
    pub kind: EmptyStateLineKind,
    pub text: String,
    pub detail: String,
}

/// The rows of the brand art, top to bottom.
pub open spec fn brand_rows() -> Seq<Seq<char>> {
    seq![
        "                                             "@,
        "                           \u{2584}\u{2584} \u{2584}\u{2584}             "@,
        "                   \u{2588}\u{2584}       \u{2588}\u{2588} \u{2588}\u{2588}            "@,
        "                  \u{2584}\u{2588}\u{2588}\u{2584}      \u{2588}\u{2588} \u{2588}\u{2588}       \u{2584}    "@,
        " \u{2584}\u{2588}\u{2588}\u{2588}\u{2580} \u{2584}\u{2580}\u{2580}\u{2588}\u{2584} \u{2584}\u{2588}\u{2588}\u{2580}\u{2588} \u{2588}\u{2588} \u{2584}\u{2588}\u{2580}\u{2588}\u{2584} \u{2588}\u{2588} \u{2588}\u{2588} \u{2584}\u{2580}\u{2580}\u{2588}\u{2584} \u{2588}\u{2588}\u{2588}\u{2588}\u{2584}"@,
        " \u{2588}\u{2588}    \u{2584}\u{2588}\u{2580}\u{2588}\u{2588} \u{2580}\u{2588}\u{2588}\u{2588}\u{2584} \u{2588}\u{2588} \u{2588}\u{2588}\u{2584}\u{2588}\u{2580} \u{2588}\u{2588} \u{2588}\u{2588} \u{2584}\u{2588}\u{2580}\u{2588}\u{2588} \u{2588}\u{2588} \u{2588}\u{2588}"@,
        "\u{2584}\u{2580}\u{2588}\u{2588}\u{2588}\u{2584}\u{2584}\u{2580}\u{2588}\u{2584}\u{2588}\u{2588}\u{2588}\u{2584}\u{2584}\u{2588}\u{2588}\u{2580}\u{2584}\u{2588}\u{2588}\u{2584}\u{2580}\u{2588}\u{2584}\u{2584}\u{2584}\u{2584}\u{2588}\u{2588}\u{2584}\u{2588}\u{2588}\u{2584}\u{2580}\u{2588}\u{2584}\u{2588}\u{2588}\u{2584}\u{2588}\u{2588} \u{2580}\u{2588}"@,
    ]
}

/// The key labels and descriptions of the welcome screen's shortcuts.
pub open spec fn spec_empty_state_shortcuts(k: AppKeybindsSettings) -> Seq<(Seq<char>, Seq<char>)> {
    seq![
        (k.binding(KeyCommand::NewChatTab).spec_label(), "new tab"@),
        (k.binding(KeyCommand::CloseCurrentTab).spec_label(), "close tab"@),
        (k.binding(KeyCommand::EnterInputMode).spec_label(), "insert mode"@),
        (k.binding(KeyCommand::ExitInputMode).spec_label(), "normal mode"@),
    ]
}

/// The length of the longest of `s`, 0 when `s` is empty.
pub open spec fn max_width(s: Seq<Seq<char>>) -> nat
    decreases s.len(),
{
    if s.len() == 0 {
        0
    } else {
        let m = max_width(s.drop_last());
        if s.last().len() > m {
            s.last().len()
        } else {
            m
        }
    }
}

/// The key labels of the shortcuts.
pub open spec fn shortcut_keys(s: Seq<(Seq<char>, Seq<char>)>) -> Seq<Seq<char>> {
    s.map_values(|p: (Seq<char>, Seq<char>)| p.0)
}

/// The descriptions of the shortcuts.
pub open spec fn shortcut_descs(s: Seq<(Seq<char>, Seq<char>)>) -> Seq<Seq<char>> {
    s.map_values(|p: (Seq<char>, Seq<char>)| p.1)
}

/// The text of the rule under the heading: eighteen box-drawing dashes.
pub open spec fn rule_text() -> Seq<char> {
    Seq::new(18, |_i: int| '\u{2500}')
}

/// The welcome screen as (kind, text, detail) triples: the brand art, a
/// blank line, the heading, the rule, then one line per shortcut whose key
/// is padded to the widest key plus two spaces and whose description is
/// padded to the widest description.
pub open spec fn spec_empty_state_lines(k: AppKeybindsSettings) -> Seq<(EmptyStateLineKind, Seq<char>, Seq<char>)> {
    let brand = brand_rows().map_values(
        |row: Seq<char>| (EmptyStateLineKind::Brand, row, Seq::<char>::empty()),
    );
    let shortcuts = spec_empty_state_shortcuts(k);
    let key_width = max_width(shortcut_keys(shortcuts));
    let desc_width = max_width(shortcut_descs(shortcuts));
    brand + seq![
        (EmptyStateLineKind::Blank, Seq::<char>::empty(), Seq::<char>::empty()),
        (EmptyStateLineKind::Heading, "Keyboard Shortcuts"@, Seq::<char>::empty()),
        (EmptyStateLineKind::Rule, rule_text(), Seq::<char>::empty()),
    ] + shortcuts.map_values(
        |p: (Seq<char>, Seq<char>)|
            (
                EmptyStateLineKind::Shortcut,
                pad_right(p.0, key_width) + seq![' ', ' '],
                pad_right(p.1, desc_width),
            ),
    )
}

/// A line as plain values.
pub open spec fn empty_state_line_view(l: EmptyStateLine) -> (EmptyStateLineKind, Seq<char>, Seq<char>) {
    (l.kind, l.text@, l.detail@)
}

fn plain_line(kind: EmptyStateLineKind, text: &str) -> (r: EmptyStateLine)
    ensures
        empty_state_line_view(r) == (kind, text@, Seq::<char>::empty()),
{
    EmptyStateLine { kind, text: owned(text), detail: String::new() }
}

/// The width of the widest of the first or second strings of `pairs`.
fn widest(pairs: &Vec<(String, String)>, second: bool) -> (r: usize)
    ensures
        second ==> r == max_width(pairs@.map_values(|p: (String, String)| p.1@)),
        !second ==> r == max_width(pairs@.map_values(|p: (String, String)| p.0@)),
{
    let ghost all = if second {
        pairs@.map_values(|p: (String, String)| p.1@)
    } else {
        pairs@.map_values(|p: (String, String)| p.0@)
    };
    let mut m: usize = 0;
    let mut i: usize = 0;
    while i < pairs.len()
        invariant
            i <= pairs@.len(),
            all.len() == pairs@.len(),
            second ==> all == pairs@.map_values(|p: (String, String)| p.1@),
            !second ==> all == pairs@.map_values(|p: (String, String)| p.0@),
            m == max_width(all.take(i as int)),
        decreases pairs@.len() - i,
    {
        let chars = if second {
            chars_of(pairs[i].1.as_str())
        } else {
            chars_of(pairs[i].0.as_str())
        };
        assert(all.take(i + 1).drop_last() =~= all.take(i as int));
        assert(chars@ == all[i as int]);
        if chars.len() > m {
            m = chars.len();
        }
        i = i + 1;
    }
    assert(all.take(i as int) =~= all);
    m
}

/// Builds the welcome screen lines for the given key bindings.
pub fn empty_state_lines(keybinds: &AppKeybindsSettings) -> (r: Vec<EmptyStateLine>)
    ensures
        r@.map_values(|l: EmptyStateLine| empty_state_line_view(l)) == spec_empty_state_lines(*keybinds),
{
    let mut r: Vec<EmptyStateLine> = Vec::new();
    r.push(plain_line(EmptyStateLineKind::Brand, "                                             "));
    r.push(plain_line(EmptyStateLineKind::Brand, "                           \u{2584}\u{2584} \u{2584}\u{2584}             "));
    r.push(plain_line(EmptyStateLineKind::Brand, "                   \u{2588}\u{2584}       \u{2588}\u{2588} \u{2588}\u{2588}            "));
    r.push(plain_line(EmptyStateLineKind::Brand, "                  \u{2584}\u{2588}\u{2588}\u{2584}      \u{2588}\u{2588} \u{2588}\u{2588}       \u{2584}    "));
    r.push(plain_line(EmptyStateLineKind::Brand, " \u{2584}\u{2588}\u{2588}\u{2588}\u{2580} \u{2584}\u{2580}\u{2580}\u{2588}\u{2584} \u{2584}\u{2588}\u{2588}\u{2580}\u{2588} \u{2588}\u{2588} \u{2584}\u{2588}\u{2580}\u{2588}\u{2584} \u{2588}\u{2588} \u{2588}\u{2588} \u{2584}\u{2580}\u{2580}\u{2588}\u{2584} \u{2588}\u{2588}\u{2588}\u{2588}\u{2584}"));
    r.push(plain_line(EmptyStateLineKind::Brand, " \u{2588}\u{2588}    \u{2584}\u{2588}\u{2580}\u{2588}\u{2588} \u{2580}\u{2588}\u{2588}\u{2588}\u{2584} \u{2588}\u{2588} \u{2588}\u{2588}\u{2584}\u{2588}\u{2580} \u{2588}\u{2588} \u{2588}\u{2588} \u{2584}\u{2588}\u{2580}\u{2588}\u{2588} \u{2588}\u{2588} \u{2588}\u{2588}"));
    r.push(plain_line(EmptyStateLineKind::Brand, "\u{2584}\u{2580}\u{2588}\u{2588}\u{2588}\u{2584}\u{2584}\u{2580}\u{2588}\u{2584}\u{2588}\u{2588}\u{2588}\u{2584}\u{2584}\u{2588}\u{2588}\u{2580}\u{2584}\u{2588}\u{2588}\u{2584}\u{2580}\u{2588}\u{2584}\u{2584}\u{2584}\u{2584}\u{2588}\u{2588}\u{2584}\u{2588}\u{2588}\u{2584}\u{2580}\u{2588}\u{2584}\u{2588}\u{2588}\u{2584}\u{2588}\u{2588} \u{2580}\u{2588}"));
    r.push(plain_line(EmptyStateLineKind::Blank, ""));
    r.push(plain_line(EmptyStateLineKind::Heading, "Keyboard Shortcuts"));
    let mut rule = String::new();
    let mut k: usize = 0;
    while k < 18
        invariant
            k <= 18,
            rule@ == Seq::new(k as nat, |_i: int| '\u{2500}'),
        decreases 18 - k,
    {
        rule.push('\u{2500}');
        assert(rule@ =~= Seq::new((k + 1) as nat, |_i: int| '\u{2500}'));
        k = k + 1;
    }
    r.push(EmptyStateLine { kind: EmptyStateLineKind::Rule, text: rule, detail: String::new() });
    let ghost head = r@;
    let ghost head_spec = brand_rows().map_values(
        |row: Seq<char>| (EmptyStateLineKind::Brand, row, Seq::<char>::empty()),
    ) + seq![
        (EmptyStateLineKind::Blank, Seq::<char>::empty(), Seq::<char>::empty()),
        (EmptyStateLineKind::Heading, "Keyboard Shortcuts"@, Seq::<char>::empty()),
        (EmptyStateLineKind::Rule, rule_text(), Seq::<char>::empty()),
    ];
    proof {
        reveal_strlit("");
        assert(rule_text() =~= Seq::new(18, |_i: int| '\u{2500}'));
        assert(head.len() == 10);
        assert(empty_state_line_view(head[0]) == head_spec[0]);
        assert(empty_state_line_view(head[6]) == head_spec[6]);
        assert(empty_state_line_view(head[7]) == head_spec[7]);
        assert(empty_state_line_view(head[8]) == head_spec[8]);
        assert(empty_state_line_view(head[9]) == head_spec[9]);
        assert(head.map_values(|l: EmptyStateLine| empty_state_line_view(l)) =~= head_spec);
    }
    let shortcuts = empty_state_shortcuts(keybinds);
    let ghost spec_shortcuts = spec_empty_state_shortcuts(*keybinds);
    assert(shortcuts@.map_values(|p: (String, String)| p.0@) =~= shortcut_keys(spec_shortcuts));
    assert(shortcuts@.map_values(|p: (String, String)| p.1@) =~= shortcut_descs(spec_shortcuts));
    let key_width = widest(&shortcuts, false);
    let desc_width = widest(&shortcuts, true);
    let mut i: usize = 0;
    while i < shortcuts.len()
        invariant
            i <= shortcuts@.len(),
            shortcuts@.len() == 4,
            forall|j: int| 0 <= j < 4 ==> #[trigger] shortcuts@[j].0@ == spec_shortcuts[j].0
                && shortcuts@[j].1@ == spec_shortcuts[j].1,
            spec_shortcuts == spec_empty_state_shortcuts(*keybinds),
            key_width == max_width(shortcut_keys(spec_shortcuts)),
            desc_width == max_width(shortcut_descs(spec_shortcuts)),
            r@.len() == head.len() + i,
            r@.take(head.len() as int) == head,
            forall|j: int| 0 <= j < i ==> empty_state_line_view(#[trigger] r@[head.len() + j]) == (
                EmptyStateLineKind::Shortcut,
                pad_right(spec_shortcuts[j].0, key_width as nat) + seq![' ', ' '],
                pad_right(spec_shortcuts[j].1, desc_width as nat),
            ),
        decreases shortcuts@.len() - i,
    {
        let mut text = String::new();
        push_padded(&mut text, shortcuts[i].0.as_str(), key_width);
        text.push(' ');
        text.push(' ');
        let mut detail = String::new();
        push_padded(&mut detail, shortcuts[i].1.as_str(), desc_width);
        assert(text@ =~= pad_right(spec_shortcuts[i as int].0, key_width as nat) + seq![' ', ' ']);
        assert(detail@ =~= pad_right(spec_shortcuts[i as int].1, desc_width as nat));
        r.push(EmptyStateLine { kind: EmptyStateLineKind::Shortcut, text, detail });
        assert(r@.take(head.len() as int) =~= head);
        i = i + 1;
    }
    proof {
        let whole = spec_empty_state_lines(*keybinds);
        let got = r@.map_values(|l: EmptyStateLine| empty_state_line_view(l));
        assert(whole.len() == head_spec.len() + 4);
        assert forall|j: int| 0 <= j < got.len() implies got[j] == whole[j] by {
            if j < head.len() {
                assert(r@[j] == r@.take(head.len() as int)[j]);
                assert(head.map_values(|l: EmptyStateLine| empty_state_line_view(l))[j] == head_spec[j]);
            } else {
                let t = j - head.len();
                assert(r@[head.len() + t] == r@[j]);
            }
        }
        assert(got =~= whole);
    }
    r
}

impl ChatState {
    fn max_scroll_offset(&self) -> (r: u16)
        ensures
            r == max_scroll(self@),
    {
        self.transcript_content_height.saturating_sub(
            self.transcript_viewport_height.saturating_sub(1),
        )
    }

    fn clamp_scroll_offset(&mut self)
        ensures
            final(self)@ == clamped(old(self)@),
    {
        let max = self.max_scroll_offset();
        if self.scroll_offset.y > max {
            self.scroll_offset.y = max;
        }
    }

    fn set_transcript_metrics(&mut self, content_height: u16, viewport_height: u16)
        ensures
            final(self)@ == with_metrics(old(self)@, content_height, viewport_height),
    {
        self.transcript_content_height = if content_height > 1 {
            content_height
        } else {
            1
        };
        self.transcript_viewport_height = if viewport_height > 1 {
            viewport_height
        } else {
            1
        };
        if self.follow_bottom {
            self.follow_bottom = false;
            self.scroll_offset.y = self.max_scroll_offset();
        } else {
            self.clamp_scroll_offset();
        }
    }

    fn set_scroll_offset_y(&mut self, y: u16)
        ensures
            final(self)@ == with_offset_y(old(self)@, y),
    {
        self.scroll_offset.y = y;
        self.follow_bottom = false;
        self.clamp_scroll_offset();
    }

    /// The display title shown in tab labels.
    pub fn title(&self) -> (r: &str)
        ensures
            r@ == self@.title,
    {
        self.title.as_str()
    }

    /// The text typed so far.
    pub fn input(&self) -> (r: &str)
        ensures
            r@ == self@.input,
    {
        self.input.as_str()
    }

    /// The transcript messages, oldest first.
    pub fn messages(&self) -> (r: &Vec<ChatMessage>)
        ensures
            r@.map_values(|m: ChatMessage| message_view(m)) == self@.messages,
    {
        &self.transcript.messages
    }

    /// The scroll position of the transcript viewport.
    pub fn scroll_offset(&self) -> (r: ScrollOffset)
        ensures
            r.x == self@.offset_x,
            r.y == self@.offset_y,
    {
        self.scroll_offset
    }

    /// Records the scroll position that a render of the transcript settled
    /// on.
    pub fn set_scroll_offset(&mut self, offset: ScrollOffset)
        ensures
            final(self)@ == (ChatStateView {
                offset_x: offset.x,
                offset_y: offset.y,
                follow_bottom: false,
                ..old(self)@
            }),
    {
        self.scroll_offset = offset;
        self.follow_bottom = false;
    }

    /// Updates the display title shown in sidebar tab labels.
    pub fn set_title(&mut self, title: String)
        ensures
            final(self)@ == (ChatStateView { title: title@, ..old(self)@ }),
    {
        self.title = title;
    }

    /// Updates viewport-derived values used for transcript scrolling.
    ///
    /// Call this whenever the chat render area changes size.
    pub fn set_viewport_from_area(&mut self, area: Rect)
        ensures
            final(self)@ == (ChatStateView {
                viewport_height: spec_viewport_for_area(old(self)@.input, area),
                ..old(self)@
            }),
    {
        let input_height = calculate_input_height(self.input.as_str(), area);
        let remaining = area.height.saturating_sub(input_height);
        let transcript_height = if remaining > 1 {
            remaining
        } else {
            1
        };
        self.transcript_viewport_height = transcript_height;
    }

    /// Appends a typed character to input.
    pub fn push_char(&mut self, ch: char)
        ensures
            final(self)@ == (ChatStateView { input: old(self)@.input.push(ch), ..old(self)@ }),
    {
        self.input.push(ch);
    }

    /// Removes one character from input.
    pub fn backspace(&mut self)
        ensures
            final(self)@ == (ChatStateView {
                input: if old(self)@.input.len() > 0 {
                    old(self)@.input.drop_last()
                } else {
                    old(self)@.input
                },
                ..old(self)@
            }),
    {
        let _ = self.input.pop();
    }

    /// Returns a submit-ready message and clears input when valid.
    ///
    /// The message is the input without surrounding white space; white-space
    /// only input is refused and kept.
    pub fn take_input_for_submit(&mut self) -> (r: Option<String>)
        ensures
            trim(old(self)@.input).len() == 0 ==> r is None && final(self)@ == old(self)@,
            trim(old(self)@.input).len() > 0 ==> r is Some && r->0@ == trim(old(self)@.input)
                && final(self)@ == (ChatStateView { input: Seq::empty(), ..old(self)@ }),
    {
        let candidate = trim_str(self.input.as_str());
        if candidate.as_str().is_empty() {
            return None;
        }
        self.input = String::new();
        Some(candidate)
    }

    /// Appends a user message and anchors transcript to bottom.
    pub fn push_user_message(&mut self, content: String)
        ensures
            final(self)@ == with_message(old(self)@, ChatSender::User, content@),
    {
        self.transcript.push_user_message(content);
        self.scroll_to_bottom();
    }

    /// Appends an assistant message and anchors transcript to bottom.
    pub fn push_assistant_message(&mut self, content: String)
        ensures
            final(self)@ == with_message(old(self)@, ChatSender::Assistant, content@),
    {
        self.transcript.push_assistant_message(content);
        self.scroll_to_bottom();
    }

    /// Moves transcript scroll up by wrapped lines.
    pub fn scroll_up(&mut self, lines: usize)
        ensures
            final(self)@ == scrolled_up(old(self)@, lines),
    {
        let step: u16 = if lines < 65535 {
            lines as u16
        } else {
            65535
        };
        let y = self.scroll_offset.y.saturating_sub(step);
        self.set_scroll_offset_y(y);
    }

    /// Moves transcript scroll down by wrapped lines.
    pub fn scroll_down(&mut self, lines: usize)
        ensures
            final(self)@ == scrolled_down(old(self)@, lines),
    {
        let step: u16 = if lines < 65535 {
            lines as u16
        } else {
            65535
        };
        let y = self.scroll_offset.y.saturating_add(step);
        self.set_scroll_offset_y(y);
    }

    /// Jumps transcript scroll to latest content.
    ///
    /// The offset moves to the bottom of the current bounds, and the view
    /// follows the bottom through the next render, so stale pre-render
    /// content metrics cannot pull the view off the bottom.
    pub fn scroll_to_bottom(&mut self)
        ensures
            final(self)@ == at_bottom(old(self)@),
    {
        self.scroll_offset.y = self.max_scroll_offset();
        self.follow_bottom = true;
    }

    /// Builds status text consumed by the app status bar.
    pub fn status_text(&self) -> (r: String)
        ensures
            r@ == spec_status_text(self@),
    {
        let offset = self.scroll_offset.y;
        let max_scroll = self.max_scroll_offset();
        if offset >= max_scroll {
            owned("scroll: bottom")
        } else if offset == 0 {
            owned("scroll: top")
        } else {
            let mut r = owned("scroll: ");
            let n = decimal_string((max_scroll - offset) as usize);
            push_str(&mut r, n.as_str());
            push_str(&mut r, " lines up");
            r
        }
    }

    /// The number of rows one message renders into at `width`.
    fn message_rows(message: &ChatMessage, width: usize) -> (r: usize)
        requires
            width >= 1,
        ensures
            r as int == sat_usize(message_row_count(message_view(*message), width as nat) as int),
    {
        match message.sender {
            ChatSender::User => {
                let content_width = if width > 3 {
                    width - 2
                } else {
                    1
                };
                wrapped_line_count(message.content.as_str(), content_width).saturating_add(2)
            },
            ChatSender::Assistant => {
                let content_width = if width > 2 {
                    width - 1
                } else {
                    1
                };
                wrapped_line_count(message.content.as_str(), content_width)
            },
        }
    }

    /// The rows of the transcript at transcript `width` (at least 1): every
    /// message's rows, with a blank row between consecutive messages.
    pub fn transcript_rows(&self, width: u16) -> (r: Vec<(TranscriptRowKind, String)>)
        ensures
            r@.map_values(|p: (TranscriptRowKind, String)| (p.0, p.1@)) == spec_transcript_rows(
                self@.messages,
                max_int(width as int, 1) as nat,
            ),
            r@.len() == transcript_row_count(self@.messages, max_int(width as int, 1) as nat),
    {
        let w: usize = if width > 1 {
            width as usize
        } else {
            1
        };
        let ghost msgs = self.transcript.spec_messages();
        let n = self.transcript.messages.len();
        let mut r: Vec<(TranscriptRowKind, String)> = Vec::new();
        let mut i: usize = 0;
        while i < n
            invariant
                n == msgs.len(),
                msgs == self.transcript.spec_messages(),
                msgs == self@.messages,
                w as int == max_int(width as int, 1),
                i <= n,
                r@.map_values(|p: (TranscriptRowKind, String)| (p.0, p.1@)) == spec_transcript_rows(
                    msgs.take(i as int),
                    w as nat,
                ),
            decreases n - i,
        {
            let ghost before = r@.map_values(|p: (TranscriptRowKind, String)| (p.0, p.1@));
            if i > 0 {
                r.push((TranscriptRowKind::Gap, String::new()));
            }
            let ghost with_gap = r@.map_values(|p: (TranscriptRowKind, String)| (p.0, p.1@));
            let message = &self.transcript.messages[i];
            let (kind, rows) = match message.sender {
                ChatSender::User => (
                    TranscriptRowKind::Request,
                    RequestMessageWidget::new(message.content.as_str(), w).plain_rows(),
                ),
                ChatSender::Assistant => (
                    TranscriptRowKind::Response,
                    ResponseMessageWidget::new(message.content.as_str(), w).wrapped_content_lines(),
                ),
            };
            proof {
                assert(msgs[i as int] == message_view(*message));
                assert(string_views(rows@).map_values(|row: Seq<char>| (kind, row)) =~= spec_message_rows(
                    msgs[i as int],
                    w as nat,
                ));
            }
            let mut j: usize = 0;
            while j < rows.len()
                invariant
                    j <= rows@.len(),
                    r@.map_values(|p: (TranscriptRowKind, String)| (p.0, p.1@)) == with_gap
                        + string_views(rows@).take(j as int).map_values(
                        |row: Seq<char>| (kind, row),
                    ),
                decreases rows@.len() - j,
            {
                let ghost prev = r@;
                r.push((kind, rows[j].clone()));
                proof {
                    assert(r@.map_values(|p: (TranscriptRowKind, String)| (p.0, p.1@)) =~= prev.map_values(
                        |p: (TranscriptRowKind, String)| (p.0, p.1@),
                    ).push((kind, rows@[j as int]@)));
                    assert(string_views(rows@).take(j + 1).map_values(|row: Seq<char>| (kind, row))
                        =~= string_views(rows@).take(j as int).map_values(
                        |row: Seq<char>| (kind, row),
                    ).push((kind, rows@[j as int]@)));
                }
                j = j + 1;
            }
            proof {
                assert(string_views(rows@).take(j as int) =~= string_views(rows@));
                let t = msgs.take(i + 1);
                assert(t.drop_last() =~= msgs.take(i as int));
                assert(t.last() == msgs[i as int]);
                if i == 0 {
                    assert(t.len() == 1);
                    assert(t[0] == msgs[0]);
                    assert(spec_transcript_rows(msgs.take(0), w as nat) =~= Seq::empty());
                    assert(with_gap =~= Seq::empty());
                } else {
                    assert(with_gap =~= before + seq![(TranscriptRowKind::Gap, Seq::<char>::empty())]);
                }
                assert(r@.map_values(|p: (TranscriptRowKind, String)| (p.0, p.1@)) =~= spec_transcript_rows(
                    t,
                    w as nat,
                ));
            }
            i = i + 1;
        }
        proof {
            assert(msgs.take(n as int) =~= msgs);
            lemma_transcript_rows_len(msgs, w as nat);
        }
        r
    }

    /// Records the transcript metrics of a render into an area of the given
    /// size: the content height counts every message's rows and the blank
    /// rows between messages (one row for the welcome screen of an empty
    /// transcript), and the scroll offset is clamped to the new bounds.
    pub fn record_render_metrics(&mut self, width: u16, height: u16)
        ensures
            final(self)@ == rendered(old(self)@, width, height),
    {
        let viewport = if height > 1 {
            height
        } else {
            1
        };
        if self.transcript.is_empty() {
            self.set_transcript_metrics(1, viewport);
            return;
        }
        let w: usize = if width > 1 {
            width as usize
        } else {
            1
        };
        let ghost msgs = self.transcript.spec_messages();
        let n = self.transcript.len();
        let mut total: usize = 0;
        let mut i: usize = 0;
        while i < n
            invariant
                n == msgs.len(),
                msgs == self.transcript.spec_messages(),
                w >= 1,
                i <= n,
                total as int == sat_usize(transcript_row_count(msgs.take(i as int), w as nat) as int),
            decreases n - i,
        {
            let rows = Self::message_rows(&self.transcript.messages[i], w);
            proof {
                assert(msgs[i as int] == message_view(self.transcript.messages@[i as int]));
                let t = msgs.take(i + 1);
                assert(t.drop_last() =~= msgs.take(i as int));
                assert(t.last() == msgs[i as int]);
                if i == 0 {
                    assert(t.len() == 1);
                    assert(t[0] == msgs[0]);
                }
            }
            if i > 0 {
                total = total.saturating_add(1);
            }
            total = total.saturating_add(rows);
            i = i + 1;
        }
        proof {
            assert(msgs.take(n as int) =~= msgs);
        }
        let counted = if total > 1 {
            total
        } else {
            1
        };
        let content_height: u16 = if counted < 65535 {
            counted as u16
        } else {
            65535
        };
        self.set_transcript_metrics(content_height, viewport);
    }
}

} // verus!

verus! {

/// Scrolling, recording metrics and rendering leave the vertical offset
/// within the transcript bounds.
pub proof fn lemma_offset_within_bounds(v: ChatStateView, lines: usize, content: u16, viewport: u16, width: u16, height: u16)
    ensures
        scrolled_up(v, lines).offset_y <= max_scroll(scrolled_up(v, lines)),
        scrolled_down(v, lines).offset_y <= max_scroll(scrolled_down(v, lines)),
        with_metrics(v, content, viewport).offset_y <= max_scroll(with_metrics(v, content, viewport)),
        rendered(v, width, height).offset_y <= max_scroll(rendered(v, width, height)),
{
}

/// Scrolling down and back up by the same amount returns to the same view
/// (no longer following the bottom) while the bottom is not reached, and so
/// does scrolling up and back down while the top is not reached.
pub proof fn lemma_scroll_round_trip(v: ChatStateView, lines: usize)
    requires
        v.offset_y <= max_scroll(v),
    ensures
        v.offset_y + lines <= max_scroll(v) ==> scrolled_up(scrolled_down(v, lines), lines)
            == unfollowed(v),
        lines <= v.offset_y ==> scrolled_down(scrolled_up(v, lines), lines) == unfollowed(v),
{
    if v.offset_y + lines <= max_scroll(v) {
        assert(scrolled_up(scrolled_down(v, lines), lines) =~= unfollowed(v));
    }
    if lines <= v.offset_y {
        assert(scrolled_down(scrolled_up(v, lines), lines) =~= unfollowed(v));
    }
}

/// A view anchored at the bottom is at the largest offset within its
/// bounds and reports the bottom, and it is still there after the next
/// render, whatever that render measures.
pub proof fn lemma_bottom_status(v: ChatStateView, content: u16, viewport: u16)
    ensures
        at_bottom(v).offset_y == max_scroll(at_bottom(v)),
        spec_status_text(at_bottom(v)) == "scroll: bottom"@,
        with_metrics(at_bottom(v), content, viewport).offset_y == max_scroll(
            with_metrics(at_bottom(v), content, viewport),
        ),
{
}

/// Recorded metrics are at least one row each.
pub proof fn lemma_metrics_positive(v: ChatStateView, content: u16, viewport: u16)
    ensures
        with_metrics(v, content, viewport).content_height >= 1,
        with_metrics(v, content, viewport).viewport_height >= 1,
{
}

} // verus!
