//! App shell state: chat tabs, input mode, tab renaming and command
//! application.
use vstd::prelude::*;
use vstd::arithmetic::div_mod::{lemma_mod_add_multiples_vanish, lemma_small_mod};

use crate::input::key_event::{KeyCode, KeyEvent};
use crate::input::{spec_resolve, InputMode, KeyAction, KeyCommand, KeybindResolver};
use crate::settings::settings_keybinds::AppKeybindsSettings;
use crate::text::{decimal, decimal_string, owned, push_str, string_from_chars, trim, trim_str};
use crate::tui::components::chat::{
    spec_viewport_for_area,
    at_bottom, max_scroll, min_int, new_chat_view, rendered, scrolled_down, scrolled_up, with_message, ChatSender,
    ChatState, ChatStateView, ScrollOffset,
};
use crate::tui::layout::{
    horizontal_piece, layout_outcome, split_area, vertical_piece, within_columns, within_rows, Constraint, Direction, Flex,
    Rect,
};

verus! {

/// What the caller must do after a command.
pub enum CommandResult {
    /// Nothing further: the app carries on.
    Continue,
    /// Quit the app.
    Exit,
    /// Send `message`, typed in tab `tab_index`, to the assistant.
    Submit { tab_index: usize, message: String },
}

/// The abstract state of the app.
#[verifier::ext_equal]
pub struct CastellanView {
    /// The chat tabs, in display order.
    pub tabs: Seq<ChatStateView>,
    /// The index of the selected tab.
    pub active: int,
    /// The interaction mode.
    pub input_mode: InputMode,
    /// The title draft while the selected tab is being renamed.
    pub rename: Option<Seq<char>>,
}

/// The cursor glyph shown after a title draft.
pub const RENAME_CURSOR: char = '\u{2588}';

/// The title of the `n`-th tab created: `chat <n>`.
pub open spec fn default_tab_title(n: nat) -> Seq<char> {
    "chat "@ + decimal(n)
}

/// A new tab titled for position `n`.
pub open spec fn new_tab_view(n: nat) -> ChatStateView {
    ChatStateView { title: default_tab_title(n), ..new_chat_view() }
}

/// The app at start: one tab, normal mode, no rename in progress.
pub open spec fn initial_view() -> CastellanView {
    CastellanView { tabs: seq![new_tab_view(1)], active: 0, input_mode: InputMode::Normal, rename: None }
}

/// The selected tab.
pub open spec fn active_chat(v: CastellanView) -> ChatStateView {
    v.tabs[v.active]
}

/// `v` with the selected tab replaced by `c`.
pub open spec fn with_active(v: CastellanView, c: ChatStateView) -> CastellanView {
    CastellanView { tabs: v.tabs.update(v.active, c), ..v }
}

/// The next tab selected, wrapping around; a single tab stays selected.
pub open spec fn next_tab(v: CastellanView) -> CastellanView {
    if v.tabs.len() <= 1 {
        v
    } else {
        CastellanView { active: (v.active + 1) % (v.tabs.len() as int), ..v }
    }
}

/// The previous tab selected, wrapping around; a single tab stays selected.
pub open spec fn prev_tab(v: CastellanView) -> CastellanView {
    if v.tabs.len() <= 1 {
        v
    } else {
        CastellanView {
            active: (v.active + v.tabs.len() - 1) % (v.tabs.len() as int),
            ..v
        }
    }
}

/// The selected tab closed, unless it is the only one; the selection stays
/// at its index, or moves to the new last tab.
pub open spec fn closed_tab(v: CastellanView) -> CastellanView {
    if v.tabs.len() <= 1 {
        v
    } else {
        let tabs = v.tabs.remove(v.active);
        CastellanView {
            tabs,
            active: if v.active >= tabs.len() {
                tabs.len() - 1
            } else {
                v.active
            },
            ..v
        }
    }
}

/// A new tab appended and selected.
pub open spec fn added_tab(v: CastellanView) -> CastellanView {
    CastellanView {
        tabs: v.tabs.push(new_tab_view((v.tabs.len() + 1) as nat)),
        active: v.tabs.len() as int,
        ..v
    }
}

/// The selected tab's input with its last character removed.
pub open spec fn backspaced(c: ChatStateView) -> ChatStateView {
    ChatStateView {
        input: if c.input.len() > 0 {
            c.input.drop_last()
        } else {
            c.input
        },
        ..c
    }
}

/// A rename of the selected tab started, in normal mode only and unless one
/// is already in progress.
pub open spec fn rename_started(v: CastellanView) -> CastellanView {
    if v.input_mode != InputMode::Normal || v.rename is Some {
        v
    } else {
        CastellanView { rename: Some(Seq::empty()), ..v }
    }
}

/// The rename ended: the selected tab takes the trimmed draft as its title
/// unless that is empty.
pub open spec fn rename_committed(v: CastellanView) -> CastellanView {
    match v.rename {
        None => v,
        Some(draft) => {
            let ended = CastellanView { rename: None, ..v };
            if trim(draft).len() == 0 {
                ended
            } else {
                with_active(ended, ChatStateView { title: trim(draft), ..active_chat(v) })
            }
        },
    }
}

/// A character appended to the draft of a rename in progress.
pub open spec fn rename_typed(v: CastellanView, ch: char) -> CastellanView {
    match v.rename {
        None => v,
        Some(draft) => CastellanView { rename: Some(draft.push(ch)), ..v },
    }
}

/// The last character removed from the draft of a rename in progress.
pub open spec fn rename_erased(v: CastellanView) -> CastellanView {
    match v.rename {
        None => v,
        Some(draft) => CastellanView {
            rename: Some(
                if draft.len() > 0 {
                    draft.drop_last()
                } else {
                    draft
                },
            ),
            ..v
        },
    }
}

/// The input of the selected tab submitted: when its trimmed text is not
/// empty, the input is cleared and the text appended as a user message.
pub open spec fn submitted(v: CastellanView) -> CastellanView {
    let c = active_chat(v);
    let message = trim(c.input);
    if message.len() == 0 {
        v
    } else {
        with_active(v, with_message(ChatStateView { input: Seq::empty(), ..c }, ChatSender::User, message))
    }
}

/// The state after `command`, scrolling by `line` rows per line and `page`
/// rows per page.
pub open spec fn after_command(v: CastellanView, command: KeyCommand, line: usize, page: usize) -> CastellanView {
    match command {
        KeyCommand::EnterInputMode => CastellanView { input_mode: InputMode::Insert, ..v },
        KeyCommand::ExitInputMode => CastellanView { input_mode: InputMode::Normal, ..v },
        KeyCommand::NewChatTab => added_tab(v),
        KeyCommand::NextTab => next_tab(v),
        KeyCommand::PrevTab => prev_tab(v),
        KeyCommand::Backspace => with_active(v, backspaced(active_chat(v))),
        KeyCommand::CloseCurrentTab => closed_tab(CastellanView { rename: None, ..v }),
        KeyCommand::RenameCurrentTab => rename_started(v),
        KeyCommand::ScrollUp => with_active(v, scrolled_up(active_chat(v), line)),
        KeyCommand::ScrollDown => with_active(v, scrolled_down(active_chat(v), line)),
        KeyCommand::PageUp => with_active(v, scrolled_up(active_chat(v), page)),
        KeyCommand::PageDown => with_active(v, scrolled_down(active_chat(v), page)),
        KeyCommand::ScrollToBottom => with_active(v, at_bottom(active_chat(v))),
        KeyCommand::ExitApp => v,
        KeyCommand::Submit => submitted(v),
    }
}

/// What `command` asks the caller to do: quit on `ExitApp`, send the
/// trimmed input of the selected tab on a `Submit` with text, else nothing.
pub open spec fn command_result_is(v: CastellanView, command: KeyCommand, r: CommandResult) -> bool {
    if command == KeyCommand::ExitApp {
        r is Exit
    } else if command == KeyCommand::Submit && trim(active_chat(v).input).len() > 0 {
        r matches CommandResult::Submit { tab_index, message } && tab_index == v.active
            && message@ == trim(active_chat(v).input)
    } else {
        r is Continue
    }
}

/// The tab labels: titles, with the draft and a cursor in place of the
/// selected tab's title while it is renamed.
pub open spec fn spec_tab_labels(v: CastellanView) -> Seq<Seq<char>> {
    Seq::new(
        v.tabs.len(),
        |i: int|
            if i == v.active && v.rename is Some {
                v.rename->0.push(RENAME_CURSOR)
            } else {
                v.tabs[i].title
            },
    )
}

/// What holds of the regions of the page for a terminal `area` (chat,
/// sidebar and status bar), whatever the layout solver settles on: the
/// status bar has the page's columns and lies within its rows; the chat and
/// the sidebar share their rows, which lie within the page's, and each lies
/// within the page's columns.
pub open spec fn page_regions(area: Rect, chat: Rect, sidebar: Rect, status: Rect) -> bool {
    &&& vertical_piece(status, area)
    &&& chat.y == sidebar.y && chat.height == sidebar.height
    &&& within_rows(chat, area)
    &&& within_columns(chat, area)
    &&& within_columns(sidebar, area)
}

/// The regions (chat, sidebar, status bar) are the solver's answers to the
/// page's two requests: the page cut vertically, one row apart, into a body
/// of at least one row and a one-row status bar; the body cut horizontally,
/// centred and two columns apart, into the chat (all it can take) and a
/// 30-column sidebar.
pub open spec fn page_layout(area: Rect, regions: (Rect, Rect, Rect)) -> bool {
    &&& page_regions(area, regions.0, regions.1, regions.2)
    &&& exists|body: Rect|
        #[trigger] layout_outcome(
            area,
            Direction::Vertical,
            Flex::Start,
            1,
            page_rows(),
            two_areas(body, regions.2),
        ) && layout_outcome(
            body,
            Direction::Horizontal,
            Flex::Center,
            2,
            body_columns(),
            two_areas(regions.0, regions.1),
        )
}

/// The request for the page's rows: a body of at least one row and a
/// one-row status bar.
pub open spec fn page_rows() -> Seq<Constraint> {
    seq![Constraint::Min(1), Constraint::Length(1)]
}

/// The request for the body's columns: the chat (all it can take) and a
/// 30-column sidebar.
pub open spec fn body_columns() -> Seq<Constraint> {
    seq![Constraint::Percentage(100), Constraint::Length(30)]
}

/// Two areas, in order.
pub open spec fn two_areas(first: Rect, second: Rect) -> Seq<Rect> {
    seq![first, second]
}

/// A chat whose viewport was sized for `chat_area`.
pub open spec fn viewport_set(c: ChatStateView, chat_area: Rect) -> ChatStateView {
    ChatStateView { viewport_height: spec_viewport_for_area(c.input, chat_area), ..c }
}

/// Every chat's viewport sized for `chat_area`.
pub open spec fn viewports_updated(v: CastellanView, chat_area: Rect) -> CastellanView {
    CastellanView {
        tabs: Seq::new(v.tabs.len(), |j: int| viewport_set(v.tabs[j], chat_area)),
        ..v
    }
}

/// The state after a key press while a rename may be in progress.
pub open spec fn rename_key_handled(v: CastellanView, ev: KeyEvent) -> CastellanView {
    if v.rename is None {
        v
    } else {
        match ev.code {
            KeyCode::Enter => rename_committed(v),
            KeyCode::Esc => CastellanView { rename: None, ..v },
            KeyCode::Backspace => rename_erased(v),
            KeyCode::Char(ch) => if !ev.modifiers.has_control() && !ev.modifiers.has_alt() {
                rename_typed(v, ch)
            } else {
                v
            },
            _ => v,
        }
    }
}

enum RenameState {
    Inactive,
    Active(String),
}

impl RenameState {
    spec fn spec_draft(&self) -> Option<Seq<char>> {
        match self {
            RenameState::Inactive => None,
            RenameState::Active(d) => Some(d@),
        }
    }

    fn start(&mut self) -> (r: bool)
        ensures
            old(self).spec_draft() is Some ==> !r && final(self).spec_draft() == old(self).spec_draft(),
            old(self).spec_draft() is None ==> r && final(self).spec_draft() == Some(Seq::<char>::empty()),
    {
        if self.is_active() {
            return false;
        }
        *self = RenameState::Active(String::new());
        true
    }

    fn is_active(&self) -> (r: bool)
        ensures
            r == (self.spec_draft() is Some),
    {
        match self {
            RenameState::Active(_) => true,
            RenameState::Inactive => false,
        }
    }

    fn push_char(&mut self, ch: char)
        ensures
            final(self).spec_draft() == match old(self).spec_draft() {
                None => None,
                Some(d) => Some(d.push(ch)),
            },
    {
        if let RenameState::Active(draft) = self {
            draft.push(ch);
        }
    }

    fn backspace(&mut self)
        ensures
            final(self).spec_draft() == match old(self).spec_draft() {
                None => None,
                Some(d) => Some(
                    if d.len() > 0 {
                        d.drop_last()
                    } else {
                        d
                    },
                ),
            },
    {
        if let RenameState::Active(draft) = self {
            let _ = draft.pop();
        }
    }

    fn cancel(&mut self)
        ensures
            final(self).spec_draft() is None,
    {
        *self = RenameState::Inactive;
    }

    fn finish(&mut self) -> (r: Option<String>)
        ensures
            final(self).spec_draft() is None,
            old(self).spec_draft() is None ==> r is None,
            old(self).spec_draft() matches Some(d) ==> if trim(d).len() == 0 {
                r is None
            } else {
                r is Some && r->0@ == trim(d)
            },
    {
        let mut taken = RenameState::Inactive;
        std::mem::swap(self, &mut taken);
        match taken {
            RenameState::Inactive => None,
            RenameState::Active(draft) => {
                let trimmed = trim_str(draft.as_str());
                if trimmed.as_str().is_empty() {
                    None
                } else {
                    Some(trimmed)
                }
            },
        }
    }
}

struct ChatTabs {
    chats: Vec<ChatState>,
    active_tab: usize,
}

impl ChatTabs {
    spec fn spec_tabs(&self) -> Seq<ChatStateView> {
        self.chats@.map_values(|c: ChatState| c@)
    }

    spec fn wf(&self) -> bool {
        self.chats@.len() >= 1 && self.active_tab < self.chats@.len()
    }

    fn with_first_tab() -> (r: Self)
        ensures
            r.spec_tabs() == seq![new_tab_view(1)],
            r.active_tab == 0,
            r.wf(),
    {
        let mut first_chat = ChatState::default();
        first_chat.set_title(ChatTabs::default_tab_title(1));
        let chats = vec![first_chat];
        let r = Self { chats, active_tab: 0 };
        assert(r.spec_tabs() =~= seq![new_tab_view(1)]);
        r
    }

    fn default_tab_title(index: usize) -> (r: String)
        ensures
            r@ == default_tab_title(index as nat),
    {
        let mut r = owned("chat ");
        let n = decimal_string(index);
        push_str(&mut r, n.as_str());
        r
    }

    fn close_active(&mut self)
        requires
            old(self).wf(),
        ensures
            final(self).wf(),
            old(self).chats@.len() <= 1 ==> final(self).spec_tabs() == old(self).spec_tabs()
                && final(self).active_tab == old(self).active_tab,
            old(self).chats@.len() > 1 ==> final(self).spec_tabs() == old(self).spec_tabs().remove(
                old(self).active_tab as int,
            ) && final(self).active_tab == if old(self).active_tab >= old(self).chats@.len() - 1 {
                old(self).chats@.len() - 2
            } else {
                old(self).active_tab as int
            },
    {
        if self.chats.len() <= 1 {
            return;
        }
        let ghost before = self.chats@;
        let _ = self.chats.remove(self.active_tab);
        assert(self.chats@.map_values(|c: ChatState| c@) =~= before.map_values(|c: ChatState| c@).remove(
            old(self).active_tab as int,
        ));
        if self.active_tab >= self.chats.len() {
            self.active_tab = self.chats.len() - 1;
        }
    }

    fn add_new_chat(&mut self)
        ensures
            final(self).spec_tabs() == old(self).spec_tabs().push(
                new_tab_view((old(self).chats@.len() + 1) as nat),
            ),
            final(self).active_tab == old(self).chats@.len(),
            final(self).wf(),
    {
        let ghost before = self.chats@;
        self.chats.push(ChatState::default());
        // The count after the push is the new tab's number.
        let n = self.chats.len();
        let mut chat = ChatState::default();
        chat.set_title(ChatTabs::default_tab_title(n));
        self.chats.set(n - 1, chat);
        assert(self.chats@.map_values(|c: ChatState| c@) =~= before.map_values(|c: ChatState| c@).push(
            new_tab_view((before.len() + 1) as nat),
        ));
        self.active_tab = n - 1;
    }

    fn next(&mut self)
        requires
            old(self).wf(),
        ensures
            final(self).wf(),
            final(self).chats == old(self).chats,
            final(self).active_tab == if old(self).chats@.len() <= 1 {
                old(self).active_tab as int
            } else {
                (old(self).active_tab + 1) % (old(self).chats@.len() as int)
            },
    {
        if self.chats.len() <= 1 {
            return;
        }
        self.active_tab = (self.active_tab + 1) % self.chats.len();
    }

    fn prev(&mut self)
        requires
            old(self).wf(),
        ensures
            final(self).wf(),
            final(self).chats == old(self).chats,
            final(self).active_tab == if old(self).chats@.len() <= 1 {
                old(self).active_tab as int
            } else {
                (old(self).active_tab + old(self).chats@.len() - 1) % (old(self).chats@.len() as int)
            },
    {
        let n = self.chats.len();
        if n <= 1 {
            return;
        }
        let a = self.active_tab;
        proof {
            if a == 0 {
                lemma_small_mod((n - 1) as nat, n as nat);
            } else {
                lemma_mod_add_multiples_vanish((a - 1) as int, n as int);
                lemma_small_mod((a - 1) as nat, n as nat);
            }
        }
        self.active_tab = if a == 0 {
            n - 1
        } else {
            a - 1
        };
    }

    fn labels(&self, rename_state: &RenameState) -> (r: Vec<String>)
        requires
            self.wf(),
        ensures
            r@.map_values(|s: String| s@) == spec_tab_labels(
                CastellanView {
                    tabs: self.spec_tabs(),
                    active: self.active_tab as int,
                    input_mode: InputMode::Normal,
                    rename: rename_state.spec_draft(),
                },
            ),
    {
        let ghost v = CastellanView {
            tabs: self.spec_tabs(),
            active: self.active_tab as int,
            input_mode: InputMode::Normal,
            rename: rename_state.spec_draft(),
        };
        let mut r: Vec<String> = Vec::new();
        let mut index: usize = 0;
        while index < self.chats.len()
            invariant
                index <= self.chats@.len(),
                v.tabs == self.spec_tabs(),
                v.active == self.active_tab,
                v.rename == rename_state.spec_draft(),
                r@.map_values(|s: String| s@) == spec_tab_labels(v).take(index as int),
            decreases self.chats@.len() - index,
        {
            let label = match rename_state {
                RenameState::Active(draft) if index == self.active_tab => {
                    let mut l = owned(draft.as_str());
                    l.push(RENAME_CURSOR);
                    l
                },
                _ => owned(self.chats[index].title()),
            };
            let ghost prev = r@;
            r.push(label);
            assert(r@.map_values(|s: String| s@) =~= prev.map_values(|s: String| s@).push(label@));
            assert(spec_tab_labels(v).take(index + 1) =~= spec_tab_labels(v).take(index as int).push(
                spec_tab_labels(v)[index as int],
            ));
            index = index + 1;
        }
        assert(spec_tab_labels(v).take(index as int) =~= spec_tab_labels(v));
        r
    }
}

/// Root TUI state for cross-component composition.
pub struct Castellan {
    tabs: ChatTabs,
    pub input_mode: InputMode,
    rename_state: RenameState,
}

impl View for Castellan {
    type V = CastellanView;

    closed spec fn view(&self) -> CastellanView {
        CastellanView {
            tabs: self.tabs.spec_tabs(),
            active: self.tabs.active_tab as int,
            input_mode: self.input_mode,
            rename: self.rename_state.spec_draft(),
        }
    }
}

/// The app state invariant: at least one tab, and a valid selection.
pub open spec fn castellan_wf(v: CastellanView) -> bool {
    v.tabs.len() >= 1 && 0 <= v.active < v.tabs.len()
}

impl Default for Castellan {
    fn default() -> (r: Self)
        ensures
            r@ == initial_view(),
            castellan_wf(r@),
    {
        Self {
            tabs: ChatTabs::with_first_tab(),
            input_mode: InputMode::Normal,
            rename_state: RenameState::Inactive,
        }
    }
}

impl Castellan {
    /// Well-formedness of the concrete state.
    pub closed spec fn wf(&self) -> bool {
        self.tabs.wf()
    }

    /// Well-formedness is the invariant on the abstract state.
    pub proof fn lemma_wf(&self)
        ensures
            self.wf() <==> castellan_wf(self@),
    {
    }

    proof fn lemma_update_view(s: Seq<ChatState>, i: int, c: ChatState)
        requires
            0 <= i < s.len(),
        ensures
            s.update(i, c).map_values(|x: ChatState| x@) == s.map_values(|x: ChatState| x@).update(i, c@),
            s.map_values(|x: ChatState| x@)[i] == s[i]@,
    {
        assert(s.update(i, c).map_values(|x: ChatState| x@) =~= s.map_values(|x: ChatState| x@).update(i, c@));
    }

    /// Closes the selected tab (unless it is the only one), cancelling any
    /// rename in progress.
    pub fn close_current_tab(&mut self)
        requires
            old(self).wf(),
        ensures
            final(self).wf(),
            final(self)@ == closed_tab(CastellanView { rename: None, ..old(self)@ }),
    {
        self.cancel_current_tab_rename();
        self.tabs.close_active();
    }

    /// Starts renaming the selected tab; only in normal mode.
    pub fn rename_current_tab(&mut self)
        requires
            old(self).wf(),
        ensures
            final(self).wf(),
            final(self)@ == rename_started(old(self)@),
    {
        if self.input_mode != InputMode::Normal {
            return;
        }
        let _ = self.rename_state.start();
    }

    /// Whether a rename of the selected tab is in progress.
    pub fn is_renaming_current_tab(&self) -> (r: bool)
        ensures
            r == (self@.rename is Some),
    {
        self.rename_state.is_active()
    }

    /// Appends a character to the title draft.
    pub fn rename_current_tab_push_char(&mut self, ch: char)
        requires
            old(self).wf(),
        ensures
            final(self).wf(),
            final(self)@ == rename_typed(old(self)@, ch),
    {
        self.rename_state.push_char(ch);
    }

    /// Removes the last character of the title draft.
    pub fn rename_current_tab_backspace(&mut self)
        requires
            old(self).wf(),
        ensures
            final(self).wf(),
            final(self)@ == rename_erased(old(self)@),
    {
        self.rename_state.backspace();
    }

    /// Ends the rename, giving the selected tab the trimmed draft as its
    /// title unless that is empty.
    pub fn commit_current_tab_rename(&mut self)
        requires
            old(self).wf(),
        ensures
            final(self).wf(),
            final(self)@ == rename_committed(old(self)@),
    {
        let Some(new_title) = self.rename_state.finish() else {
            return;
        };
        let i = self.tabs.active_tab;
        let ghost before = self.tabs.chats@;
        self.tabs.chats[i].set_title(new_title);
        proof {
            Self::lemma_update_view(before, i as int, self.tabs.chats@[i as int]);
        }
    }

    /// Ends the rename without changing the title.
    pub fn cancel_current_tab_rename(&mut self)
        requires
            old(self).wf(),
        ensures
            final(self).wf(),
            final(self)@ == (CastellanView { rename: None, ..old(self)@ }),
    {
        self.rename_state.cancel();
    }

    /// Updates chat viewport metrics from the current terminal area.
    pub fn update_viewport_from_area(&mut self, area: Rect)
        requires
            old(self).wf(),
        ensures
            final(self).wf(),
            exists|regions: (Rect, Rect, Rect)|
                #[trigger] page_layout(area, regions) && viewports_updated(old(self)@, regions.0)
                    == final(self)@,
    {
        let regions = Self::layout_regions(area);
        let chat_area = regions.0;
        let ghost v = self@;
        let n = self.tabs.chats.len();
        let mut i: usize = 0;
        while i < n
            invariant
                n == self.tabs.chats@.len(),
                n == v.tabs.len(),
                i <= n,
                self.tabs.active_tab == v.active,
                self.input_mode == v.input_mode,
                self.rename_state.spec_draft() == v.rename,
                self.tabs.spec_tabs() == Seq::new(
                    n as nat,
                    |j: int|
                        if j < i {
                            viewport_set(v.tabs[j], chat_area)
                        } else {
                            v.tabs[j]
                        },
                ),
            decreases n - i,
        {
            let ghost before = self.tabs.chats@;
            self.tabs.chats[i].set_viewport_from_area(chat_area);
            proof {
                Self::lemma_update_view(before, i as int, self.tabs.chats@[i as int]);
                assert(before[i as int]@ == v.tabs[i as int]);
                assert(self.tabs.spec_tabs() =~= Seq::new(
                    n as nat,
                    |j: int|
                        if j < i + 1 {
                            viewport_set(v.tabs[j], chat_area)
                        } else {
                            v.tabs[j]
                        },
                ));
            }
            i = i + 1;
        }
        assert(self.tabs.spec_tabs() =~= viewports_updated(v, chat_area).tabs);
        assert(self@ =~= viewports_updated(v, chat_area));
        assert(page_layout(area, regions));
    }

    /// Routes a key press to the rename in progress, if any: `Enter` commits,
    /// `Esc` cancels, `Backspace` erases, and a character typed without
    /// `Ctrl` or `Alt` is appended. Returns whether a rename took the key.
    pub fn handle_rename_key_event(&mut self, key_event: KeyEvent) -> (r: bool)
        requires
            old(self).wf(),
        ensures
            final(self).wf(),
            r == (old(self)@.rename is Some),
            final(self)@ == rename_key_handled(old(self)@, key_event),
    {
        if !self.is_renaming_current_tab() {
            return false;
        }
        match key_event.code {
            KeyCode::Enter => self.commit_current_tab_rename(),
            KeyCode::Esc => self.cancel_current_tab_rename(),
            KeyCode::Backspace => self.rename_current_tab_backspace(),
            KeyCode::Char(ch) => {
                if !key_event.modifiers.control_held() && !key_event.modifiers.alt_held() {
                    self.rename_current_tab_push_char(ch)
                }
            },
            _ => {},
        }
        true
    }

    /// Applies a command, scrolling by `scroll_line_step` rows per line and
    /// `scroll_page_step` rows per page, and says what the caller must do.
    pub fn apply_command(
        &mut self,
        command: KeyCommand,
        scroll_line_step: usize,
        scroll_page_step: usize,
    ) -> (r: CommandResult)
        requires
            old(self).wf(),
        ensures
            final(self).wf(),
            final(self)@ == after_command(old(self)@, command, scroll_line_step, scroll_page_step),
            command_result_is(old(self)@, command, r),
    {
        let i = self.tabs.active_tab;
        let ghost before = self.tabs.chats@;
        match command {
            KeyCommand::EnterInputMode => {
                self.input_mode = InputMode::Insert;
                CommandResult::Continue
            },
            KeyCommand::ExitInputMode => {
                self.input_mode = InputMode::Normal;
                CommandResult::Continue
            },
            KeyCommand::NewChatTab => {
                self.tabs.add_new_chat();
                CommandResult::Continue
            },
            KeyCommand::NextTab => {
                self.tabs.next();
                CommandResult::Continue
            },
            KeyCommand::PrevTab => {
                self.tabs.prev();
                CommandResult::Continue
            },
            KeyCommand::Backspace => {
                self.backspace();
                CommandResult::Continue
            },
            KeyCommand::CloseCurrentTab => {
                self.close_current_tab();
                CommandResult::Continue
            },
            KeyCommand::RenameCurrentTab => {
                self.rename_current_tab();
                CommandResult::Continue
            },
            KeyCommand::ScrollUp => {
                self.tabs.chats[i].scroll_up(scroll_line_step);
                proof {
                    Self::lemma_update_view(before, i as int, self.tabs.chats@[i as int]);
                }
                CommandResult::Continue
            },
            KeyCommand::ScrollDown => {
                self.tabs.chats[i].scroll_down(scroll_line_step);
                proof {
                    Self::lemma_update_view(before, i as int, self.tabs.chats@[i as int]);
                }
                CommandResult::Continue
            },
            KeyCommand::PageUp => {
                self.tabs.chats[i].scroll_up(scroll_page_step);
                proof {
                    Self::lemma_update_view(before, i as int, self.tabs.chats@[i as int]);
                }
                CommandResult::Continue
            },
            KeyCommand::PageDown => {
                self.tabs.chats[i].scroll_down(scroll_page_step);
                proof {
                    Self::lemma_update_view(before, i as int, self.tabs.chats@[i as int]);
                }
                CommandResult::Continue
            },
            KeyCommand::ScrollToBottom => {
                self.tabs.chats[i].scroll_to_bottom();
                proof {
                    Self::lemma_update_view(before, i as int, self.tabs.chats@[i as int]);
                }
                CommandResult::Continue
            },
            KeyCommand::ExitApp => CommandResult::Exit,
            KeyCommand::Submit => {
                let Some((tab_index, message)) = self.take_input_for_submit() else {
                    return CommandResult::Continue;
                };
                let ghost taken = self@;
                self.push_user_message(message.clone());
                proof {
                    let a = active_chat(old(self)@);
                    let cleared = ChatStateView { input: Seq::empty(), ..a };
                    assert(active_chat(taken) == cleared);
                    assert(self@.tabs =~= old(self)@.tabs.update(
                        i as int,
                        with_message(cleared, ChatSender::User, message@),
                    ));
                }
                CommandResult::Submit { tab_index, message }
            },
        }
    }

    /// Appends a typed character to the chat input buffer.
    pub fn push_char(&mut self, ch: char)
        requires
            old(self).wf(),
        ensures
            final(self).wf(),
            final(self)@ == with_active(
                old(self)@,
                ChatStateView { input: active_chat(old(self)@).input.push(ch), ..active_chat(old(self)@) },
            ),
    {
        let i = self.tabs.active_tab;
        let ghost before = self.tabs.chats@;
        self.tabs.chats[i].push_char(ch);
        proof {
            Self::lemma_update_view(before, i as int, self.tabs.chats@[i as int]);
        }
    }

    /// Removes the last character from the chat input buffer.
    pub fn backspace(&mut self)
        requires
            old(self).wf(),
        ensures
            final(self).wf(),
            final(self)@ == with_active(old(self)@, backspaced(active_chat(old(self)@))),
    {
        let i = self.tabs.active_tab;
        let ghost before = self.tabs.chats@;
        self.tabs.chats[i].backspace();
        proof {
            Self::lemma_update_view(before, i as int, self.tabs.chats@[i as int]);
        }
    }

    /// Returns a trimmed message if submit is valid and clears input.
    pub fn take_input_for_submit(&mut self) -> (r: Option<(usize, String)>)
        requires
            old(self).wf(),
        ensures
            final(self).wf(),
            trim(active_chat(old(self)@).input).len() == 0 ==> r is None && final(self)@
                == old(self)@,
            trim(active_chat(old(self)@).input).len() > 0 ==> (r matches Some((index, message))
                && index == old(self)@.active && message@ == trim(active_chat(old(self)@).input)
                && final(self)@ == with_active(
                old(self)@,
                ChatStateView { input: Seq::empty(), ..active_chat(old(self)@) },
            )),
    {
        let active_tab = self.tabs.active_tab;
        let ghost before = self.tabs.chats@;
        let taken = self.tabs.chats[active_tab].take_input_for_submit();
        proof {
            Self::lemma_update_view(before, active_tab as int, self.tabs.chats@[active_tab as int]);
            if taken is None {
                assert(self.tabs.spec_tabs() =~= before.map_values(|x: ChatState| x@));
            }
        }
        match taken {
            Some(message) => Some((active_tab, message)),
            None => None,
        }
    }

    /// Appends a user-authored message to the selected tab's transcript.
    pub fn push_user_message(&mut self, content: String)
        requires
            old(self).wf(),
        ensures
            final(self).wf(),
            final(self)@ == with_active(
                old(self)@,
                with_message(active_chat(old(self)@), ChatSender::User, content@),
            ),
    {
        let i = self.tabs.active_tab;
        let ghost before = self.tabs.chats@;
        self.tabs.chats[i].push_user_message(content);
        proof {
            Self::lemma_update_view(before, i as int, self.tabs.chats@[i as int]);
        }
    }

    /// Appends an assistant-authored message to the transcript of tab
    /// `tab_index`; an index past the last tab is ignored.
    pub fn push_assistant_message_for_tab(&mut self, tab_index: usize, content: String)
        requires
            old(self).wf(),
        ensures
            final(self).wf(),
            tab_index < old(self)@.tabs.len() ==> final(self)@ == (CastellanView {
                tabs: old(self)@.tabs.update(
                    tab_index as int,
                    with_message(old(self)@.tabs[tab_index as int], ChatSender::Assistant, content@),
                ),
                ..old(self)@
            }),
            tab_index >= old(self)@.tabs.len() ==> final(self)@ == old(self)@,
    {
        if tab_index < self.tabs.chats.len() {
            let ghost before = self.tabs.chats@;
            self.tabs.chats[tab_index].push_assistant_message(content);
            proof {
                Self::lemma_update_view(before, tab_index as int, self.tabs.chats@[tab_index as int]);
            }
        }
    }

    /// The tab labels shown in the sidebar.
    pub fn tab_labels(&self) -> (r: Vec<String>)
        requires
            self.wf(),
        ensures
            r@.map_values(|s: String| s@) == spec_tab_labels(self@),
    {
        let r = self.tabs.labels(&self.rename_state);
        proof {
            let v = CastellanView {
                tabs: self.tabs.spec_tabs(),
                active: self.tabs.active_tab as int,
                input_mode: InputMode::Normal,
                rename: self.rename_state.spec_draft(),
            };
            assert(spec_tab_labels(v) =~= spec_tab_labels(self@));
        }
        r
    }

    /// The index of the selected tab.
    pub fn active_tab_index(&self) -> (r: usize)
        ensures
            r == self@.active,
    {
        self.tabs.active_tab
    }

    /// The selected chat.
    pub fn active_chat(&self) -> (r: &ChatState)
        requires
            self.wf(),
        ensures
            r@ == active_chat(self@),
    {
        &self.tabs.chats[self.tabs.active_tab]
    }

    /// Records the transcript metrics of a render of the selected chat into
    /// an area of the given size.
    pub fn record_render_metrics(&mut self, width: u16, height: u16)
        requires
            old(self).wf(),
        ensures
            final(self).wf(),
            final(self)@ == with_active(old(self)@, rendered(active_chat(old(self)@), width, height)),
    {
        let i = self.tabs.active_tab;
        let ghost before = self.tabs.chats@;
        self.tabs.chats[i].record_render_metrics(width, height);
        proof {
            Self::lemma_update_view(before, i as int, self.tabs.chats@[i as int]);
        }
    }

    /// Records the scroll position a render of the selected chat settled on.
    pub fn set_active_scroll_offset(&mut self, offset: ScrollOffset)
        requires
            old(self).wf(),
        ensures
            final(self).wf(),
            final(self)@ == with_active(
                old(self)@,
                ChatStateView {
                    offset_x: offset.x,
                    offset_y: offset.y,
                    follow_bottom: false,
                    ..active_chat(old(self)@)
                },
            ),
    {
        let i = self.tabs.active_tab;
        let ghost before = self.tabs.chats@;
        self.tabs.chats[i].set_scroll_offset(offset);
        proof {
            Self::lemma_update_view(before, i as int, self.tabs.chats@[i as int]);
        }
    }

    /// The regions of the page for a terminal `area`: chat, sidebar and
    /// status bar. The layout solver cuts the page vertically, one row
    /// apart, into the body (at least one row) and a one-row status bar, and
    /// cuts the body horizontally, centred and two columns apart, into the
    /// chat (all it can take) and a 30-column sidebar.
    pub fn layout_regions(area: Rect) -> (r: (Rect, Rect, Rect))
        ensures
            page_layout(area, r),
    {
        let rows = vec![Constraint::Min(1), Constraint::Length(1)];
        let page = split_area(area, Direction::Vertical, Flex::Start, 1, &rows);
        let cols = vec![Constraint::Percentage(100), Constraint::Length(30)];
        let columns = split_area(page[0], Direction::Horizontal, Flex::Center, 2, &cols);
        proof {
            let body = page@[0];
            assert(rows@ =~= page_rows());
            assert(cols@ =~= body_columns());
            assert(page@ =~= two_areas(body, page@[1]));
            assert(columns@ =~= two_areas(columns@[0], columns@[1]));
            assert(vertical_piece(body, area));
            assert(horizontal_piece(columns@[0], body));
            assert(horizontal_piece(columns@[1], body));
            assert(vertical_piece(page@[1], area));
        }
        (columns[0], columns[1], page[1])
    }
}

/// The app after a key press: a rename in progress takes the key;
/// otherwise the key's action in the current mode is carried out.
pub open spec fn key_pressed(
    v: CastellanView,
    keybinds: AppKeybindsSettings,
    ev: KeyEvent,
    line: usize,
    page: usize,
) -> CastellanView {
    if v.rename is Some {
        rename_key_handled(v, ev)
    } else {
        match spec_resolve(keybinds, ev, v.input_mode) {
            KeyAction::Command(command) => after_command(v, command, line, page),
            KeyAction::InsertChar(ch) => with_active(
                v,
                ChatStateView { input: active_chat(v).input.push(ch), ..active_chat(v) },
            ),
            KeyAction::Noop => v,
        }
    }
}

/// What a key press asks the caller to do: what its command asks, when it
/// resolves to one outside a rename, else nothing.
pub open spec fn key_result_is(
    v: CastellanView,
    keybinds: AppKeybindsSettings,
    ev: KeyEvent,
    r: CommandResult,
) -> bool {
    if v.rename is None && spec_resolve(keybinds, ev, v.input_mode) is Command {
        command_result_is(v, spec_resolve(keybinds, ev, v.input_mode)->Command_0, r)
    } else {
        r is Continue
    }
}

impl Castellan {
    /// Handles one key press: a rename in progress takes the key first,
    /// otherwise `resolver` maps it to an action for the current mode,
    /// which is carried out. Says what the caller must do next.
    pub fn handle_key_event(
        &mut self,
        resolver: &KeybindResolver,
        key_event: KeyEvent,
        scroll_line_step: usize,
        scroll_page_step: usize,
    ) -> (r: CommandResult)
        requires
            old(self).wf(),
        ensures
            final(self).wf(),
            final(self)@ == key_pressed(
                old(self)@,
                resolver.spec_keybinds(),
                key_event,
                scroll_line_step,
                scroll_page_step,
            ),
            key_result_is(old(self)@, resolver.spec_keybinds(), key_event, r),
    {
        if self.handle_rename_key_event(key_event) {
            return CommandResult::Continue;
        }
        match resolver.resolve(key_event, self.input_mode) {
            KeyAction::Command(command) => self.apply_command(command, scroll_line_step, scroll_page_step),
            KeyAction::InsertChar(ch) => {
                self.push_char(ch);
                CommandResult::Continue
            },
            KeyAction::Noop => CommandResult::Continue,
        }
    }
}

} // verus!

verus! {

/// Every command keeps the app well formed: at least one tab remains and
/// the selection stays on a tab.
pub proof fn lemma_commands_keep_tabs(v: CastellanView, command: KeyCommand, line: usize, page: usize)
    requires
        castellan_wf(v),
    ensures
        castellan_wf(after_command(v, command, line, page)),
{
}

/// Selecting the next tab and then the previous one returns to the tab
/// that was selected.
pub proof fn lemma_next_then_prev(v: CastellanView)
    requires
        castellan_wf(v),
    ensures
        prev_tab(next_tab(v)) == v,
{
    let n = v.tabs.len() as int;
    if n > 1 {
        let a = v.active;
        if a + 1 < n {
            assert((a + 1) % n == a + 1) by {
                vstd::arithmetic::div_mod::lemma_small_mod((a + 1) as nat, n as nat);
            }
            assert((a + 1 + n - 1) % n == a) by {
                vstd::arithmetic::div_mod::lemma_mod_add_multiples_vanish(a, n);
                vstd::arithmetic::div_mod::lemma_small_mod(a as nat, n as nat);
            }
        } else {
            assert((a + 1) % n == 0) by {
                vstd::arithmetic::div_mod::lemma_mod_self_0(n);
            }
            assert((0 + n - 1) % n == n - 1) by {
                vstd::arithmetic::div_mod::lemma_small_mod((n - 1) as nat, n as nat);
            }
        }
        assert(prev_tab(next_tab(v)) =~= v);
    }
}

/// Selecting the previous tab and then the next one returns to the tab
/// that was selected, and changes nothing else.
pub proof fn lemma_prev_then_next(v: CastellanView, line: usize, page: usize)
    requires
        castellan_wf(v),
    ensures
        after_command(after_command(v, KeyCommand::PrevTab, line, page), KeyCommand::NextTab, line, page)
            == v,
{
    let n = v.tabs.len() as int;
    if n > 1 {
        let a = v.active;
        if a == 0 {
            assert((0 + n - 1) % n == n - 1) by {
                lemma_small_mod((n - 1) as nat, n as nat);
            }
            assert((n - 1 + 1) % n == 0) by {
                vstd::arithmetic::div_mod::lemma_mod_self_0(n);
            }
        } else {
            assert((a + n - 1) % n == a - 1) by {
                lemma_mod_add_multiples_vanish(a - 1, n);
                lemma_small_mod((a - 1) as nat, n as nat);
            }
            assert((a - 1 + 1) % n == a) by {
                lemma_small_mod(a as nat, n as nat);
            }
        }
        assert(next_tab(prev_tab(v)) =~= v);
    }
}

/// The app after the next tab is selected `k` times.
pub open spec fn next_tabs(v: CastellanView, k: nat) -> CastellanView
    decreases k,
{
    if k == 0 {
        v
    } else {
        next_tab(next_tabs(v, (k - 1) as nat))
    }
}

/// Selecting the next tab `k` times moves the selection `k` tabs on,
/// wrapping around, and changes nothing else.
proof fn lemma_next_tabs_moves(v: CastellanView, k: nat)
    requires
        castellan_wf(v),
        v.tabs.len() > 1,
    ensures
        next_tabs(v, k) == (CastellanView { active: (v.active + k) % (v.tabs.len() as int), ..v }),
    decreases k,
{
    let n = v.tabs.len() as int;
    if k == 0 {
        lemma_small_mod(v.active as nat, n as nat);
        assert(next_tabs(v, k) =~= (CastellanView { active: (v.active + k) % n, ..v }));
    } else {
        lemma_next_tabs_moves(v, (k - 1) as nat);
        let b = v.active + k - 1;
        assert(((b % n) + 1) % n == (b + 1) % n) by {
            lemma_small_mod(1, n as nat);
            vstd::arithmetic::div_mod::lemma_add_mod_noop(b, 1, n);
        }
        assert(next_tabs(v, k) =~= (CastellanView { active: (v.active + k) % n, ..v }));
    }
}

/// Selecting the next tab once per tab comes back to the tab that was
/// selected, and changes nothing else.
pub proof fn lemma_next_cycle(v: CastellanView)
    requires
        castellan_wf(v),
    ensures
        next_tabs(v, v.tabs.len()) == v,
{
    let n = v.tabs.len() as int;
    if n > 1 {
        lemma_next_tabs_moves(v, v.tabs.len());
        assert((v.active + n) % n == v.active) by {
            lemma_mod_add_multiples_vanish(v.active, n);
            lemma_small_mod(v.active as nat, n as nat);
        }
        assert(next_tabs(v, v.tabs.len()) =~= v);
    } else {
        assert(next_tabs(v, 0) == v);
        assert(next_tabs(v, 1) == v);
    }
}

/// What a command asks of the caller: quitting exactly for `ExitApp`,
/// which changes nothing, a submit only for `Submit`, and nothing further
/// for any other command.
pub proof fn lemma_command_results(v: CastellanView, command: KeyCommand, r: CommandResult, line: usize, page: usize)
    requires
        command_result_is(v, command, r),
    ensures
        r is Exit <==> command == KeyCommand::ExitApp,
        r is Submit ==> command == KeyCommand::Submit,
        command != KeyCommand::ExitApp && command != KeyCommand::Submit ==> r is Continue,
        after_command(v, KeyCommand::ExitApp, line, page) == v,
{
}

/// Outside a rename, a key press that scrolls moves the selected chat by
/// the line step for `ScrollUp`/`ScrollDown` and by the page step for
/// `PageUp`/`PageDown`: up stops at the top, down at the largest offset,
/// and the tabs and the selection stay as they were.
pub proof fn lemma_scroll_keys_use_their_steps(
    v: CastellanView,
    keybinds: AppKeybindsSettings,
    ev: KeyEvent,
    line: usize,
    page: usize,
)
    requires
        castellan_wf(v),
        v.rename is None,
    ensures
        ({
            let action = spec_resolve(keybinds, ev, v.input_mode);
            let after = key_pressed(v, keybinds, ev, line, page);
            let o = active_chat(v).offset_y as int;
            let m = max_scroll(active_chat(v)) as int;
            let y = active_chat(after).offset_y as int;
            &&& (action == KeyAction::Command(KeyCommand::ScrollUp) ==> y == min_int(
                if line <= o {
                    o - line
                } else {
                    0
                },
                m,
            ))
            &&& (action == KeyAction::Command(KeyCommand::PageUp) ==> y == min_int(
                if page <= o {
                    o - page
                } else {
                    0
                },
                m,
            ))
            &&& (action == KeyAction::Command(KeyCommand::ScrollDown) ==> y == min_int(o + line, m))
            &&& (action == KeyAction::Command(KeyCommand::PageDown) ==> y == min_int(o + page, m))
            &&& (action == KeyAction::Command(KeyCommand::ScrollUp) || action == KeyAction::Command(
                KeyCommand::PageUp,
            ) || action == KeyAction::Command(KeyCommand::ScrollDown) || action == KeyAction::Command(
                KeyCommand::PageDown,
            )) ==> after.active == v.active && after.tabs.len() == v.tabs.len()
                && active_chat(after).messages == active_chat(v).messages
        }),
{
}

/// While a tab is renamed, a character key pressed without `Ctrl` and
/// without `Alt` is appended to the draft, whatever the `Shift` state (so
/// capital letters are typed), and nothing else changes.
pub proof fn lemma_rename_types_plain_chars(
    v: CastellanView,
    keybinds: AppKeybindsSettings,
    ev: KeyEvent,
    draft: Seq<char>,
    ch: char,
    line: usize,
    page: usize,
)
    requires
        castellan_wf(v),
        v.rename == Some(draft),
        ev.code == KeyCode::Char(ch),
        !ev.modifiers.has_control(),
        !ev.modifiers.has_alt(),
    ensures
        key_pressed(v, keybinds, ev, line, page).rename == Some(draft.push(ch)),
        key_pressed(v, keybinds, ev, line, page).tabs == v.tabs,
        key_pressed(v, keybinds, ev, line, page).active == v.active,
        key_pressed(v, keybinds, ev, line, page).input_mode == v.input_mode,
{
}

/// The only tab cannot be closed.
pub proof fn lemma_single_tab_survives_close(v: CastellanView)
    requires
        castellan_wf(v),
        v.tabs.len() == 1,
    ensures
        after_command(v, KeyCommand::CloseCurrentTab, 0, 0) == (CastellanView { rename: None, ..v }),
{
}

/// Closing a tab that was just opened gives back the tabs there were.
pub proof fn lemma_close_undoes_new_tab(v: CastellanView)
    requires
        castellan_wf(v),
    ensures
        closed_tab(added_tab(v)).tabs == v.tabs,
{
    assert(v.tabs.push(new_tab_view((v.tabs.len() + 1) as nat)).remove(v.tabs.len() as int) =~= v.tabs);
}

/// A submit with text hands back the trimmed input, clears the input, ends
/// the transcript with that message from the user and shows the bottom of
/// the transcript.
pub proof fn lemma_submit_appends_user_message(v: CastellanView)
    requires
        castellan_wf(v),
        trim(active_chat(v).input).len() > 0,
    ensures
        ({
            let after = active_chat(after_command(v, KeyCommand::Submit, 0, 0));
            &&& after.input.len() == 0
            &&& after.messages.last() == (ChatSender::User, trim(active_chat(v).input))
            &&& after.messages.drop_last() == active_chat(v).messages
            &&& crate::tui::components::chat::spec_status_text(after) == "scroll: bottom"@
        }),
{
    let after = active_chat(after_command(v, KeyCommand::Submit, 0, 0));
    assert(after.messages.drop_last() =~= active_chat(v).messages);
}

/// A white-space-only input is not submitted and changes nothing.
pub proof fn lemma_blank_submit_is_refused(v: CastellanView)
    requires
        castellan_wf(v),
        trim(active_chat(v).input).len() == 0,
    ensures
        after_command(v, KeyCommand::Submit, 0, 0) == v,
{
}

/// A rename starts only in normal mode, and committing a blank draft keeps
/// every title.
pub proof fn lemma_rename_rules(v: CastellanView)
    requires
        castellan_wf(v),
    ensures
        v.input_mode != InputMode::Normal ==> rename_started(v) == v,
        v.rename matches Some(d) && trim(d).len() == 0 ==> rename_committed(v).tabs == v.tabs,
{
}

} // verus!
