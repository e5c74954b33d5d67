//! Keybinding configuration and key-event to command mapping.
//!
//! This module defines:
//! - the complete set of application key commands,
//! - configurable key chord settings,
//! - default bindings used when config is omitted,
//! - runtime resolution from `KeyEvent` to `KeyCommand`.
use vstd::prelude::*;

use crate::input::key_event::{KeyCode, KeyEvent};
use crate::text::{
    ascii_lower, chars_eq, chars_of, char_string, eq_ignore_ascii_case, lower_chars, lower_seq,
    owned, push_str, to_ascii_lowercase, trim, trim_str,
};

verus! {

/// Canonical list of input commands understood by the application.
///
/// These commands are mode-filtered by higher-level input handling.
#[derive(Clone, Copy, Debug, PartialEq, Eq, Structural)]
pub enum KeyCommand {
    /// Exit the application.
    ExitApp,
    /// Switch from normal mode to input mode.
    EnterInputMode,
    /// Leave input mode and return to normal mode.
    ExitInputMode,
    /// Create a new chat tab.
    NewChatTab,
    /// Select the next tab.
    NextTab,
    /// Select the previous tab.
    PrevTab,
    /// Delete one character in the active input field.
    Backspace,
    /// Submit the active input.
    Submit,
    /// Scroll chat/content upward.
    ScrollUp,
    /// Scroll chat/content downward.
    ScrollDown,
    /// Scroll up by one page.
    PageUp,
    /// Scroll down by one page.
    PageDown,
    /// Jump scrolling to the bottom of content.
    ScrollToBottom,
    /// Close the currently selected tab.
    CloseCurrentTab,
    /// Rename the currently selected tab.
    RenameCurrentTab,
}

/// Stable command resolution order used by
/// [`AppKeybindsSettings::resolve_command`]: where several configured chords
/// overlap, the first matching command wins.
pub open spec fn ordered_commands() -> Seq<KeyCommand> {
    seq![
        KeyCommand::ExitApp,
        KeyCommand::EnterInputMode,
        KeyCommand::ExitInputMode,
        KeyCommand::NewChatTab,
        KeyCommand::NextTab,
        KeyCommand::PrevTab,
        KeyCommand::Backspace,
        KeyCommand::Submit,
        KeyCommand::ScrollUp,
        KeyCommand::ScrollDown,
        KeyCommand::PageUp,
        KeyCommand::PageDown,
        KeyCommand::ScrollToBottom,
        KeyCommand::CloseCurrentTab,
        KeyCommand::RenameCurrentTab,
    ]
}

impl KeyCommand {
    /// The commands in resolution order.
    pub fn ordered() -> (r: Vec<KeyCommand>)
        ensures
            r@ == ordered_commands(),
    {
        let r = vec![
            KeyCommand::ExitApp,
            KeyCommand::EnterInputMode,
            KeyCommand::ExitInputMode,
            KeyCommand::NewChatTab,
            KeyCommand::NextTab,
            KeyCommand::PrevTab,
            KeyCommand::Backspace,
            KeyCommand::Submit,
            KeyCommand::ScrollUp,
            KeyCommand::ScrollDown,
            KeyCommand::PageUp,
            KeyCommand::PageDown,
            KeyCommand::ScrollToBottom,
            KeyCommand::CloseCurrentTab,
            KeyCommand::RenameCurrentTab,
        ];
        assert(r@ =~= ordered_commands());
        r
    }
}

/// A key chord: a key code together with the exact set of modifiers
/// (`Ctrl`, `Alt`, `Shift`) that must be held.
#[derive(Clone, Copy, Debug)]
pub struct KeyChordSettings {
    /// Required key code portion of the chord.
    pub code: KeyCode,
    /// Whether `Ctrl` must be present.
    pub ctrl: bool,
    /// Whether `Alt` must be present.
    pub alt: bool,
    /// Whether `Shift` must be present.
    pub shift: bool,
}

/// `BackTab` is the terminal's encoding of `Shift+Tab`: it is compared as
/// `Tab` with shift held.
pub open spec fn normalize_tab(code: KeyCode, shift: bool) -> (KeyCode, bool) {
    match code {
        KeyCode::BackTab => (KeyCode::Tab, true),
        _ => (code, shift),
    }
}

/// Key codes compare equal, characters ignoring ASCII case.
pub open spec fn codes_match(expected: KeyCode, actual: KeyCode) -> bool {
    match (expected, actual) {
        (KeyCode::Char(e), KeyCode::Char(a)) => ascii_lower(e) == ascii_lower(a),
        _ => expected == actual,
    }
}

/// The display label of a key code.
pub open spec fn key_code_label_spec(code: KeyCode) -> Seq<char> {
    match code {
        KeyCode::Enter => "enter"@,
        KeyCode::Tab => "tab"@,
        KeyCode::BackTab => "backtab"@,
        KeyCode::Backspace => "backspace"@,
        KeyCode::Up => "up"@,
        KeyCode::Down => "down"@,
        KeyCode::PageUp => "pageup"@,
        KeyCode::PageDown => "pagedown"@,
        KeyCode::End => "end"@,
        KeyCode::Esc => "esc"@,
        KeyCode::Char(ch) => seq![ascii_lower(ch)],
        _ => "key"@,
    }
}

/// The key code that a configured key name denotes, if any: names are
/// trimmed and compared ignoring ASCII case, and a single remaining
/// character denotes that character key.
pub open spec fn spec_parse_key_code(value: Seq<char>) -> Option<KeyCode> {
    let l = lower_seq(trim(value));
    if l == "enter"@ {
        Some(KeyCode::Enter)
    } else if l == "tab"@ {
        Some(KeyCode::Tab)
    } else if l == "backtab"@ || l == "shift+tab"@ {
        Some(KeyCode::BackTab)
    } else if l == "backspace"@ {
        Some(KeyCode::Backspace)
    } else if l == "up"@ {
        Some(KeyCode::Up)
    } else if l == "down"@ {
        Some(KeyCode::Down)
    } else if l == "pageup"@ || l == "pgup"@ {
        Some(KeyCode::PageUp)
    } else if l == "pagedown"@ || l == "pgdown"@ || l == "pgdn"@ {
        Some(KeyCode::PageDown)
    } else if l == "end"@ {
        Some(KeyCode::End)
    } else if l == "esc"@ || l == "escape"@ {
        Some(KeyCode::Esc)
    } else if l.len() == 1 {
        Some(KeyCode::Char(l[0]))
    } else {
        None
    }
}

/// An unmodified chord for `code`.
pub open spec fn plain_chord(code: KeyCode) -> KeyChordSettings {
    KeyChordSettings { code, ctrl: false, alt: false, shift: false }
}

/// `Ctrl+<ch>`.
pub open spec fn ctrl_chord(ch: char) -> KeyChordSettings {
    KeyChordSettings { code: KeyCode::Char(ch), ctrl: true, alt: false, shift: false }
}

/// `Shift+<ch>`.
pub open spec fn shift_chord(ch: char) -> KeyChordSettings {
    KeyChordSettings { code: KeyCode::Char(ch), ctrl: false, alt: false, shift: true }
}

impl KeyChordSettings {
    /// Whether a key event satisfies this chord: the codes agree (characters
    /// case-insensitively, `BackTab` as `Shift+Tab`) and the `Ctrl`, `Alt`
    /// and `Shift` states are exactly the configured ones.
    pub open spec fn spec_matches(self, ev: KeyEvent) -> bool {
        let expected = normalize_tab(self.code, self.shift);
        let actual = normalize_tab(ev.code, ev.modifiers.has_shift());
        &&& codes_match(expected.0, actual.0)
        &&& ev.modifiers.has_control() == self.ctrl
        &&& ev.modifiers.has_alt() == self.alt
        &&& actual.1 == expected.1
    }

    /// The chord's label: the held modifiers then the key, joined by `+`.
    pub open spec fn spec_label(self) -> Seq<char> {
        (if self.ctrl {
            "ctrl+"@
        } else {
            Seq::<char>::empty()
        }) + (if self.alt {
            "alt+"@
        } else {
            Seq::<char>::empty()
        }) + (if self.shift {
            "shift+"@
        } else {
            Seq::<char>::empty()
        }) + key_code_label_spec(self.code)
    }

    /// Returns `true` when the incoming key event satisfies this key chord.
    ///
    /// Character codes are compared case-insensitively so configured `j` can
    /// still match a shifted `J` key event when `shift = true`.
    ///
    /// Modifiers are matched exactly. This allows pairs like `j` and
    /// `Shift+j` to coexist without overlapping.
    pub fn matches(&self, key_event: &KeyEvent) -> (r: bool)
        ensures
            r == self.spec_matches(*key_event),
    {
        let (expected_code, expected_shift) = normalize_tab_code(self.code, self.shift);
        let (actual_code, actual_shift) = normalize_tab_code(
            key_event.code,
            key_event.modifiers.shift_held(),
        );

        if !code_matches(expected_code, actual_code) {
            return false;
        }
        if key_event.modifiers.control_held() != self.ctrl {
            return false;
        }
        if key_event.modifiers.alt_held() != self.alt {
            return false;
        }
        if actual_shift != expected_shift {
            return false;
        }
        true
    }

    /// Returns a human-readable label for the configured key chord.
    pub fn label(&self) -> (r: String)
        ensures
            r@ == self.spec_label(),
    {
        let mut r = String::new();
        if self.ctrl {
            push_str(&mut r, "ctrl+");
        }
        if self.alt {
            push_str(&mut r, "alt+");
        }
        if self.shift {
            push_str(&mut r, "shift+");
        }
        let key_label = key_code_label(self.code);
        push_str(&mut r, key_label.as_str());
        assert(r@ =~= self.spec_label());
        r
    }
}

/// `BackTab` becomes `Tab` with shift held; other codes are unchanged.
pub fn normalize_tab_code(code: KeyCode, shift: bool) -> (r: (KeyCode, bool))
    ensures
        r == normalize_tab(code, shift),
{
    match code {
        KeyCode::BackTab => (KeyCode::Tab, true),
        _ => (code, shift),
    }
}

/// Whether two key codes agree, characters compared ignoring ASCII case.
pub fn code_matches(expected: KeyCode, actual: KeyCode) -> (r: bool)
    ensures
        r == codes_match(expected, actual),
{
    match (expected, actual) {
        (KeyCode::Char(e), KeyCode::Char(a)) => eq_ignore_ascii_case(e, a),
        _ => expected == actual,
    }
}

impl Default for KeyChordSettings {
    /// Provides a conservative fallback key chord (`Esc`).
    fn default() -> (r: Self)
        ensures
            r == plain_chord(KeyCode::Esc),
    {
        key(KeyCode::Esc)
    }
}

/// User-configurable keybinding collection for all supported commands.
///
/// Missing fields in configuration are filled from [`Default`], enabling
/// partial overrides.
#[derive(Clone, Copy, Debug)]
pub struct AppKeybindsSettings {
    /// Binding for [`KeyCommand::ExitApp`].
    pub exit_app: KeyChordSettings,
    /// Binding for [`KeyCommand::EnterInputMode`].
    pub enter_input_mode: KeyChordSettings,
    /// Binding for [`KeyCommand::ExitInputMode`].
    pub exit_input_mode: KeyChordSettings,
    /// Binding for [`KeyCommand::NewChatTab`].
    pub new_chat_tab: KeyChordSettings,
    /// Binding for [`KeyCommand::NextTab`].
    pub next_tab: KeyChordSettings,
    /// Binding for [`KeyCommand::PrevTab`].
    pub prev_tab: KeyChordSettings,
    /// Binding for [`KeyCommand::Backspace`].
    pub backspace: KeyChordSettings,
    /// Binding for [`KeyCommand::Submit`].
    pub submit: KeyChordSettings,
    /// Binding for [`KeyCommand::ScrollUp`].
    pub scroll_up: KeyChordSettings,
    /// Binding for [`KeyCommand::ScrollDown`].
    pub scroll_down: KeyChordSettings,
    /// Binding for [`KeyCommand::PageUp`].
    pub page_up: KeyChordSettings,
    /// Binding for [`KeyCommand::PageDown`].
    pub page_down: KeyChordSettings,
    /// Binding for [`KeyCommand::ScrollToBottom`].
    pub scroll_to_bottom: KeyChordSettings,
    /// Binding for [`KeyCommand::CloseCurrentTab`].
    pub close_current_tab: KeyChordSettings,
    /// Binding for [`KeyCommand::RenameCurrentTab`].
    pub rename_current_tab: KeyChordSettings,
}

/// The built-in Vim/TUI-friendly bindings.
pub open spec fn default_keybinds() -> AppKeybindsSettings {
    AppKeybindsSettings {
        exit_app: ctrl_chord('c'),
        enter_input_mode: plain_chord(KeyCode::Char('i')),
        exit_input_mode: plain_chord(KeyCode::Esc),
        new_chat_tab: ctrl_chord('t'),
        next_tab: plain_chord(KeyCode::Tab),
        prev_tab: plain_chord(KeyCode::BackTab),
        backspace: plain_chord(KeyCode::Backspace),
        submit: plain_chord(KeyCode::Enter),
        scroll_up: plain_chord(KeyCode::Char('k')),
        scroll_down: plain_chord(KeyCode::Char('j')),
        page_up: shift_chord('k'),
        page_down: shift_chord('j'),
        scroll_to_bottom: plain_chord(KeyCode::End),
        close_current_tab: ctrl_chord('w'),
        rename_current_tab: ctrl_chord('r'),
    }
}

impl Default for AppKeybindsSettings {
    /// Built-in Vim/TUI-friendly keybinding defaults.
    fn default() -> (r: Self)
        ensures
            r == default_keybinds(),
    {
        AppKeybindsSettings {
            exit_app: ctrl_key('c'),
            enter_input_mode: key(KeyCode::Char('i')),
            exit_input_mode: key(KeyCode::Esc),
            new_chat_tab: ctrl_key('t'),
            next_tab: key(KeyCode::Tab),
            prev_tab: key(KeyCode::BackTab),
            backspace: key(KeyCode::Backspace),
            submit: key(KeyCode::Enter),
            scroll_up: key(KeyCode::Char('k')),
            scroll_down: key(KeyCode::Char('j')),
            page_up: shift_key('k'),
            page_down: shift_key('j'),
            scroll_to_bottom: key(KeyCode::End),
            close_current_tab: ctrl_key('w'),
            rename_current_tab: ctrl_key('r'),
        }
    }
}

impl AppKeybindsSettings {
    /// The chord configured for `command`.
    pub open spec fn binding(self, command: KeyCommand) -> KeyChordSettings {
        match command {
            KeyCommand::ExitApp => self.exit_app,
            KeyCommand::EnterInputMode => self.enter_input_mode,
            KeyCommand::ExitInputMode => self.exit_input_mode,
            KeyCommand::NewChatTab => self.new_chat_tab,
            KeyCommand::NextTab => self.next_tab,
            KeyCommand::PrevTab => self.prev_tab,
            KeyCommand::Backspace => self.backspace,
            KeyCommand::Submit => self.submit,
            KeyCommand::ScrollUp => self.scroll_up,
            KeyCommand::ScrollDown => self.scroll_down,
            KeyCommand::PageUp => self.page_up,
            KeyCommand::PageDown => self.page_down,
            KeyCommand::ScrollToBottom => self.scroll_to_bottom,
            KeyCommand::CloseCurrentTab => self.close_current_tab,
            KeyCommand::RenameCurrentTab => self.rename_current_tab,
        }
    }

    /// The first command of `commands` whose chord matches `ev`.
    pub open spec fn first_match(self, ev: KeyEvent, commands: Seq<KeyCommand>) -> Option<KeyCommand>
        decreases commands.len(),
    {
        if commands.len() == 0 {
            None
        } else if self.binding(commands[0]).spec_matches(ev) {
            Some(commands[0])
        } else {
            self.first_match(ev, commands.drop_first())
        }
    }

    /// The command that a key event resolves to.
    pub open spec fn spec_resolve_command(self, ev: KeyEvent) -> Option<KeyCommand> {
        self.first_match(ev, ordered_commands())
    }

    /// Resolves a raw key event to the first matching command, if any.
    ///
    /// Matching is performed in [`ordered_commands`] sequence.
    pub fn resolve_command(&self, key_event: &KeyEvent) -> (r: Option<KeyCommand>)
        ensures
            r == self.spec_resolve_command(*key_event),
            r matches Some(c) ==> exists|i: int|
                0 <= i < ordered_commands().len() && ordered_commands()[i] == c
                    && self.binding(c).spec_matches(*key_event) && forall|k: int|
                    0 <= k < i ==> !self.binding(#[trigger] ordered_commands()[k]).spec_matches(
                        *key_event,
                    ),
            r is None ==> forall|k: int|
                0 <= k < ordered_commands().len() ==> !self.binding(
                    #[trigger] ordered_commands()[k],
                ).spec_matches(*key_event),
    {
        let commands = KeyCommand::ordered();
        let ghost all = commands@;
        let mut i: usize = 0;
        assert(all.skip(0) =~= all);
        while i < commands.len()
            invariant
                commands@ == all,
                all == ordered_commands(),
                i <= all.len(),
                forall|k: int| 0 <= k < i ==> !self.binding(#[trigger] all[k]).spec_matches(*key_event),
                self.first_match(*key_event, all) == self.first_match(*key_event, all.skip(i as int)),
            decreases all.len() - i,
        {
            let command = commands[i];
            if self.binding_for(command).matches(key_event) {
                assert(all.skip(i as int)[0] == command);
                return Some(command);
            }
            assert(all.skip(i as int).drop_first() =~= all.skip(i + 1));
            i = i + 1;
        }
        None
    }

    /// Returns the display label for a command's current binding.
    pub fn label_for(&self, command: KeyCommand) -> (r: String)
        ensures
            r@ == self.binding(command).spec_label(),
    {
        self.binding_for(command).label()
    }

    /// Returns the configured chord associated with a given command.
    pub fn binding_for(&self, command: KeyCommand) -> (r: &KeyChordSettings)
        ensures
            *r == self.binding(command),
    {
        match command {
            KeyCommand::ExitApp => &self.exit_app,
            KeyCommand::EnterInputMode => &self.enter_input_mode,
            KeyCommand::ExitInputMode => &self.exit_input_mode,
            KeyCommand::NewChatTab => &self.new_chat_tab,
            KeyCommand::NextTab => &self.next_tab,
            KeyCommand::PrevTab => &self.prev_tab,
            KeyCommand::Backspace => &self.backspace,
            KeyCommand::Submit => &self.submit,
            KeyCommand::ScrollUp => &self.scroll_up,
            KeyCommand::ScrollDown => &self.scroll_down,
            KeyCommand::PageUp => &self.page_up,
            KeyCommand::PageDown => &self.page_down,
            KeyCommand::ScrollToBottom => &self.scroll_to_bottom,
            KeyCommand::CloseCurrentTab => &self.close_current_tab,
            KeyCommand::RenameCurrentTab => &self.rename_current_tab,
        }
    }
}

/// The display label of a key code.
pub fn key_code_label(code: KeyCode) -> (r: String)
    ensures
        r@ == key_code_label_spec(code),
{
    match code {
        KeyCode::Enter => owned("enter"),
        KeyCode::Tab => owned("tab"),
        KeyCode::BackTab => owned("backtab"),
        KeyCode::Backspace => owned("backspace"),
        KeyCode::Up => owned("up"),
        KeyCode::Down => owned("down"),
        KeyCode::PageUp => owned("pageup"),
        KeyCode::PageDown => owned("pagedown"),
        KeyCode::End => owned("end"),
        KeyCode::Esc => owned("esc"),
        KeyCode::Char(ch) => char_string(to_ascii_lowercase(ch)),
        _ => owned("key"),
    }
}

/// Creates an unmodified key chord for a single key code.
pub fn key(code: KeyCode) -> (r: KeyChordSettings)
    ensures
        r == plain_chord(code),
{
    KeyChordSettings { code, ctrl: false, alt: false, shift: false }
}

/// Creates a `Ctrl+<char>` key chord.
pub fn ctrl_key(ch: char) -> (r: KeyChordSettings)
    ensures
        r == ctrl_chord(ch),
{
    KeyChordSettings { code: KeyCode::Char(ch), ctrl: true, alt: false, shift: false }
}

/// Creates a `Shift+<char>` key chord.
pub fn shift_key(ch: char) -> (r: KeyChordSettings)
    ensures
        r == shift_chord(ch),
{
    KeyChordSettings { code: KeyCode::Char(ch), ctrl: false, alt: false, shift: true }
}

/// Whether the characters of `v` are those of `lit`.
fn is_name(v: &Vec<char>, lit: &str) -> (r: bool)
    ensures
        r == (v@ == lit@),
{
    let w = chars_of(lit);
    chars_eq(v, &w)
}

/// Parses normalized key strings (for example `enter`, `pgdn`, `a`).
pub fn parse_key_code(value: &str) -> (r: Option<KeyCode>)
    ensures
        r == spec_parse_key_code(value@),
{
    let trimmed = trim_str(value);
    let raw = chars_of(trimmed.as_str());
    let lowered = lower_chars(&raw);
    if is_name(&lowered, "enter") {
        Some(KeyCode::Enter)
    } else if is_name(&lowered, "tab") {
        Some(KeyCode::Tab)
    } else if is_name(&lowered, "backtab") || is_name(&lowered, "shift+tab") {
        Some(KeyCode::BackTab)
    } else if is_name(&lowered, "backspace") {
        Some(KeyCode::Backspace)
    } else if is_name(&lowered, "up") {
        Some(KeyCode::Up)
    } else if is_name(&lowered, "down") {
        Some(KeyCode::Down)
    } else if is_name(&lowered, "pageup") || is_name(&lowered, "pgup") {
        Some(KeyCode::PageUp)
    } else if is_name(&lowered, "pagedown") || is_name(&lowered, "pgdown") || is_name(
        &lowered,
        "pgdn",
    ) {
        Some(KeyCode::PageDown)
    } else if is_name(&lowered, "end") {
        Some(KeyCode::End)
    } else if is_name(&lowered, "esc") || is_name(&lowered, "escape") {
        Some(KeyCode::Esc)
    } else if lowered.len() == 1 {
        Some(KeyCode::Char(lowered[0]))
    } else {
        None
    }
}

} // verus!

verus! {

/// The message for a key name that denotes no key.
pub open spec fn invalid_key_message(value: Seq<char>) -> Seq<char> {
    "invalid key code '"@ + value
        + "', expected one of: single character, enter, tab, backtab, backspace, up, down, pageup, pagedown, end, esc"@
}

/// Reads a configured key name, refusing one that denotes no key with a
/// message that lists the accepted names.
pub fn key_code_from_name(value: &str) -> (r: Result<KeyCode, String>)
    ensures
        spec_parse_key_code(value@) matches Some(c) ==> r == Ok::<KeyCode, String>(c),
        spec_parse_key_code(value@) is None ==> (r matches Err(m) && m@ == invalid_key_message(
            value@,
        )),
{
    match parse_key_code(value) {
        Some(code) => Ok(code),
        None => {
            let mut m = String::new();
            push_str(&mut m, "invalid key code '");
            push_str(&mut m, value);
            push_str(
                &mut m,
                "', expected one of: single character, enter, tab, backtab, backspace, up, down, pageup, pagedown, end, esc",
            );
            assert(m@ =~= invalid_key_message(value@));
            Err(m)
        },
    }
}

} // verus!

verus! {

/// Modifiers are matched exactly: a plain character chord and the shifted
/// chord of the same character never both match one key event, so `j` and
/// `Shift+j` can be bound to different commands.
pub proof fn lemma_plain_and_shifted_chords_disjoint(ch: char, ev: KeyEvent)
    ensures
        !(plain_chord(KeyCode::Char(ch)).spec_matches(ev) && shift_chord(ch).spec_matches(ev)),
{
}

/// Characters are compared ignoring ASCII case: a shifted chord configured
/// with one case matches a shifted key event carrying the other case.
pub proof fn lemma_shifted_chord_matches_either_case(configured: char, typed: char, ev: KeyEvent)
    requires
        ascii_lower(configured) == ascii_lower(typed),
        ev.code == KeyCode::Char(typed),
        ev.modifiers.has_shift(),
        !ev.modifiers.has_control(),
        !ev.modifiers.has_alt(),
    ensures
        shift_chord(configured).spec_matches(ev),
{
}

/// `BackTab` is `Shift+Tab`: a chord on `BackTab` matches a `BackTab`
/// event, and a `Tab` event exactly when shift is held (either without
/// `Ctrl` and `Alt`).
pub proof fn lemma_backtab_is_shift_tab(ev: KeyEvent)
    requires
        !ev.modifiers.has_control(),
        !ev.modifiers.has_alt(),
    ensures
        ev.code == KeyCode::BackTab ==> plain_chord(KeyCode::BackTab).spec_matches(ev),
        ev.code == KeyCode::Tab ==> (plain_chord(KeyCode::BackTab).spec_matches(ev)
            <==> ev.modifiers.has_shift()),
{
}

/// A key name's label reads back as the same key: every key code that a
/// name denotes is denoted again by its label.
pub proof fn lemma_parse_label_roundtrip(name: Seq<char>)
    requires
        spec_parse_key_code(name) is Some,
    ensures
        spec_parse_key_code(key_code_label_spec(spec_parse_key_code(name)->0))
            == spec_parse_key_code(name),
{
    reveal_strlit("enter");
    reveal_strlit("tab");
    reveal_strlit("backtab");
    reveal_strlit("shift+tab");
    reveal_strlit("backspace");
    reveal_strlit("up");
    reveal_strlit("down");
    reveal_strlit("pageup");
    reveal_strlit("pgup");
    reveal_strlit("pagedown");
    reveal_strlit("pgdown");
    reveal_strlit("pgdn");
    reveal_strlit("end");
    reveal_strlit("esc");
    reveal_strlit("escape");
    let code = spec_parse_key_code(name)->0;
    let label = key_code_label_spec(code);
    match code {
        KeyCode::Char(ch) => {
            let t = trim(name);
            let l = lower_seq(t);
            assert(l.len() == 1);
            assert(ch == ascii_lower(t[0]));
            crate::text::lemma_trim_ends(name);
            crate::text::lemma_ascii_lower_ws(t[0]);
            crate::text::lemma_ascii_lower_idempotent(t[0]);
            assert(label == seq![ch]);
            crate::text::lemma_trim_single(ch);
            assert(lower_seq(seq![ch]) =~= seq![ch]);
        },
        _ => {
            assert(label.len() > 0);
            assert(!crate::text::is_ws(label[0]));
            assert(!crate::text::is_ws(label.last()));
            crate::text::lemma_trim_unchanged(label);
            assert(lower_seq(label) =~= label);
        },
    }
}

/// A named key code's label parses back to that same key code, so each
/// name denotes its own key (`down` the down arrow, `up` the up arrow, and
/// so on) and no two named keys share a label.
pub proof fn lemma_named_key_label_parses_back(code: KeyCode)
    requires
        code == KeyCode::Enter || code == KeyCode::Tab || code == KeyCode::BackTab || code
            == KeyCode::Backspace || code == KeyCode::Up || code == KeyCode::Down || code
            == KeyCode::PageUp || code == KeyCode::PageDown || code == KeyCode::End || code
            == KeyCode::Esc,
    ensures
        spec_parse_key_code(key_code_label_spec(code)) == Some(code),
{
    reveal_strlit("enter");
    reveal_strlit("tab");
    reveal_strlit("backtab");
    reveal_strlit("shift+tab");
    reveal_strlit("backspace");
    reveal_strlit("up");
    reveal_strlit("down");
    reveal_strlit("pageup");
    reveal_strlit("pgup");
    reveal_strlit("pagedown");
    reveal_strlit("pgdown");
    reveal_strlit("pgdn");
    reveal_strlit("end");
    reveal_strlit("esc");
    reveal_strlit("escape");
    let label = key_code_label_spec(code);
    assert(label.len() > 0);
    assert(!crate::text::is_ws(label[0]));
    assert(!crate::text::is_ws(label.last()));
    crate::text::lemma_trim_unchanged(label);
    assert(lower_seq(label) =~= label);
}

/// A parsed key name denotes the key it names: whatever surrounds it and
/// whatever its case, the name that was read is one of that key's names.
pub proof fn lemma_parsed_key_matches_name(value: Seq<char>)
    ensures
        ({
            let l = lower_seq(trim(value));
            let r = spec_parse_key_code(value);
            &&& r == Some(KeyCode::Enter) ==> l == "enter"@
            &&& r == Some(KeyCode::Tab) ==> l == "tab"@
            &&& r == Some(KeyCode::BackTab) ==> l == "backtab"@ || l == "shift+tab"@
            &&& r == Some(KeyCode::Backspace) ==> l == "backspace"@
            &&& r == Some(KeyCode::Up) ==> l == "up"@
            &&& r == Some(KeyCode::Down) ==> l == "down"@
            &&& r == Some(KeyCode::PageUp) ==> l == "pageup"@ || l == "pgup"@
            &&& r == Some(KeyCode::PageDown) ==> l == "pagedown"@ || l == "pgdown"@ || l == "pgdn"@
            &&& r == Some(KeyCode::End) ==> l == "end"@
            &&& r == Some(KeyCode::Esc) ==> l == "esc"@ || l == "escape"@
            &&& (r matches Some(KeyCode::Char(ch)) ==> l == seq![ch])
        }),
{
    reveal_strlit("enter");
    reveal_strlit("tab");
    reveal_strlit("backtab");
    reveal_strlit("shift+tab");
    reveal_strlit("backspace");
    reveal_strlit("up");
    reveal_strlit("down");
    reveal_strlit("pageup");
    reveal_strlit("pgup");
    reveal_strlit("pagedown");
    reveal_strlit("pgdown");
    reveal_strlit("pgdn");
    reveal_strlit("end");
    reveal_strlit("esc");
    reveal_strlit("escape");
    let l = lower_seq(trim(value));
    if l.len() == 1 {
        assert(l =~= seq![l[0]]);
    }
}

} // verus!
