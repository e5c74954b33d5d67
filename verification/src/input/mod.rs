//! Input mode and key resolution utilities for the TUI.
//!
//! This module maps low-level key events into higher-level actions that the
//! application can execute. Resolution is mode-aware so that navigation
//! shortcuts in normal mode do not interfere with text entry in input mode.

/// Key events as plain values.
pub mod key_event;

use vstd::prelude::*;

pub use crate::settings::settings_keybinds::KeyCommand;
use crate::settings::settings_keybinds::AppKeybindsSettings;
use key_event::{KeyCode, KeyEvent};

verus! {

/// The interaction mode of the app.
#[derive(Clone, Copy, Debug, PartialEq, Eq, Structural)]
pub enum InputMode {
    /// Command/navigation mode where keybinds trigger app commands.
    Normal,
    /// Text-entry mode where printable keys are inserted into the input buffer.
    Insert,
}

impl Default for InputMode {
    fn default() -> (r: Self)
        ensures
            r == InputMode::Normal,
    {
        InputMode::Normal
    }
}

/// What a key press asks the app to do.
#[derive(Clone, Copy, Debug, PartialEq, Eq, Structural)]
pub enum KeyAction {
    /// Execute an app-level command.
    Command(KeyCommand),
    /// Insert a printable character into the active text input.
    InsertChar(char),
    /// Ignore the key event.
    Noop,
}

/// Commands that normal mode lets through.
pub open spec fn allowed_in_normal(command: KeyCommand) -> bool {
    match command {
        KeyCommand::ExitApp | KeyCommand::EnterInputMode | KeyCommand::NewChatTab
        | KeyCommand::NextTab | KeyCommand::PrevTab | KeyCommand::ScrollUp
        | KeyCommand::ScrollDown | KeyCommand::PageUp | KeyCommand::PageDown
        | KeyCommand::ScrollToBottom | KeyCommand::CloseCurrentTab
        | KeyCommand::RenameCurrentTab => true,
        _ => false,
    }
}

/// Commands that insert mode lets through.
pub open spec fn allowed_in_insert(command: KeyCommand) -> bool {
    match command {
        KeyCommand::ExitInputMode | KeyCommand::Backspace | KeyCommand::ExitApp
        | KeyCommand::Submit => true,
        _ => false,
    }
}

/// The action a key event resolves to in `mode` under `keybinds`.
pub open spec fn spec_resolve(keybinds: AppKeybindsSettings, ev: KeyEvent, mode: InputMode) -> KeyAction {
    let resolved = keybinds.spec_resolve_command(ev);
    match mode {
        InputMode::Normal => {
            if resolved is Some && allowed_in_normal(resolved->0) {
                KeyAction::Command(resolved->0)
            } else {
                KeyAction::Noop
            }
        },
        InputMode::Insert => {
            if resolved is Some && allowed_in_insert(resolved->0) {
                KeyAction::Command(resolved->0)
            } else if keybinds.backspace.spec_matches(ev) {
                KeyAction::Command(KeyCommand::Backspace)
            } else if keybinds.submit.spec_matches(ev) {
                KeyAction::Command(KeyCommand::Submit)
            } else if ev.code is Char {
                if ev.modifiers.has_control() || ev.modifiers.has_alt() {
                    KeyAction::Noop
                } else {
                    KeyAction::InsertChar(ev.code->Char_0)
                }
            } else {
                KeyAction::Noop
            }
        },
    }
}

/// Resolves `KeyEvent` values into mode-specific [`KeyAction`] values.
///
/// The resolver is intentionally strict in `InputMode::Insert`: it allows
/// only editing/submit commands and plain character insertion, while
/// ignoring most control-key chords.
pub struct KeybindResolver<'a> {
    keybinds: &'a AppKeybindsSettings,
}

impl<'a> KeybindResolver<'a> {
    /// The keybindings this resolver reads.
    pub closed spec fn spec_keybinds(&self) -> AppKeybindsSettings {
        *self.keybinds
    }

    /// Creates a resolver backed by the provided keybinding configuration.
    pub fn new(keybinds: &'a AppKeybindsSettings) -> (r: Self)
        ensures
            r.spec_keybinds() == *keybinds,
    {
        Self { keybinds }
    }

    /// Maps a raw key event into a high-level action for the active input mode.
    ///
    /// Resolution rules:
    /// - `InputMode::Normal`: only navigation/app management commands are
    ///   emitted; all other keys become [`KeyAction::Noop`].
    /// - `InputMode::Insert`: exit/edit/submit commands are allowed; plain
    ///   printable characters become [`KeyAction::InsertChar`].
    /// - `Ctrl` or `Alt` modified characters are ignored while typing to avoid
    ///   accidental command execution from text-entry mode.
    pub fn resolve(&self, key_event: KeyEvent, mode: InputMode) -> (r: KeyAction)
        ensures
            r == spec_resolve(self.spec_keybinds(), key_event, mode),
    {
        match mode {
            InputMode::Normal => {
                if let Some(command) = self.keybinds.resolve_command(&key_event) {
                    match command {
                        KeyCommand::ExitApp
                        | KeyCommand::EnterInputMode
                        | KeyCommand::NewChatTab
                        | KeyCommand::NextTab
                        | KeyCommand::PrevTab
                        | KeyCommand::ScrollUp
                        | KeyCommand::ScrollDown
                        | KeyCommand::PageUp
                        | KeyCommand::PageDown
                        | KeyCommand::ScrollToBottom
                        | KeyCommand::CloseCurrentTab
                        | KeyCommand::RenameCurrentTab => return KeyAction::Command(command),
                        _ => {},
                    }
                }
                KeyAction::Noop
            },
            InputMode::Insert => {
                if let Some(command) = self.keybinds.resolve_command(&key_event) {
                    match command {
                        KeyCommand::ExitInputMode
                        | KeyCommand::Backspace
                        | KeyCommand::ExitApp
                        | KeyCommand::Submit => {
                            return KeyAction::Command(command);
                        },
                        _ => {},
                    }
                }
                if self.keybinds.backspace.matches(&key_event) {
                    return KeyAction::Command(KeyCommand::Backspace);
                }
                if self.keybinds.submit.matches(&key_event) {
                    return KeyAction::Command(KeyCommand::Submit);
                }
                if let KeyCode::Char(ch) = key_event.code {
                    if key_event.modifiers.control_held() || key_event.modifiers.alt_held() {
                        return KeyAction::Noop;
                    }
                    return KeyAction::InsertChar(ch);
                }
                KeyAction::Noop
            },
        }
    }
}

} // verus!

verus! {

/// Normal mode never types text, and only emits navigation and app
/// management commands.
pub proof fn lemma_normal_mode_emits_only_navigation(keybinds: AppKeybindsSettings, ev: KeyEvent)
    ensures
        !(spec_resolve(keybinds, ev, InputMode::Normal) is InsertChar),
        spec_resolve(keybinds, ev, InputMode::Normal) matches KeyAction::Command(c) ==> allowed_in_normal(c),
{
}

/// Insert mode only emits exit, editing and submit commands,
/// and types a character only for that character's key pressed without
/// `Ctrl` or `Alt`.
pub proof fn lemma_insert_mode_filters(keybinds: AppKeybindsSettings, ev: KeyEvent)
    ensures
        spec_resolve(keybinds, ev, InputMode::Insert) matches KeyAction::Command(c) ==> allowed_in_insert(c),
        spec_resolve(keybinds, ev, InputMode::Insert) matches KeyAction::InsertChar(ch) ==> ev.code
            == KeyCode::Char(ch) && !ev.modifiers.has_control() && !ev.modifiers.has_alt(),
{
}

/// In normal mode a key press whose first matching binding is a navigation
/// or app-management command (quit, insert mode, new tab, next or previous
/// tab, scrolling, close or rename tab) is emitted as exactly that command.
pub proof fn lemma_normal_mode_emits_bound_commands(keybinds: AppKeybindsSettings, ev: KeyEvent, c: KeyCommand)
    requires
        keybinds.spec_resolve_command(ev) == Some(c),
        c == KeyCommand::ExitApp || c == KeyCommand::EnterInputMode || c == KeyCommand::NewChatTab
            || c == KeyCommand::NextTab || c == KeyCommand::PrevTab || c == KeyCommand::ScrollUp
            || c == KeyCommand::ScrollDown || c == KeyCommand::PageUp || c == KeyCommand::PageDown
            || c == KeyCommand::ScrollToBottom || c == KeyCommand::CloseCurrentTab || c
            == KeyCommand::RenameCurrentTab,
    ensures
        spec_resolve(keybinds, ev, InputMode::Normal) == KeyAction::Command(c),
{
}

/// In insert mode a key press whose first matching binding is leaving
/// insert mode, quitting, deleting or submitting is emitted as exactly that
/// command.
pub proof fn lemma_insert_mode_emits_bound_commands(keybinds: AppKeybindsSettings, ev: KeyEvent, c: KeyCommand)
    requires
        keybinds.spec_resolve_command(ev) == Some(c),
        c == KeyCommand::ExitInputMode || c == KeyCommand::ExitApp || c == KeyCommand::Backspace || c
            == KeyCommand::Submit,
    ensures
        spec_resolve(keybinds, ev, InputMode::Insert) == KeyAction::Command(c),
{
}

/// In insert mode a key press that matches the backspace or submit binding
/// always resolves to a command: it is never typed as text nor ignored.
pub proof fn lemma_insert_mode_edit_keys(keybinds: AppKeybindsSettings, ev: KeyEvent)
    ensures
        keybinds.backspace.spec_matches(ev) ==> spec_resolve(keybinds, ev, InputMode::Insert) is Command,
        keybinds.submit.spec_matches(ev) ==> spec_resolve(keybinds, ev, InputMode::Insert) is Command,
{
}

} // verus!
