//! Bottom status bar text: mode badge and command hints.
use vstd::prelude::*;

use crate::input::InputMode;
use crate::settings::settings_keybinds::{AppKeybindsSettings, KeyCommand};
use crate::text::{owned, push_str};
use crate::tui::layout::{
    horizontal_piece, layout_outcome, spec_inner, split_area, Constraint, Direction, Flex, Rect,
};

verus! {

/// The mode badge text.
pub open spec fn spec_mode_label(mode: InputMode) -> Seq<char> {
    match mode {
        InputMode::Normal => " normal "@,
        InputMode::Insert => " insert "@,
    }
}

/// The label of the chord bound to `command`.
pub open spec fn label_of(keybinds: AppKeybindsSettings, command: KeyCommand) -> Seq<char> {
    keybinds.binding(command).spec_label()
}

/// The command hints for a mode, with the configured key labels.
pub open spec fn spec_hint_text(mode: InputMode, k: AppKeybindsSettings) -> Seq<char> {
    match mode {
        InputMode::Normal => label_of(k, KeyCommand::EnterInputMode) + " insert | "@ + label_of(
            k,
            KeyCommand::NextTab,
        ) + "/"@ + label_of(k, KeyCommand::PrevTab) + " switch | "@ + label_of(
            k,
            KeyCommand::NewChatTab,
        ) + " new | "@ + label_of(k, KeyCommand::CloseCurrentTab) + " close | "@ + label_of(
            k,
            KeyCommand::ScrollDown,
        ) + "/"@ + label_of(k, KeyCommand::ScrollUp) + " scroll | "@ + label_of(
            k,
            KeyCommand::ExitApp,
        ) + " quit"@,
        InputMode::Insert => label_of(k, KeyCommand::Submit) + " send | "@ + label_of(
            k,
            KeyCommand::ExitInputMode,
        ) + " normal | "@ + label_of(k, KeyCommand::Backspace)
            + " delete | placeholder: chars and model hint"@,
    }
}

/// The mode badge text.
pub fn mode_label(mode: InputMode) -> (r: String)
    ensures
        r@ == spec_mode_label(mode),
{
    match mode {
        InputMode::Normal => owned(" normal "),
        InputMode::Insert => owned(" insert "),
    }
}

fn push_label(out: &mut String, keybinds: &AppKeybindsSettings, command: KeyCommand)
    ensures
        final(out)@ == old(out)@ + label_of(*keybinds, command),
{
    let l = keybinds.label_for(command);
    push_str(out, l.as_str());
}

/// The command hints shown in the middle of the status bar.
pub fn hint_text(mode: InputMode, keybinds: &AppKeybindsSettings) -> (r: String)
    ensures
        r@ == spec_hint_text(mode, *keybinds),
{
    let mut r = String::new();
    match mode {
        InputMode::Normal => {
            push_label(&mut r, keybinds, KeyCommand::EnterInputMode);
            push_str(&mut r, " insert | ");
            push_label(&mut r, keybinds, KeyCommand::NextTab);
            push_str(&mut r, "/");
            push_label(&mut r, keybinds, KeyCommand::PrevTab);
            push_str(&mut r, " switch | ");
            push_label(&mut r, keybinds, KeyCommand::NewChatTab);
            push_str(&mut r, " new | ");
            push_label(&mut r, keybinds, KeyCommand::CloseCurrentTab);
            push_str(&mut r, " close | ");
            push_label(&mut r, keybinds, KeyCommand::ScrollDown);
            push_str(&mut r, "/");
            push_label(&mut r, keybinds, KeyCommand::ScrollUp);
            push_str(&mut r, " scroll | ");
            push_label(&mut r, keybinds, KeyCommand::ExitApp);
            push_str(&mut r, " quit");
        },
        InputMode::Insert => {
            push_label(&mut r, keybinds, KeyCommand::Submit);
            push_str(&mut r, " send | ");
            push_label(&mut r, keybinds, KeyCommand::ExitInputMode);
            push_str(&mut r, " normal | ");
            push_label(&mut r, keybinds, KeyCommand::Backspace);
            push_str(&mut r, " delete | placeholder: chars and model hint");
        },
    }
    assert(r@ =~= spec_hint_text(mode, *keybinds));
    r
}

/// Splits a status bar `area` into its badge, hints and scroll sections:
/// inside a one-column margin on each side, the layout solver cuts it
/// horizontally into 16 columns, what is left (at least one) and 24
/// columns. The result is the solver's answer to that request, in that
/// order; each section has the inner area's rows and lies within its
/// columns. Where the solver puts the cuts is its own.
pub fn status_sections(area: Rect) -> (r: (Rect, Rect, Rect))
    ensures
        layout_outcome(
            spec_inner(area, 1, 0),
            Direction::Horizontal,
            Flex::Start,
            0,
            seq![Constraint::Length(16), Constraint::Min(1), Constraint::Length(24)],
            seq![r.0, r.1, r.2],
        ),
        horizontal_piece(r.0, spec_inner(area, 1, 0)),
        horizontal_piece(r.1, spec_inner(area, 1, 0)),
        horizontal_piece(r.2, spec_inner(area, 1, 0)),
{
    let constraints = vec![Constraint::Length(16), Constraint::Min(1), Constraint::Length(24)];
    let parts = split_area(area.inner(1, 0), Direction::Horizontal, Flex::Start, 0, &constraints);
    assert(constraints@ =~= seq![Constraint::Length(16), Constraint::Min(1), Constraint::Length(24)]);
    let r = (parts[0], parts[1], parts[2]);
    assert(parts@ =~= seq![r.0, r.1, r.2]);
    r
}

} // verus!
