//! Submission rules of the message composer: which key submits, and what
//! a draft submits.
use vstd::prelude::*;

use crate::input::key_event::{KeyCode, KeyEvent};
use crate::text::{trim, trim_str};

verus! {

/// What a draft submits: the draft without surrounding white space, or
/// nothing when only white space is left.
pub fn draft_submission(draft: &str) -> (r: Option<String>)
    ensures
        trim(draft@).len() == 0 ==> r is None,
        trim(draft@).len() > 0 ==> (r matches Some(text) && text@ == trim(draft@)),
{
    let text = trim_str(draft);
    if text.as_str().is_empty() {
        None
    } else {
        Some(text)
    }
}

/// Whether a key press in the composer submits the draft: Enter without
/// Shift (Shift+Enter starts a new line).
pub fn submits_on_key(key: KeyEvent) -> (r: bool)
    ensures
        r == (key.code == KeyCode::Enter && !key.modifiers.has_shift()),
{
    match key.code {
        KeyCode::Enter => !key.modifiers.shift_held(),
        _ => false,
    }
}

} // verus!
