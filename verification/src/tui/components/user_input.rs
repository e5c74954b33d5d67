//! Sizing of the chat input box.
use vstd::prelude::*;

use crate::text::owned;
use crate::tui::util::{
    lemma_total_rows_antitone, lemma_wrapped_count_grows, spec_wrapped_line_count, wrapped_line_count,
};

verus! {

/// The height in rows of an input box of `width` holding `input`: the
/// wrapped text (at least one row) plus the two border rows, capped at
/// `u16::MAX`; 1 for a zero width.
pub open spec fn spec_required_height(input: Seq<char>, width: u16) -> u16 {
    if width == 0 {
        1
    } else {
        let inner: nat = if width > 3 {
            (width - 2) as nat
        } else {
            1
        };
        let count = spec_wrapped_line_count(input, inner);
        let rows: nat = if count == 0 {
            1
        } else {
            count
        };
        if rows + 2 > u16::MAX {
            u16::MAX
        } else {
            (rows + 2) as u16
        }
    }
}

/// A piece of the input line, which decides its style.
#[derive(Clone, Copy, Debug, PartialEq, Eq, Structural)]
pub enum InputPart {
    /// The typed text.
    Text,
    /// The cursor glyph.
    Cursor,
    /// The hint shown while nothing is typed.
    Placeholder,
}

/// The cursor glyph drawn in the input box.
pub const INPUT_CURSOR: char = '\u{2588}';

/// The pieces of the input line: the cursor then the placeholder while
/// nothing is typed, else the text then the cursor.
pub open spec fn spec_input_parts(input: Seq<char>) -> Seq<(InputPart, Seq<char>)> {
    if input.len() == 0 {
        seq![(InputPart::Cursor, seq![INPUT_CURSOR]), (InputPart::Placeholder, "type a message..."@)]
    } else {
        seq![(InputPart::Text, input), (InputPart::Cursor, seq![INPUT_CURSOR])]
    }
}

/// Input widget state adapter for rendering typed content.
pub struct UserInputWidget<'a> {
    input: &'a str,
}

impl<'a> UserInputWidget<'a> {
    /// The input text.
    pub closed spec fn spec_input(&self) -> Seq<char> {
        self.input@
    }

    /// Creates an input widget over the provided input text.
    pub fn new(input: &'a str) -> (r: Self)
        ensures
            r.spec_input() == input@,
    {
        Self { input }
    }

    /// The pieces of the input line, in order.
    pub fn line_parts(&self) -> (r: Vec<(InputPart, String)>)
        ensures
            r@.map_values(|p: (InputPart, String)| (p.0, p.1@)) == spec_input_parts(self.spec_input()),
    {
        let mut cursor = String::new();
        cursor.push(INPUT_CURSOR);
        let mut r: Vec<(InputPart, String)> = Vec::new();
        if self.input.is_empty() {
            r.push((InputPart::Cursor, cursor));
            r.push((InputPart::Placeholder, owned("type a message...")));
        } else {
            r.push((InputPart::Text, owned(self.input)));
            r.push((InputPart::Cursor, cursor));
        }
        assert(cursor@ =~= seq![INPUT_CURSOR]);
        assert(r@.map_values(|p: (InputPart, String)| (p.0, p.1@)) =~= spec_input_parts(self.spec_input()));
        r
    }

    /// Computes rendered height with borders and wrapped content.
    pub fn required_height(input: &str, width: u16) -> (r: u16)
        ensures
            r == spec_required_height(input@, width),
    {
        if width == 0 {
            return 1;
        }
        let inner: u16 = width.saturating_sub(2);
        let inner_width: usize = if inner > 1 {
            inner as usize
        } else {
            1
        };
        let count = wrapped_line_count(input, inner_width);
        let wrapped_rows = if count > 1 {
            count
        } else {
            1
        };
        let total = wrapped_rows.saturating_add(2);
        if total > 65535 {
            65535
        } else {
            total as u16
        }
    }
}

/// The input box never grows when it is widened, and never shrinks when a
/// character is typed.
pub proof fn lemma_required_height_monotone(input: Seq<char>, ch: char, w1: u16, w2: u16)
    requires
        1 <= w1 <= w2,
    ensures
        spec_required_height(input, w2) <= spec_required_height(input, w1),
        spec_required_height(input.push(ch), w1) >= spec_required_height(input, w1),
{
    let i1: nat = if w1 > 3 {
        (w1 - 2) as nat
    } else {
        1
    };
    let i2: nat = if w2 > 3 {
        (w2 - 2) as nat
    } else {
        1
    };
    lemma_total_rows_antitone(crate::tui::util::split_lines(input), i1, i2);
    lemma_wrapped_count_grows(input, ch, i1);
}

} // verus!
