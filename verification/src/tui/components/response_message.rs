//! Assistant response message rows.
use vstd::prelude::*;

use crate::tui::util::{
    lemma_wrapped_count_matches_rows, lemma_wrapped_nonempty, spec_wrapped_line_count,
    string_views, wrap_text, wrapped,
};

verus! {

/// The marker that starts every row of an assistant message.
pub const RESPONSE_LINE_PREFIX: char = '\u{2502}';

/// The width at which a response message wraps inside a row of `width`.
pub open spec fn response_content_width(width: nat) -> nat {
    if width > 1 {
        (width - 1) as nat
    } else {
        1
    }
}

/// The wrapped text lines of a response message.
pub open spec fn response_content_lines(content: Seq<char>, width: nat) -> Seq<Seq<char>> {
    wrapped(content, response_content_width(width))
}

/// The rows of a response message: each wrapped line after the prefix marker.
pub open spec fn response_rows(content: Seq<char>, width: nat) -> Seq<Seq<char>> {
    response_content_lines(content, width).map_values(
        |line: Seq<char>| seq![RESPONSE_LINE_PREFIX] + line,
    )
}

/// Assistant response adapter for chat transcript rendering.
///
/// Each visual row starts with a fixed prefix marker so assistant messages
/// are visually distinct from user messages.
pub struct ResponseMessageWidget<'a> {
    content: &'a str,
    width: usize,
}

impl<'a> ResponseMessageWidget<'a> {
    /// The message text.
    pub closed spec fn spec_content(&self) -> Seq<char> {
        self.content@
    }

    /// The row width, at least 1.
    pub closed spec fn spec_width(&self) -> nat {
        self.width as nat
    }

    /// Creates a response message view over assistant-authored content.
    pub fn new(content: &'a str, width: usize) -> (r: Self)
        ensures
            r.spec_content() == content@,
            r.spec_width() == if width == 0 {
                1
            } else {
                width as nat
            },
    {
        Self { content, width: if width > 1 { width } else { 1 } }
    }

    /// Returns plain-text rows used for wrapped line counting: as many rows
    /// as the content wraps into.
    pub fn plain_rows(self) -> (r: Vec<String>)
        ensures
            string_views(r@) == response_rows(self.spec_content(), self.spec_width()),
            r@.len() == spec_wrapped_line_count(
                self.spec_content(),
                response_content_width(self.spec_width()),
            ),
    {
        let lines = self.wrapped_content_lines();
        let ghost mapped = string_views(lines@).map_values(
            |line: Seq<char>| seq![RESPONSE_LINE_PREFIX] + line,
        );
        let mut rows: Vec<String> = Vec::new();
        let mut i: usize = 0;
        while i < lines.len()
            invariant
                i <= lines@.len(),
                mapped == string_views(lines@).map_values(
                    |line: Seq<char>| seq![RESPONSE_LINE_PREFIX] + line,
                ),
                string_views(rows@) == mapped.take(i as int),
            decreases lines@.len() - i,
        {
            let mut row = String::new();
            row.push(RESPONSE_LINE_PREFIX);
            crate::text::push_str(&mut row, lines[i].as_str());
            proof {
                assert(row@ =~= seq![RESPONSE_LINE_PREFIX] + lines@[i as int]@);
            }
            let ghost prev = rows@;
            rows.push(row);
            assert(string_views(lines@)[i as int] == lines@[i as int]@);
            assert(mapped[i as int] == seq![RESPONSE_LINE_PREFIX] + lines@[i as int]@);
            assert(string_views(rows@) =~= string_views(prev).push(row@));
            assert(string_views(rows@) =~= mapped.take(i + 1));
            i = i + 1;
        }
        proof {
            assert(mapped.take(i as int) =~= mapped);
            lemma_wrapped_count_matches_rows(
                self.spec_content(),
                response_content_width(self.spec_width()),
            );
            lemma_wrapped_nonempty(self.spec_content(), response_content_width(self.spec_width()));
        }
        if rows.len() == 0 {
            let mut fallback: Vec<String> = Vec::new();
            fallback.push(crate::text::char_string(RESPONSE_LINE_PREFIX));
            fallback
        } else {
            rows
        }
    }

    /// The wrapped text lines of the message.
    pub fn wrapped_content_lines(&self) -> (r: Vec<String>)
        ensures
            string_views(r@) == response_content_lines(self.spec_content(), self.spec_width()),
    {
        let content_width = self.width.saturating_sub(1);
        let content_width = if content_width > 1 {
            content_width
        } else {
            1
        };
        wrap_text(self.content, content_width)
    }
}

} // verus!
