//! User request message rows.
use vstd::prelude::*;

use crate::text::push_str;
use crate::tui::util::{
    lemma_wrapped_count_matches_rows, lemma_wrapped_nonempty, pad_right, push_padded, spaces,
    spaces_string, spec_wrapped_line_count, string_views, wrap_text, wrapped,
};

verus! {

/// Horizontal padding on each side of the message text.
pub const INNER_HORIZONTAL_PADDING: usize = 1;

/// The width at which a request message wraps inside a row of `width`.
pub open spec fn request_content_width(width: nat) -> nat {
    if width > 2 {
        (width - 2) as nat
    } else {
        1
    }
}

/// The wrapped text lines of a request message.
pub open spec fn request_content_lines(content: Seq<char>, width: nat) -> Seq<Seq<char>> {
    wrapped(content, request_content_width(width))
}

/// One text row of a request message: a space, the line padded to the inner
/// width, a space.
pub open spec fn request_row(line: Seq<char>, width: nat) -> Seq<char> {
    seq![' '] + pad_right(line, if width > 2 { (width - 2) as nat } else { 0 }) + seq![' ']
}

/// The rows of a request message: a blank spacer row, the padded text rows,
/// another spacer row.
pub open spec fn request_rows(content: Seq<char>, width: nat) -> Seq<Seq<char>> {
    seq![spaces(width)] + request_content_lines(content, width).map_values(
        |line: Seq<char>| request_row(line, width),
    ) + seq![spaces(width)]
}

/// Request message adapter for chat transcript rendering.
pub struct RequestMessageWidget<'a> {
    content: &'a str,
    width: usize,
}

impl<'a> RequestMessageWidget<'a> {
    /// The message text.
    pub closed spec fn spec_content(&self) -> Seq<char> {
        self.content@
    }

    /// The row width, at least 1.
    pub closed spec fn spec_width(&self) -> nat {
        self.width as nat
    }

    /// Creates a request message view over user-authored content.
    pub fn new(content: &'a str, width: usize) -> (r: Self)
        ensures
            r.spec_content() == content@,
            r.spec_width() == if width == 0 {
                1
            } else {
                width as nat
            },
    {
        Self { content, width: if width > 1 { width } else { 1 } }
    }

    /// Returns plain-text rows used for wrapped line counting.
    ///
    /// There are two rows more than the content wraps into.
    pub fn plain_rows(self) -> (r: Vec<String>)
        ensures
            string_views(r@) == request_rows(self.spec_content(), self.spec_width()),
            r@.len() == spec_wrapped_line_count(
                self.spec_content(),
                request_content_width(self.spec_width()),
            ) + 2,
    {
        let width = self.width;
        let inner_width = width.saturating_sub(2);
        let lines = self.wrapped_content_lines();
        let ghost w = width as nat;
        let ghost mapped = string_views(lines@).map_values(|line: Seq<char>| request_row(line, w));
        let mut rows: Vec<String> = Vec::new();
        rows.push(spaces_string(width));
        let mut i: usize = 0;
        while i < lines.len()
            invariant
                i <= lines@.len(),
                inner_width == if width > 2 { width - 2 } else { 0 },
                mapped == string_views(lines@).map_values(|line: Seq<char>| request_row(line, w)),
                w == width as nat,
                string_views(rows@) == seq![spaces(w)] + mapped.take(i as int),
            decreases lines@.len() - i,
        {
            let mut row = String::new();
            row.push(' ');
            push_padded(&mut row, lines[i].as_str(), inner_width);
            row.push(' ');
            proof {
                assert(row@ =~= request_row(lines@[i as int]@, w));
            }
            let ghost prev = rows@;
            rows.push(row);
            assert(string_views(lines@)[i as int] == lines@[i as int]@);
            assert(mapped[i as int] == request_row(lines@[i as int]@, w));
            assert(string_views(rows@) =~= string_views(prev).push(row@));
            assert(string_views(rows@) =~= seq![spaces(w)] + mapped.take(i + 1));
            i = i + 1;
        }
        rows.push(spaces_string(width));
        proof {
            assert(mapped.take(i as int) =~= mapped);
            assert(string_views(rows@) =~= request_rows(self.spec_content(), self.spec_width()));
            lemma_wrapped_count_matches_rows(self.content@, request_content_width(w));
        }
        rows
    }

    /// The wrapped text lines of the message.
    pub fn wrapped_content_lines(&self) -> (r: Vec<String>)
        ensures
            string_views(r@) == request_content_lines(self.spec_content(), self.spec_width()),
    {
        let content_width = self.width.saturating_sub(INNER_HORIZONTAL_PADDING * 2);
        let content_width = if content_width > 1 {
            content_width
        } else {
            1
        };
        let rows = wrap_text(self.content, content_width);
        proof {
            lemma_wrapped_nonempty(self.content@, content_width as nat);
        }
        if rows.len() == 0 {
            let mut fallback: Vec<String> = Vec::new();
            fallback.push(String::new());
            fallback
        } else {
            rows
        }
    }
}

} // verus!
