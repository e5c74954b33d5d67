//! Text wrapping shared by the chat components.
//!
//! Text is cut at `\n` into source lines, and each source line is cut into
//! rows of at most `width` characters; an empty source line is one empty row.
use vstd::prelude::*;

use crate::text::{chars_of, string_from_chars};

verus! {

/// `s` cut at every `\n` (the separators dropped), as `str::split('\n')`
/// cuts it: there is always at least one piece.
pub open spec fn split_lines(s: Seq<char>) -> Seq<Seq<char>>
    decreases s.len(),
{
    if s.len() == 0 {
        seq![Seq::<char>::empty()]
    } else {
        let prev = split_lines(s.drop_last());
        if s.last() == '\n' {
            prev.push(Seq::<char>::empty())
        } else {
            prev.update(prev.len() - 1, prev.last().push(s.last()))
        }
    }
}

/// `line` cut into consecutive chunks of `width` characters, the last one
/// possibly shorter; no chunks for an empty line.
pub open spec fn chunks(line: Seq<char>, width: nat) -> Seq<Seq<char>>
    decreases line.len(),
{
    if width == 0 || line.len() == 0 {
        Seq::empty()
    } else if line.len() <= width {
        seq![line]
    } else {
        seq![line.take(width as int)] + chunks(line.skip(width as int), width)
    }
}

/// The rows of one source line: its chunks, or one empty row for an empty
/// line.
pub open spec fn line_rows(line: Seq<char>, width: nat) -> Seq<Seq<char>> {
    if line.len() == 0 {
        seq![Seq::<char>::empty()]
    } else {
        chunks(line, width)
    }
}

/// The rows of consecutive source lines.
pub open spec fn wrap_lines(lines: Seq<Seq<char>>, width: nat) -> Seq<Seq<char>>
    decreases lines.len(),
{
    if lines.len() == 0 {
        Seq::empty()
    } else {
        wrap_lines(lines.drop_last(), width) + line_rows(lines.last(), width)
    }
}

/// The rows of `text` wrapped at `width` characters.
pub open spec fn wrapped(text: Seq<char>, width: nat) -> Seq<Seq<char>> {
    wrap_lines(split_lines(text), width)
}

/// The number of rows one source line of `len` characters takes at `width`:
/// `(max(len, 1) - 1) / width + 1`.
pub open spec fn line_row_count(len: nat, width: nat) -> nat {
    let cells: int = if len == 0 {
        1
    } else {
        len as int
    };
    ((cells - 1) / (width as int) + 1) as nat
}

/// The number of rows of consecutive source lines.
pub open spec fn total_row_count(lines: Seq<Seq<char>>, width: nat) -> nat
    decreases lines.len(),
{
    if lines.len() == 0 {
        0
    } else {
        total_row_count(lines.drop_last(), width) + line_row_count(lines.last().len(), width)
    }
}

/// The number of visual rows of `text` at `width`: 0 for width 0.
pub open spec fn spec_wrapped_line_count(text: Seq<char>, width: nat) -> nat {
    if width == 0 {
        0
    } else {
        total_row_count(split_lines(text), width)
    }
}

/// String views of a sequence of strings.
pub open spec fn string_views(v: Seq<String>) -> Seq<Seq<char>> {
    v.map_values(|s: String| s@)
}

/// There is always at least one source line.
pub proof fn lemma_split_lines_nonempty(s: Seq<char>)
    ensures
        split_lines(s).len() >= 1,
    decreases s.len(),
{
    if s.len() > 0 {
        lemma_split_lines_nonempty(s.drop_last());
    }
}

/// Splitting one more character: a new empty line after `\n`, otherwise the
/// character joins the last line.
pub proof fn lemma_split_lines_push(s: Seq<char>, c: char)
    ensures
        split_lines(s.push(c)) == (if c == '\n' {
            split_lines(s).push(Seq::<char>::empty())
        } else {
            split_lines(s).update(
                split_lines(s).len() - 1,
                split_lines(s).last().push(c),
            )
        }),
{
    assert(s.push(c).drop_last() =~= s);
}

/// A chunk count is the row count of a non-empty line.
pub proof fn lemma_chunks_len(line: Seq<char>, width: nat)
    requires
        width > 0,
        line.len() > 0,
    ensures
        chunks(line, width).len() == line_row_count(line.len(), width),
    decreases line.len(),
{
    let n = line.len() as int;
    let w = width as int;
    if line.len() <= width {
        assert(0 <= n - 1 < w);
        assert((n - 1) / w == 0) by (nonlinear_arith)
            requires
                0 <= n - 1 < w,
        ;
    } else {
        lemma_chunks_len(line.skip(w), width);
        assert((n - 1) / w == (n - w - 1) / w + 1) by (nonlinear_arith)
            requires
                n - 1 >= w,
                w > 0,
        {
            vstd::arithmetic::div_mod::lemma_div_plus_one(n - w - 1, w);
        }
    }
}

/// The row count of a line is the length of its rows.
pub proof fn lemma_line_rows_len(line: Seq<char>, width: nat)
    requires
        width > 0,
    ensures
        line_rows(line, width).len() == line_row_count(line.len(), width),
{
    if line.len() > 0 {
        lemma_chunks_len(line, width);
    }
}

/// Wrapping appends row sequences line by line.
pub proof fn lemma_wrap_lines_push(lines: Seq<Seq<char>>, line: Seq<char>, width: nat)
    ensures
        wrap_lines(lines.push(line), width) == wrap_lines(lines, width) + line_rows(line, width),
        total_row_count(lines.push(line), width) == total_row_count(lines, width)
            + line_row_count(line.len(), width),
{
    assert(lines.push(line).drop_last() =~= lines);
}

/// The row count of a text is the number of rows it wraps into.
pub proof fn lemma_total_rows_len(lines: Seq<Seq<char>>, width: nat)
    requires
        width > 0,
    ensures
        wrap_lines(lines, width).len() == total_row_count(lines, width),
    decreases lines.len(),
{
    if lines.len() > 0 {
        lemma_total_rows_len(lines.drop_last(), width);
        lemma_line_rows_len(lines.last(), width);
    }
}

/// A text of at least one source line takes at least one row.
pub proof fn lemma_total_rows_positive(lines: Seq<Seq<char>>, width: nat)
    requires
        width > 0,
        lines.len() > 0,
    ensures
        total_row_count(lines, width) >= 1,
{
    let len = lines.last().len();
    let cells: int = if len == 0 {
        1
    } else {
        len as int
    };
    let w = width as int;
    assert((cells - 1) / w >= 0) by (nonlinear_arith)
        requires
            cells >= 1,
            w > 0,
    ;
}

/// Every text wraps into at least one row.
pub proof fn lemma_wrapped_nonempty(text: Seq<char>, width: nat)
    requires
        width > 0,
    ensures
        wrapped(text, width).len() >= 1,
        spec_wrapped_line_count(text, width) >= 1,
{
    lemma_split_lines_nonempty(text);
    lemma_total_rows_positive(split_lines(text), width);
    lemma_wrapped_count_matches_rows(text, width);
}

/// `n` space characters.
pub open spec fn spaces(n: nat) -> Seq<char> {
    Seq::new(n, |_i: int| ' ')
}

/// `s` followed by enough spaces to make it at least `n` characters long,
/// as `format!("{s:<n$}")` pads.
pub open spec fn pad_right(s: Seq<char>, n: nat) -> Seq<char> {
    if s.len() < n {
        s + spaces((n - s.len()) as nat)
    } else {
        s
    }
}

/// A string of `n` spaces (`" ".repeat(n)`).
pub fn spaces_string(n: usize) -> (r: String)
    ensures
        r@ == spaces(n as nat),
{
    let mut r = String::new();
    let mut i: usize = 0;
    while i < n
        invariant
            i <= n,
            r@ == spaces(i as nat),
        decreases n - i,
    {
        r.push(' ');
        assert(r@ =~= spaces((i + 1) as nat));
        i = i + 1;
    }
    r
}

/// Appends `s` padded with spaces to at least `n` characters.
pub fn push_padded(out: &mut String, s: &str, n: usize)
    ensures
        final(out)@ == old(out)@ + pad_right(s@, n as nat),
{
    let chars = chars_of(s);
    let ghost start = out@;
    let mut i: usize = 0;
    while i < chars.len()
        invariant
            i <= chars@.len(),
            chars@ == s@,
            out@ == start + chars@.take(i as int),
        decreases chars@.len() - i,
    {
        out.push(chars[i]);
        assert(start + chars@.take(i + 1) =~= (start + chars@.take(i as int)).push(chars@[i as int]));
        i = i + 1;
    }
    assert(chars@.take(i as int) =~= s@);
    let mut k: usize = chars.len();
    while k < n
        invariant
            chars@ == s@,
            chars@.len() <= k <= n || (k == chars@.len() && k >= n),
            out@ == start + s@ + spaces((k - s@.len()) as nat),
        decreases n - k,
    {
        let ghost m = (k - s@.len()) as nat;
        out.push(' ');
        assert(spaces(m + 1) =~= spaces(m).push(' '));
        assert(start + s@ + spaces(m + 1) =~= (start + s@ + spaces(m)).push(' '));
        k = k + 1;
        assert((k - s@.len()) as nat == m + 1);
    }
    assert(spaces(0) =~= Seq::<char>::empty());
    assert(out@ =~= start + pad_right(s@, n as nat));
}

/// Cutting at a `\n` between two texts gives the lines of the first
/// followed by the lines of the second.
pub proof fn lemma_split_lines_concat(a: Seq<char>, b: Seq<char>)
    ensures
        split_lines(a + seq!['\n'] + b) == split_lines(a) + split_lines(b),
    decreases b.len(),
{
    if b.len() == 0 {
        assert(a + seq!['\n'] + b =~= a.push('\n'));
        lemma_split_lines_push(a, '\n');
        assert(split_lines(a).push(Seq::<char>::empty()) =~= split_lines(a) + split_lines(b));
    } else {
        let b0 = b.drop_last();
        let c = b.last();
        lemma_split_lines_concat(a, b0);
        assert(a + seq!['\n'] + b =~= (a + seq!['\n'] + b0).push(c));
        assert(b =~= b0.push(c));
        lemma_split_lines_push(a + seq!['\n'] + b0, c);
        lemma_split_lines_push(b0, c);
        lemma_split_lines_nonempty(b0);
        if c == '\n' {
            assert(split_lines(a + seq!['\n'] + b) =~= split_lines(a) + split_lines(b));
        } else {
            let pa = split_lines(a);
            let pb = split_lines(b0);
            assert((pa + pb).update((pa + pb).len() - 1, (pa + pb).last().push(c)) =~= pa + pb.update(
                pb.len() - 1,
                pb.last().push(c),
            ));
        }
    }
}

/// The row count of consecutive groups of lines is the sum of theirs.
pub proof fn lemma_total_rows_concat(x: Seq<Seq<char>>, y: Seq<Seq<char>>, width: nat)
    ensures
        total_row_count(x + y, width) == total_row_count(x, width) + total_row_count(y, width),
    decreases y.len(),
{
    if y.len() == 0 {
        assert(x + y =~= x);
    } else {
        lemma_total_rows_concat(x, y.drop_last(), width);
        assert((x + y).drop_last() =~= x + y.drop_last());
    }
}

/// Texts joined by a `\n` take the rows of both: newline-separated lines
/// wrap independently.
pub proof fn lemma_wrapped_count_concat(a: Seq<char>, b: Seq<char>, width: nat)
    ensures
        spec_wrapped_line_count(a + seq!['\n'] + b, width) == spec_wrapped_line_count(a, width)
            + spec_wrapped_line_count(b, width),
{
    lemma_split_lines_concat(a, b);
    lemma_total_rows_concat(split_lines(a), split_lines(b), width);
}

/// Text without a `\n` is one source line.
pub proof fn lemma_split_single_line(s: Seq<char>)
    requires
        !s.contains('\n'),
    ensures
        split_lines(s) == seq![s],
    decreases s.len(),
{
    if s.len() > 0 {
        let s0 = s.drop_last();
        assert(!s0.contains('\n')) by {
            if s0.contains('\n') {
                let i = choose|i: int| 0 <= i < s0.len() && s0[i] == '\n';
                assert(s[i] == '\n');
            }
        }
        lemma_split_single_line(s0);
        assert(s.last() != '\n') by {
            assert(s[s.len() - 1] == s.last());
        }
        assert(s0.push(s.last()) =~= s);
        assert(split_lines(s) =~= seq![s]);
    } else {
        assert(s =~= Seq::<char>::empty());
    }
}

/// Text without a `\n` takes `(max(len, 1) - 1) / width + 1` rows: an
/// empty line still takes one row.
pub proof fn lemma_single_line_count(s: Seq<char>, width: nat)
    requires
        width > 0,
        !s.contains('\n'),
    ensures
        spec_wrapped_line_count(s, width) == line_row_count(s.len(), width),
{
    lemma_split_single_line(s);
    assert(seq![s].drop_last() =~= Seq::<Seq<char>>::empty());
    assert(total_row_count(Seq::<Seq<char>>::empty(), width) == 0);
    assert(seq![s].last() == s);
    assert(total_row_count(seq![s], width) == line_row_count(s.len(), width));
}

/// A source line takes no more rows at a wider width.
proof fn lemma_line_rows_antitone(len: nat, w1: nat, w2: nat)
    requires
        1 <= w1 <= w2,
    ensures
        line_row_count(len, w2) <= line_row_count(len, w1),
{
    let cells: int = if len == 0 {
        1
    } else {
        len as int
    };
    vstd::arithmetic::div_mod::lemma_div_is_ordered_by_denominator(cells - 1, w1 as int, w2 as int);
}

/// Text takes no more rows at a wider width.
pub proof fn lemma_total_rows_antitone(lines: Seq<Seq<char>>, w1: nat, w2: nat)
    requires
        1 <= w1 <= w2,
    ensures
        total_row_count(lines, w2) <= total_row_count(lines, w1),
    decreases lines.len(),
{
    if lines.len() > 0 {
        lemma_total_rows_antitone(lines.drop_last(), w1, w2);
        lemma_line_rows_antitone(lines.last().len(), w1, w2);
    }
}

/// Text takes no fewer rows after one more character is typed.
pub proof fn lemma_wrapped_count_grows(s: Seq<char>, c: char, width: nat)
    requires
        width > 0,
    ensures
        spec_wrapped_line_count(s.push(c), width) >= spec_wrapped_line_count(s, width),
{
    lemma_split_lines_push(s, c);
    lemma_split_lines_nonempty(s);
    let lines = split_lines(s);
    if c != '\n' {
        let longer = lines.update(lines.len() - 1, lines.last().push(c));
        assert(longer.drop_last() =~= lines.drop_last());
        let l = lines.last().len();
        let cells: int = if l == 0 {
            1
        } else {
            l as int
        };
        vstd::arithmetic::div_mod::lemma_div_is_ordered(cells - 1, l as int, width as int);
    } else {
        assert(lines.push(Seq::<char>::empty()).drop_last() =~= lines);
    }
}

/// Counts visual rows after wrapping text to a fixed character width.
///
/// Behavior notes:
/// - width `0` returns `0` rows.
/// - empty lines still consume one visual row.
/// - newline-separated lines are wrapped independently.
///
/// The count saturates at `usize::MAX`.
pub fn wrapped_line_count(text: &str, width: usize) -> (r: usize)
    ensures
        r as int == if spec_wrapped_line_count(text@, width as nat) > usize::MAX {
            usize::MAX as int
        } else {
            spec_wrapped_line_count(text@, width as nat) as int
        },
{
    if width == 0 {
        return 0;
    }
    let chars = chars_of(text);
    let ghost s = chars@;
    let mut total: usize = 0;
    let mut line_len: usize = 0;
    let mut i: usize = 0;
    proof {
        assert(s.take(0) =~= Seq::<char>::empty());
    }
    while i < chars.len()
        invariant
            s == chars@,
            s == text@,
            width > 0,
            i <= s.len(),
            split_lines(s.take(i as int)).len() >= 1,
            line_len == split_lines(s.take(i as int)).last().len(),
            line_len <= i,
            total as int == if total_row_count(split_lines(s.take(i as int)).drop_last(), width as nat)
                > usize::MAX {
                usize::MAX as int
            } else {
                total_row_count(split_lines(s.take(i as int)).drop_last(), width as nat) as int
            },
        decreases s.len() - i,
    {
        let ghost before = split_lines(s.take(i as int));
        proof {
            assert(s.take(i + 1) =~= s.take(i as int).push(s[i as int]));
            lemma_split_lines_push(s.take(i as int), s[i as int]);
        }
        if chars[i] == '\n' {
            let cells: usize = if line_len == 0 {
                1
            } else {
                line_len
            };
            let rows: usize = (cells - 1) / width + 1;
            proof {
                let after = split_lines(s.take(i + 1));
                assert(after.drop_last() =~= before);
                assert(before =~= before.drop_last().push(before.last()));
                lemma_wrap_lines_push(before.drop_last(), before.last(), width as nat);
            }
            total = total.saturating_add(rows);
            line_len = 0;
        } else {
            proof {
                let after = split_lines(s.take(i + 1));
                assert(after.drop_last() =~= before.drop_last());
            }
            line_len = line_len + 1;
        }
        i = i + 1;
    }
    let cells: usize = if line_len == 0 {
        1
    } else {
        line_len
    };
    let rows: usize = (cells - 1) / width + 1;
    proof {
        let all = split_lines(s.take(i as int));
        assert(s.take(i as int) =~= s);
        assert(all =~= all.drop_last().push(all.last()));
        lemma_wrap_lines_push(all.drop_last(), all.last(), width as nat);
    }
    total.saturating_add(rows)
}

/// Appends the chunks of `line` at `width` to `rows`.
fn push_chunks(rows: &mut Vec<String>, line: &Vec<char>, width: usize)
    requires
        width > 0,
    ensures
        string_views(final(rows)@) == string_views(old(rows)@) + chunks(line@, width as nat),
{
    let ghost start = string_views(rows@);
    let mut chunk: Vec<char> = Vec::new();
    let mut chunk_width: usize = 0;
    let mut i: usize = 0;
    proof {
        assert(line@.skip(0) =~= line@);
        assert(chunk@ + line@.skip(0) =~= line@);
    }
    while i < line.len()
        invariant
            width > 0,
            i <= line@.len(),
            chunk_width == chunk@.len() < width,
            start + chunks(line@, width as nat) == string_views(rows@) + chunks(
                chunk@ + line@.skip(i as int),
                width as nat,
            ),
        decreases line@.len() - i,
    {
        let ghost rest = line@.skip(i + 1);
        proof {
            assert(chunk@ + line@.skip(i as int) =~= chunk@.push(line@[i as int]) + rest);
        }
        chunk.push(line[i]);
        chunk_width = chunk_width + 1;
        if chunk_width >= width {
            let ghost full = chunk@;
            proof {
                let joined = full + rest;
                assert(joined.take(width as int) =~= full);
                assert(joined.skip(width as int) =~= rest);
                if rest.len() == 0 {
                    assert(joined =~= full);
                    assert(chunks(rest, width as nat) =~= Seq::<Seq<char>>::empty());
                }
            }
            rows.push(string_from_chars(&chunk));
            chunk = Vec::new();
            chunk_width = 0;
            proof {
                assert(chunk@ + rest =~= rest);
                assert(string_views(rows@) =~= string_views(rows@.drop_last()).push(full));
            }
        } else {
            proof {
                assert(chunk@ + rest =~= chunk@ + line@.skip(i + 1));
            }
        }
        i = i + 1;
    }
    proof {
        assert(line@.skip(i as int) =~= Seq::<char>::empty());
        assert(chunk@ + line@.skip(i as int) =~= chunk@);
    }
    if chunk_width > 0 {
        rows.push(string_from_chars(&chunk));
        proof {
            assert(string_views(rows@) =~= string_views(rows@.drop_last()).push(chunk@));
        }
    } else {
        assert(chunk@ =~= Seq::<char>::empty());
    }
    assert(string_views(rows@) =~= start + chunks(line@, width as nat));
}

/// Appends the rows of one source line.
fn push_line_rows(rows: &mut Vec<String>, line: &Vec<char>, width: usize)
    requires
        width > 0,
    ensures
        string_views(final(rows)@) == string_views(old(rows)@) + line_rows(line@, width as nat),
{
    if line.len() == 0 {
        rows.push(String::new());
        assert(string_views(rows@) =~= string_views(old(rows)@) + line_rows(line@, width as nat));
    } else {
        push_chunks(rows, line, width);
    }
}

/// The rows of `text` wrapped at `width` characters.
pub fn wrap_text(text: &str, width: usize) -> (r: Vec<String>)
    requires
        width > 0,
    ensures
        string_views(r@) == wrapped(text@, width as nat),
{
    let chars = chars_of(text);
    let ghost s = chars@;
    let mut rows: Vec<String> = Vec::new();
    let mut line: Vec<char> = Vec::new();
    let mut i: usize = 0;
    proof {
        assert(s.take(0) =~= Seq::<char>::empty());
        assert(string_views(rows@) =~= Seq::<Seq<char>>::empty());
    }
    while i < chars.len()
        invariant
            s == chars@,
            s == text@,
            width > 0,
            i <= s.len(),
            split_lines(s.take(i as int)).len() >= 1,
            line@ == split_lines(s.take(i as int)).last(),
            string_views(rows@) == wrap_lines(split_lines(s.take(i as int)).drop_last(), width as nat),
        decreases s.len() - i,
    {
        let ghost before = split_lines(s.take(i as int));
        proof {
            assert(s.take(i + 1) =~= s.take(i as int).push(s[i as int]));
            lemma_split_lines_push(s.take(i as int), s[i as int]);
        }
        if chars[i] == '\n' {
            push_line_rows(&mut rows, &line, width);
            line = Vec::new();
            proof {
                let after = split_lines(s.take(i + 1));
                assert(after.drop_last() =~= before);
                assert(before =~= before.drop_last().push(before.last()));
                lemma_wrap_lines_push(before.drop_last(), before.last(), width as nat);
                assert(line@ =~= after.last());
            }
        } else {
            line.push(chars[i]);
            proof {
                let after = split_lines(s.take(i + 1));
                assert(after.drop_last() =~= before.drop_last());
            }
        }
        i = i + 1;
    }
    push_line_rows(&mut rows, &line, width);
    proof {
        let all = split_lines(s.take(i as int));
        assert(s.take(i as int) =~= s);
        assert(all =~= all.drop_last().push(all.last()));
        lemma_wrap_lines_push(all.drop_last(), all.last(), width as nat);
    }
    rows
}

/// The number of rows that [`wrap_text`] produces is the row count that
/// [`wrapped_line_count`] computes, at every positive width.
pub proof fn lemma_wrapped_count_matches_rows(text: Seq<char>, width: nat)
    requires
        width > 0,
    ensures
        wrapped(text, width).len() == spec_wrapped_line_count(text, width),
{
    lemma_total_rows_len(split_lines(text), width);
}

} // verus!

verus! {

/// Every chunk of a line is non-empty and at most `width` characters, and
/// the chunks put together give back the line.
pub proof fn lemma_chunks_cover_line(line: Seq<char>, width: nat)
    requires
        width > 0,
    ensures
        forall|i: int| 0 <= i < chunks(line, width).len() ==> 0 < #[trigger] chunks(line, width)[i].len() <= width,
        chunks(line, width).flatten() == line,
    decreases line.len(),
{
    if line.len() == 0 {
    } else if line.len() <= width {
        seq![line].lemma_flatten_one_element();
    } else {
        let rest = line.skip(width as int);
        lemma_chunks_cover_line(rest, width);
        let cs = chunks(line, width);
        assert(cs[0] == line.take(width as int));
        assert(cs.drop_first() =~= chunks(rest, width));
        assert forall|i: int| 0 <= i < cs.len() implies 0 < #[trigger] cs[i].len() <= width by {
            if i > 0 {
                assert(cs[i] == chunks(rest, width)[i - 1]);
            }
        }
        assert(line.take(width as int) + rest =~= line);
    }
}

/// Every wrapped row has at most `width` characters.
pub proof fn lemma_rows_fit_width(lines: Seq<Seq<char>>, width: nat)
    requires
        width > 0,
    ensures
        forall|i: int| 0 <= i < wrap_lines(lines, width).len() ==> #[trigger] wrap_lines(lines, width)[i].len() <= width,
    decreases lines.len(),
{
    if lines.len() > 0 {
        lemma_rows_fit_width(lines.drop_last(), width);
        lemma_chunks_cover_line(lines.last(), width);
        let prev = wrap_lines(lines.drop_last(), width);
        let last = line_rows(lines.last(), width);
        assert forall|i: int| 0 <= i < wrap_lines(lines, width).len() implies #[trigger] wrap_lines(lines, width)[i].len() <= width by {
            if i < prev.len() {
                assert(wrap_lines(lines, width)[i] == prev[i]);
            } else {
                assert(wrap_lines(lines, width)[i] == last[i - prev.len()]);
            }
        }
    }
}

/// Wrapped text fits its width: no row is wider than `width` characters.
pub proof fn lemma_wrapped_fits(text: Seq<char>, width: nat)
    requires
        width > 0,
    ensures
        forall|i: int| 0 <= i < wrapped(text, width).len() ==> #[trigger] wrapped(text, width)[i].len() <= width,
{
    lemma_rows_fit_width(split_lines(text), width);
}

} // verus!
