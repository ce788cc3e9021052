//! Line structure of character sequences: the fresh-line rule and the
//! splitting of a text chunk into lines.
use vstd::prelude::*;

verus! {

/// True when `buf` is empty or already ends with a line feed.
pub open spec fn at_line_start(buf: Seq<char>) -> bool {
    buf.len() == 0 || buf.last() == '\n'
}

/// `buf`, with one line feed appended unless it is at a line start.
pub open spec fn with_fresh_line(buf: Seq<char>) -> Seq<char> {
    if at_line_start(buf) {
        buf
    } else {
        buf.push('\n')
    }
}

/// Index of the first line feed of `s`, or `s.len()` when it has none.
pub open spec fn first_line_feed(s: Seq<char>) -> int
    decreases s.len(),
{
    if s.len() == 0 || s[0] == '\n' {
        0
    } else {
        1 + first_line_feed(s.skip(1))
    }
}

/// A line as it stood before a line feed, without the carriage return
/// that may end it.
pub open spec fn without_carriage_return(line: Seq<char>) -> Seq<char> {
    if line.len() > 0 && line.last() == '\r' {
        line.drop_last()
    } else {
        line
    }
}

/// The lines of `s`. A line ends at a line feed, or at a carriage return
/// directly followed by one; the terminator is not part of the line. What
/// follows the last line feed is a line of its own unless it is empty.
pub open spec fn split_lines(s: Seq<char>) -> Seq<Seq<char>>
    decreases s.len(),
{
    let n = first_line_feed(s);
    if s.len() == 0 {
        Seq::empty()
    } else if n >= s.len() {
        seq![s]
    } else {
        proof {
            lemma_first_line_feed(s);
        }
        seq![without_carriage_return(s.take(n))] + split_lines(s.skip(n + 1))
    }
}

/// The views of the string slices of `lines`, in order.
pub open spec fn line_views(lines: Seq<&str>) -> Seq<Seq<char>> {
    lines.map_values(|l: &str| l@)
}

/// Calls `str::ends_with` with a `char` pattern: the result is true
/// exactly when the slice is not empty and its last character is `c`.
#[verifier::external_body]
pub(crate) fn ends_with_char(s: &str, c: char) -> (r: bool)
    ensures
        r == (s@.len() > 0 && s@.last() == c),
{
    s.ends_with(c)
}

/// Calls `str::lines` and collects what it yields: the lines of `text` as
/// `split_lines` states them, each a slice of `text`.
#[verifier::external_body]
pub(crate) fn text_lines(text: &str) -> (lines: Vec<&str>)
    ensures
        line_views(lines@) == split_lines(text@),
{
    text.lines().collect()
}

/// `first_line_feed` lies within `s`, points at a line feed where `s` has
/// one, and passes none on its way.
pub proof fn lemma_first_line_feed(s: Seq<char>)
    ensures
        0 <= first_line_feed(s) <= s.len(),
        first_line_feed(s) < s.len() ==> s[first_line_feed(s)] == '\n',
        forall|i: int| 0 <= i < first_line_feed(s) ==> s[i] != '\n',
    decreases s.len(),
{
    if s.len() == 0 || s[0] == '\n' {
    } else {
        lemma_first_line_feed(s.skip(1));
        assert forall|i: int| 0 <= i < first_line_feed(s) implies s[i] != '\n' by {
            if i > 0 {
                assert(s.skip(1)[i - 1] == s[i]);
            }
        }
    }
}

/// After a fresh line the buffer is at a line start, so a second fresh
/// line in a row changes nothing: line feeds do not pile up.
pub proof fn lemma_fresh_line_idempotent(buf: Seq<char>)
    ensures
        at_line_start(with_fresh_line(buf)),
        with_fresh_line(with_fresh_line(buf)) == with_fresh_line(buf),
{
}

/// A fresh line on an empty buffer writes nothing: no output starts with
/// a line feed that a fresh line put there.
pub proof fn lemma_fresh_line_on_empty()
    ensures
        with_fresh_line(Seq::<char>::empty()) == Seq::<char>::empty(),
{
}

/// A fresh line keeps what the buffer holds and adds at most one line
/// feed to it.
pub proof fn lemma_fresh_line_extends(buf: Seq<char>)
    ensures
        buf.is_prefix_of(with_fresh_line(buf)),
        with_fresh_line(buf).len() <= buf.len() + 1,
        with_fresh_line(buf) == buf || with_fresh_line(buf) == buf.push('\n'),
{
}

/// No line of `split_lines` holds a line feed: each stands for one line
/// of the text.
pub proof fn lemma_lines_hold_no_line_feed(s: Seq<char>)
    ensures
        forall|i: int, j: int|
            0 <= i < split_lines(s).len() && 0 <= j < split_lines(s)[i].len() ==> split_lines(
                s,
            )[i][j] != '\n',
    decreases s.len(),
{
    let n = first_line_feed(s);
    lemma_first_line_feed(s);
    if s.len() == 0 {
    } else if n >= s.len() {
    } else {
        let rest = split_lines(s.skip(n + 1));
        lemma_lines_hold_no_line_feed(s.skip(n + 1));
        let head = without_carriage_return(s.take(n));
        assert forall|i: int, j: int|
            0 <= i < split_lines(s).len() && 0 <= j < split_lines(s)[i].len() implies split_lines(
            s,
        )[i][j] != '\n' by {
            if i == 0 {
                assert(split_lines(s)[0] == head);
                assert(head[j] == s[j]);
            } else {
                assert(split_lines(s)[i] == rest[i - 1]);
            }
        }
    }
}

} // verus!
