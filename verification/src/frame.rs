//! Line framing of the texts that are anchored and stored: two lines, the
//! first terminated by a line feed.
use vstd::prelude::*;
use crate::bytes::copy_range;

verus! {

/// Line feed.
pub const LF: u8 = 10;

/// Carriage return.
pub const CR: u8 = 13;

/// The index of the first line feed at or after `from`, or the length of
/// `s` where there is none.
pub open spec fn line_end(s: Seq<u8>, from: int) -> int
    decreases s.len() - from,
{
    if from < 0 || from >= s.len() {
        s.len() as int
    } else if s[from] == LF {
        from
    } else {
        line_end(s, from + 1)
    }
}

/// A terminated line without the carriage return that may end it.
pub open spec fn strip_cr(line: Seq<u8>) -> Seq<u8> {
    if line.len() > 0 && line.last() == CR {
        line.drop_last()
    } else {
        line
    }
}

/// The line of `s` that starts at `from`: up to the next line feed, which
/// is left out together with a carriage return just before it; or up to the
/// end of `s`, where nothing is left out.
pub open spec fn line_at(s: Seq<u8>, from: int) -> Seq<u8> {
    let end = line_end(s, from);
    if end < s.len() {
        strip_cr(s.subrange(from, end))
    } else {
        s.subrange(from, end)
    }
}

/// The first two lines of `s`, where it has two: a first line that a line
/// feed ends, and at least one byte after it.
pub open spec fn two_lines(s: Seq<u8>) -> Option<(Seq<u8>, Seq<u8>)> {
    let end = line_end(s, 0);
    if end + 1 < s.len() {
        Some((line_at(s, 0), line_at(s, end + 1)))
    } else {
        None
    }
}

/// `s` without the NUL bytes and spaces at its end.
pub open spec fn trim_end(s: Seq<u8>) -> Seq<u8>
    decreases s.len(),
{
    if s.len() > 0 && (s.last() == 0 || s.last() == 32) {
        trim_end(s.drop_last())
    } else {
        s
    }
}

/// A text without a line feed.
pub open spec fn no_line_feed(s: Seq<u8>) -> bool {
    forall|i: int| 0 <= i < s.len() ==> s[i] != LF
}

/// A text that survives being framed as a first line: it holds no line feed
/// and does not end in a carriage return.
pub open spec fn single_line(s: Seq<u8>) -> bool {
    no_line_feed(s) && (s.len() > 0 ==> s.last() != CR)
}

/// `first`, a line feed, then `second`.
pub open spec fn joined(first: Seq<u8>, second: Seq<u8>) -> Seq<u8> {
    first.push(LF) + second
}

/// The view of an optional pair of lines.
pub open spec fn lines_view(o: Option<(Vec<u8>, Vec<u8>)>) -> Option<(Seq<u8>, Seq<u8>)> {
    match o {
        Some((a, b)) => Some((a@, b@)),
        None => None,
    }
}

/// Finds the end of the line that starts at `from`.
fn find_line_end(s: &[u8], from: usize) -> (end: usize)
    requires
        from <= s.len(),
    ensures
        end == line_end(s@, from as int),
        from <= end <= s.len(),
{
    let mut i: usize = from;
    while i < s.len() && s[i] != LF
        invariant
            from <= i <= s.len(),
            line_end(s@, from as int) == line_end(s@, i as int),
        decreases s.len() - i,
    {
        i = i + 1;
    }
    i
}

/// Copies the line that starts at `from` and ends at `end`.
fn copy_line(s: &[u8], from: usize, end: usize) -> (line: Vec<u8>)
    requires
        from <= s.len(),
        end == line_end(s@, from as int),
        from <= end <= s.len(),
    ensures
        line@ == line_at(s@, from as int),
{
    if end < s.len() && end > from && s[end - 1] == CR {
        let line = copy_range(s, from, end - 1);
        assert(s@.subrange(from as int, end as int).drop_last() =~= s@.subrange(
            from as int,
            end - 1,
        ));
        line
    } else {
        copy_range(s, from, end)
    }
}

/// Splits a text into its first two lines, as `str::lines` would give them.
/// `None` where there is no second line.
pub fn split_two_lines(s: &[u8]) -> (r: Option<(Vec<u8>, Vec<u8>)>)
    ensures
        lines_view(r) == two_lines(s@),
{
    let end = find_line_end(s, 0);
    if end >= s.len() || end + 1 >= s.len() {
        return None;
    }
    let first = copy_line(s, 0, end);
    let next = find_line_end(s, end + 1);
    let second = copy_line(s, end + 1, next);
    Some((first, second))
}

/// Copies `s` without the NUL bytes and spaces at its end.
pub fn trim_trailing(s: &[u8]) -> (r: Vec<u8>)
    ensures
        r@ == trim_end(s@),
{
    let mut n: usize = s.len();
    assert(s@.subrange(0, n as int) =~= s@);
    while n > 0 && (s[n - 1] == 0 || s[n - 1] == 32)
        invariant
            n <= s.len(),
            trim_end(s@) == trim_end(s@.subrange(0, n as int)),
        decreases n,
    {
        assert(s@.subrange(0, n as int).drop_last() =~= s@.subrange(0, n - 1));
        n = n - 1;
    }
    copy_range(s, 0, n)
}

/// Whether `s` holds no line feed.
pub fn has_no_line_feed(s: &[u8]) -> (r: bool)
    ensures
        r == no_line_feed(s@),
{
    let mut i: usize = 0;
    while i < s.len()
        invariant
            i <= s.len(),
            forall|k: int| 0 <= k < i ==> s@[k] != LF,
        decreases s.len() - i,
    {
        if s[i] == LF {
            return false;
        }
        i = i + 1;
    }
    true
}

/// Whether `s` survives being framed as a first line: it holds no line feed
/// and does not end in a carriage return. Only such a payload, and only
/// such a serialized credential, comes back unchanged from its frame.
pub fn is_single_line(s: &[u8]) -> (r: bool)
    ensures
        r == single_line(s@),
{
    if !has_no_line_feed(s) {
        return false;
    }
    s.len() == 0 || s[s.len() - 1] != CR
}

/// Whether `s` can stand as a second line: it holds no line feed and is not
/// empty.
pub fn is_second_line(s: &[u8]) -> (r: bool)
    ensures
        r == (no_line_feed(s@) && s@.len() > 0),
{
    s.len() > 0 && has_no_line_feed(s)
}

/// Frames two texts as two lines.
pub fn join_lines(first: &[u8], second: &[u8]) -> (r: Vec<u8>)
    ensures
        r@ == joined(first@, second@),
{
    let mut r: Vec<u8> = Vec::new();
    r.extend_from_slice(first);
    r.push(LF);
    r.extend_from_slice(second);
    r
}

/// In a single-line text the search for a line feed runs to the end.
proof fn lemma_no_line_feed(s: Seq<u8>, from: int)
    requires
        0 <= from <= s.len(),
        forall|i: int| from <= i < s.len() ==> s[i] != LF,
    ensures
        line_end(s, from) == s.len(),
    decreases s.len() - from,
{
    if from < s.len() {
        lemma_no_line_feed(s, from + 1);
    }
}

/// In a text whose first line feed at or after `from` stands at `at`, the
/// search ends there.
proof fn lemma_first_line_feed(s: Seq<u8>, from: int, at: int)
    requires
        0 <= from <= at < s.len(),
        s[at] == LF,
        forall|i: int| from <= i < at ==> s[i] != LF,
    ensures
        line_end(s, from) == at,
    decreases at - from,
{
    if from < at {
        lemma_first_line_feed(s, from + 1, at);
    }
}

/// Framing round trip: a single-line text and a text without a line feed
/// that is not empty come back unchanged from the frame that joins them.
pub proof fn lemma_split_joined(first: Seq<u8>, second: Seq<u8>)
    requires
        single_line(first),
        no_line_feed(second),
        second.len() > 0,
    ensures
        two_lines(joined(first, second)) == Some((first, second)),
{
    let s = joined(first, second);
    let n = first.len() as int;
    assert(s.len() == n + 1 + second.len());
    assert(s[n] == LF);
    assert forall|i: int| 0 <= i < n implies s[i] != LF by {
        assert(s[i] == first[i]);
    }
    lemma_first_line_feed(s, 0, n);
    assert(s.subrange(0, n) =~= first);
    assert forall|i: int| n + 1 <= i < s.len() implies s[i] != LF by {
        assert(s[i] == second[i - n - 1]);
    }
    lemma_no_line_feed(s, n + 1);
    assert(s.subrange(n + 1, s.len() as int) =~= second);
}

} // verus!
