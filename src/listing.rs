use vstd::prelude::*;
use crate::text::{contains_text, occurs_in};

verus! {

/// The mark of a serial port in a listing of devices.
pub const PORT_MARK: &'static str = "COM";

/// Unicode's White_Space characters, as `char::is_whitespace` has them.
pub open spec fn is_white_space(c: char) -> bool {
    ||| c == ' ' || c == '\t' || c == '\n' || c == '\x0B' || c == '\x0C' || c == '\r'
    ||| c == '\u{85}' || c == '\u{A0}' || c == '\u{1680}'
    ||| ('\u{2000}' <= c && c <= '\u{200A}')
    ||| c == '\u{2028}' || c == '\u{2029}' || c == '\u{202F}' || c == '\u{205F}' || c == '\u{3000}'
}

pub fn white_space(c: char) -> (r: bool)
    ensures
        r == is_white_space(c),
{
    c == ' ' || c == '\t' || c == '\n' || c == '\x0B' || c == '\x0C' || c == '\r' || c == '\u{85}'
        || c == '\u{A0}' || c == '\u{1680}' || ('\u{2000}' <= c && c <= '\u{200A}') || c
        == '\u{2028}' || c == '\u{2029}' || c == '\u{202F}' || c == '\u{205F}' || c == '\u{3000}'
}

/// A text without its leading white space.
pub open spec fn trim_start(s: Seq<char>) -> Seq<char>
    decreases s.len(),
{
    if s.len() > 0 && is_white_space(s[0]) {
        trim_start(s.drop_first())
    } else {
        s
    }
}

/// A text without its trailing white space.
pub open spec fn trim_end(s: Seq<char>) -> Seq<char>
    decreases s.len(),
{
    if s.len() > 0 && is_white_space(s.last()) {
        trim_end(s.drop_last())
    } else {
        s
    }
}

/// A text without white space at either end, as `str::trim` gives it.
pub open spec fn trim(s: Seq<char>) -> Seq<char> {
    trim_end(trim_start(s))
}

/// The index of the first line feed from `k` on, or the text's length.
pub open spec fn next_newline(t: Seq<char>, k: int) -> int
    decreases t.len() - k,
{
    if k < 0 || k >= t.len() {
        t.len() as int
    } else if t[k] == '\n' {
        k
    } else {
        next_newline(t, k + 1)
    }
}

/// The line from `start` to the line feed at `end` (or to the end of the
/// text), without its line ending: a carriage return just before a line
/// feed is part of the ending.
pub open spec fn line_at(t: Seq<char>, start: int, end: int) -> Seq<char> {
    if end < t.len() && end > start && t[end - 1] == '\r' {
        t.subrange(start, end - 1)
    } else {
        t.subrange(start, end)
    }
}

/// The lines of a text from `start` on, as `str::lines` gives them: a final
/// line ending adds no empty line.
pub open spec fn lines_from(t: Seq<char>, start: int) -> Seq<Seq<char>>
    decreases t.len() - start,
{
    if start < 0 || start >= t.len() || next_newline(t, start) < start {
        Seq::empty()
    } else if next_newline(t, start) >= t.len() {
        seq![line_at(t, start, next_newline(t, start))]
    } else {
        seq![line_at(t, start, next_newline(t, start))] + lines_from(t, next_newline(t, start) + 1)
    }
}

/// The lines that mention a serial port, trimmed, in order.
pub open spec fn port_lines_of(lines: Seq<Seq<char>>) -> Seq<Seq<char>>
    decreases lines.len(),
{
    if lines.len() == 0 {
        Seq::empty()
    } else if occurs_in(PORT_MARK@, lines[0]) {
        seq![trim(lines[0])] + port_lines_of(lines.drop_first())
    } else {
        port_lines_of(lines.drop_first())
    }
}

proof fn lemma_next_newline(t: Seq<char>, k: int)
    requires
        0 <= k <= t.len(),
    ensures
        k <= next_newline(t, k) <= t.len(),
        next_newline(t, k) < t.len() ==> t[next_newline(t, k)] == '\n',
    decreases t.len() - k,
{
    if k < t.len() && t[k] != '\n' {
        lemma_next_newline(t, k + 1);
    }
}

/// The bounds, within `t`, of `t[a..b]` trimmed.
fn trimmed_bounds(t: &str, a: usize, b: usize) -> (r: (usize, usize))
    requires
        a <= b <= t@.len(),
    ensures
        a <= r.0 <= r.1 <= b,
        t@.subrange(r.0 as int, r.1 as int) == trim(t@.subrange(a as int, b as int)),
{
    let mut i = a;
    while i < b && white_space(t.get_char(i))
        invariant
            a <= i <= b <= t@.len(),
            trim_start(t@.subrange(a as int, b as int)) == trim_start(t@.subrange(i as int, b as int)),
        decreases b - i,
    {
        assert(t@.subrange(i as int, b as int).drop_first() =~= t@.subrange(i + 1, b as int));
        i += 1;
    }
    let mut j = b;
    while j > i && white_space(t.get_char(j - 1))
        invariant
            a <= i <= j <= b <= t@.len(),
            trim(t@.subrange(a as int, b as int)) == trim_end(t@.subrange(i as int, j as int)),
        decreases j - i,
    {
        assert(t@.subrange(i as int, j as int).drop_last() =~= t@.subrange(i as int, j - 1));
        j -= 1;
    }
    (i, j)
}

/// The lines of a device listing that mention a serial port ("COM"),
/// trimmed, in order.
pub fn port_lines(listing: &str) -> (r: Vec<String>)
    ensures
        r@.map_values(|s: String| s@) == port_lines_of(lines_from(listing@, 0)),
{
    let ghost t = listing@;
    let n = listing.unicode_len();
    let mut out: Vec<String> = Vec::new();
    let mut start: usize = 0;
    while start < n
        invariant
            n == t.len(),
            t == listing@,
            start <= n,
            out@.map_values(|s: String| s@) + port_lines_of(lines_from(t, start as int))
                == port_lines_of(lines_from(t, 0)),
        decreases n - start,
    {
        let mut end = start;
        while end < n && listing.get_char(end) != '\n'
            invariant
                n == t.len(),
                t == listing@,
                start <= end <= n,
                next_newline(t, start as int) == next_newline(t, end as int),
            decreases n - end,
        {
            end += 1;
        }
        proof {
            lemma_next_newline(t, start as int);
        }
        let line_end = if end < n && end > start && listing.get_char(end - 1) == '\r' {
            end - 1
        } else {
            end
        };
        let ghost line = line_at(t, start as int, end as int);
        assert(t.subrange(start as int, line_end as int) == line);
        let ghost rest = if end < n { lines_from(t, end + 1) } else { Seq::<Seq<char>>::empty() };
        assert(lines_from(t, start as int) =~= seq![line] + rest);
        assert((seq![line] + rest).drop_first() =~= rest);
        let piece = listing.substring_char(start, line_end);
        if contains_text(piece, PORT_MARK) {
            let (a, b) = trimmed_bounds(listing, start, line_end);
            assert(t.subrange(a as int, b as int) == trim(t.subrange(start as int, line_end as int)));
            let s = String::from_str(listing.substring_char(a, b));
            let ghost before = out@.map_values(|s: String| s@);
            out.push(s);
            assert(out@.map_values(|s: String| s@) =~= before.push(trim(line)));
        }
        if end < n {
            start = end + 1;
        } else {
            start = n;
        }
    }
    assert(lines_from(t, start as int) =~= Seq::<Seq<char>>::empty());
    assert(out@.map_values(|s: String| s@) =~= port_lines_of(lines_from(t, 0)));
    out
}

} // verus!
