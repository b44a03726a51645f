//! The format rewriter for the designated timestamped log format: when the
//! first line carries a datetime stamp and the header line has not been
//! marked yet, the header gains a marker column and every data row gains the
//! datetime as a new leading tab-delimited field.

use vstd::prelude::*;

use crate::buffer::LineBuffer;

verus! {

/// An ASCII decimal digit.
pub open spec fn is_digit_char(c: char) -> bool {
    48 <= c as u32 && c as u32 <= 57
}

/// The fixed datetime shape starting at index `i` of `s`: two-digit day,
/// month and year separated by dots, a space, two-digit hour, minute and
/// second separated by colons, a dot, and a two-digit fraction
/// (20 characters, as in `21.06.24 14:03:55.12`).
pub open spec fn timestamp_at(s: Seq<char>, i: int) -> bool {
    &&& 0 <= i
    &&& i + 20 <= s.len()
    &&& is_digit_char(s[i])
    &&& is_digit_char(s[i + 1])
    &&& s[i + 2] == '.'
    &&& is_digit_char(s[i + 3])
    &&& is_digit_char(s[i + 4])
    &&& s[i + 5] == '.'
    &&& is_digit_char(s[i + 6])
    &&& is_digit_char(s[i + 7])
    &&& s[i + 8] == ' '
    &&& is_digit_char(s[i + 9])
    &&& is_digit_char(s[i + 10])
    &&& s[i + 11] == ':'
    &&& is_digit_char(s[i + 12])
    &&& is_digit_char(s[i + 13])
    &&& s[i + 14] == ':'
    &&& is_digit_char(s[i + 15])
    &&& is_digit_char(s[i + 16])
    &&& s[i + 17] == '.'
    &&& is_digit_char(s[i + 18])
    &&& is_digit_char(s[i + 19])
}

/// The line carries a datetime stamp somewhere.
pub open spec fn has_timestamp(s: Seq<char>) -> bool {
    exists|i: int| timestamp_at(s, i)
}

/// `pat` occurs in `s` starting at index `i`.
pub open spec fn contains_at(s: Seq<char>, pat: Seq<char>, i: int) -> bool {
    &&& 0 <= i
    &&& i + pat.len() <= s.len()
    &&& s.subrange(i, i + pat.len() as int) == pat
}

/// `pat` occurs somewhere in `s`.
pub open spec fn contains_seq(s: Seq<char>, pat: Seq<char>) -> bool {
    exists|i: int| contains_at(s, pat, i)
}

fn digit_at(s: &str, i: usize) -> (r: bool)
    requires
        i < s@.len(),
    ensures
        r == is_digit_char(s@[i as int]),
{
    let u = s.get_char(i) as u32;
    48 <= u && u <= 57
}

fn timestamp_at_exec(s: &str, i: usize, n: usize) -> (r: bool)
    requires
        n == s@.len(),
        i + 20 <= n,
    ensures
        r == timestamp_at(s@, i as int),
{
    digit_at(s, i) && digit_at(s, i + 1) && s.get_char(i + 2) == '.' && digit_at(s, i + 3)
        && digit_at(s, i + 4) && s.get_char(i + 5) == '.' && digit_at(s, i + 6) && digit_at(
        s,
        i + 7,
    ) && s.get_char(i + 8) == ' ' && digit_at(s, i + 9) && digit_at(s, i + 10) && s.get_char(
        i + 11,
    ) == ':' && digit_at(s, i + 12) && digit_at(s, i + 13) && s.get_char(i + 14) == ':' && digit_at(
        s,
        i + 15,
    ) && digit_at(s, i + 16) && s.get_char(i + 17) == '.' && digit_at(s, i + 18) && digit_at(
        s,
        i + 19,
    )
}

/// Scans the line for the fixed datetime shape.
pub fn find_timestamp(s: &str) -> (r: bool)
    ensures
        r == has_timestamp(s@),
{
    let n = s.unicode_len();
    if n < 20 {
        proof {
            assert(forall|i: int| !timestamp_at(s@, i));
        }
        return false;
    }
    let mut i: usize = 0;
    while i <= n - 20
        invariant
            20 <= n == s@.len(),
            0 <= i <= n - 20 + 1,
            forall|j: int| 0 <= j < i ==> !timestamp_at(s@, j),
        decreases n - i,
    {
        if timestamp_at_exec(s, i, n) {
            return true;
        }
        i = i + 1;
    }
    proof {
        assert(forall|j: int| j >= i ==> !timestamp_at(s@, j));
    }
    false
}

fn match_at(s: &str, pat: &str, i: usize, n: usize, m: usize) -> (r: bool)
    requires
        n == s@.len(),
        m == pat@.len(),
        i + m <= n,
    ensures
        r == contains_at(s@, pat@, i as int),
{
    let mut j: usize = 0;
    while j < m
        invariant
            0 <= j <= m,
            n == s@.len(),
            m == pat@.len(),
            i + m <= n,
            forall|k: int| 0 <= k < j ==> s@[i + k] == pat@[k],
        decreases m - j,
    {
        if s.get_char(i + j) != pat.get_char(j) {
            proof {
                assert(s@.subrange(i as int, i + m) != pat@) by {
                    assert(s@.subrange(i as int, i + m)[j as int] == s@[i + j]);
                }
            }
            return false;
        }
        j = j + 1;
    }
    proof {
        assert(s@.subrange(i as int, i + m) =~= pat@);
    }
    true
}

/// Substring search: whether `pat` occurs anywhere in `s`.
pub fn contains_str(s: &str, pat: &str) -> (r: bool)
    ensures
        r == contains_seq(s@, pat@),
{
    let n = s.unicode_len();
    let m = pat.unicode_len();
    if m > n {
        return false;
    }
    if m == 0 {
        proof {
            assert(contains_at(s@, pat@, 0)) by {
                assert(s@.subrange(0, 0) =~= pat@);
            }
        }
        return true;
    }
    let mut i: usize = 0;
    while i <= n - m
        invariant
            1 <= m <= n == s@.len(),
            m == pat@.len(),
            0 <= i <= n - m + 1,
            forall|j: int| 0 <= j < i ==> !contains_at(s@, pat@, j),
        decreases n - i,
    {
        if match_at(s, pat, i, n, m) {
            return true;
        }
        i = i + 1;
    }
    proof {
        assert(forall|j: int| j >= i ==> !contains_at(s@, pat@, j));
    }
    false
}

/// The rewrite triggers: the first line carries a datetime stamp and the
/// header line at index 4 does not hold the marker token yet.
pub open spec fn osc_ready(lines: Seq<Seq<char>>) -> bool {
    has_timestamp(lines[0]) && !contains_seq(lines[4], "DateTime"@)
}

/// The rewritten content: header lines 0 to 3 verbatim, the marker column
/// prepended to the header line at index 4, and the first line's datetime
/// prepended as a leading tab-delimited field to every line from index 5 on.
pub open spec fn osc_rewritten(lines: Seq<Seq<char>>) -> Seq<Seq<char>> {
    Seq::new(
        lines.len(),
        |i: int|
            if i == 4 {
                "\tDateTime\t"@ + lines[4]
            } else if i >= 5 {
                "\t"@ + lines[0] + lines[i]
            } else {
                lines[i]
            },
    )
}

/// Applies the format rewrite when it triggers; returns `None` (and the file
/// stays as the pipeline left it) when the first line carries no datetime
/// stamp or the header was already marked by an earlier run.
pub fn rewrite_osc(buf: &LineBuffer) -> (r: Option<LineBuffer>)
    requires
        buf@.len() >= 5,
    ensures
        (r is Some) <==> osc_ready(buf@),
        r matches Some(out) ==> out@ == osc_rewritten(buf@),
{
    let ts_ok = find_timestamp(buf.line(0).as_str());
    let marked = contains_str(buf.line(4).as_str(), "DateTime");
    if !ts_ok || marked {
        return None;
    }
    let datetime = buf.line(0).clone();
    let mut out = buf.duplicate();
    let mut header = String::from_str("\tDateTime\t");
    header.append(out.line(4).as_str());
    out.set_line(4, header);
    let n = out.len();
    let mut i: usize = 5;
    while i < n
        invariant
            5 <= i <= n,
            n == buf@.len(),
            out@.len() == n,
            datetime@ == buf@[0],
            out@[4] == "\tDateTime\t"@ + buf@[4],
            forall|j: int| 0 <= j < 4 ==> out@[j] == buf@[j],
            forall|j: int| 5 <= j < i ==> out@[j] == "\t"@ + buf@[0] + buf@[j],
            forall|j: int| i <= j < n ==> out@[j] == buf@[j],
        decreases n - i,
    {
        let mut line = String::from_str("\t");
        line.append(datetime.as_str());
        line.append(out.line(i).as_str());
        out.set_line(i, line);
        i = i + 1;
    }
    proof {
        assert(out@ =~= osc_rewritten(buf@));
    }
    Some(out)
}

/// Idempotence: rewritten content carries the marker token in its header
/// line, so a second run never triggers the rewrite again.
pub proof fn lemma_rewrite_idempotent(lines: Seq<Seq<char>>)
    requires
        lines.len() >= 5,
    ensures
        !osc_ready(osc_rewritten(lines)),
{
    reveal_strlit("\tDateTime\t");
    reveal_strlit("DateTime");
    let header = osc_rewritten(lines)[4];
    assert(header == "\tDateTime\t"@ + lines[4]);
    assert(header.subrange(1, 9) =~= "DateTime"@);
    assert(contains_at(header, "DateTime"@, 1));
}

} // verus!
