//! Character-level primitives: whitespace trimming, counting a delimiter,
//! measuring the run of characters behind the last delimiter, and equality
//! of two strings, all specified over `Seq<char>` views.

use vstd::prelude::*;

verus! {

/// The characters that surrounding-whitespace trimming removes
/// (the Unicode white-space characters).
pub open spec fn is_blank_char(c: char) -> bool {
    let u = c as u32;
    ||| u == 0x9
    ||| u == 0xA
    ||| u == 0xB
    ||| u == 0xC
    ||| u == 0xD
    ||| u == 0x20
    ||| u == 0x85
    ||| u == 0xA0
    ||| u == 0x1680
    ||| (0x2000 <= u && u <= 0x200A)
    ||| u == 0x2028
    ||| u == 0x2029
    ||| u == 0x202F
    ||| u == 0x205F
    ||| u == 0x3000
}

fn blank_char(c: char) -> (r: bool)
    ensures
        r == is_blank_char(c),
{
    let u = c as u32;
    u == 0x9 || u == 0xA || u == 0xB || u == 0xC || u == 0xD || u == 0x20 || u == 0x85
        || u == 0xA0 || u == 0x1680 || (0x2000 <= u && u <= 0x200A) || u == 0x2028 || u == 0x2029
        || u == 0x202F || u == 0x205F || u == 0x3000
}

/// Number of blank characters at the front of `s`.
pub open spec fn trim_start_len(s: Seq<char>) -> int
    decreases s.len(),
{
    if s.len() == 0 {
        0
    } else if is_blank_char(s[0]) {
        1 + trim_start_len(s.drop_first())
    } else {
        0
    }
}

/// Position just after the last non-blank character of `s`.
pub open spec fn trim_end_pos(s: Seq<char>) -> int
    decreases s.len(),
{
    if s.len() == 0 {
        0
    } else if is_blank_char(s.last()) {
        trim_end_pos(s.drop_last())
    } else {
        s.len() as int
    }
}

/// `s` with blank characters removed from both ends.
pub open spec fn trimmed(s: Seq<char>) -> Seq<char> {
    if trim_start_len(s) <= trim_end_pos(s) {
        s.subrange(trim_start_len(s), trim_end_pos(s))
    } else {
        Seq::empty()
    }
}

proof fn lemma_trim_start_at(s: Seq<char>, i: int)
    requires
        0 <= i <= s.len(),
        forall|j: int| 0 <= j < i ==> is_blank_char(s[j]),
        i == s.len() || !is_blank_char(s[i]),
    ensures
        trim_start_len(s) == i,
    decreases i,
{
    if i == 0 {
    } else {
        assert(is_blank_char(s[0]));
        assert forall|j: int| 0 <= j < i - 1 implies is_blank_char(s.drop_first()[j]) by {
            assert(s.drop_first()[j] == s[j + 1]);
        }
        if i < s.len() {
            assert(s.drop_first()[i - 1] == s[i]);
        }
        lemma_trim_start_at(s.drop_first(), i - 1);
    }
}

proof fn lemma_trim_end_at(s: Seq<char>, e: int)
    requires
        0 <= e <= s.len(),
        forall|j: int| e <= j < s.len() ==> is_blank_char(s[j]),
        e == 0 || !is_blank_char(s[e - 1]),
    ensures
        trim_end_pos(s) == e,
    decreases s.len(),
{
    if e == s.len() {
        if s.len() > 0 {
            assert(!is_blank_char(s.last()));
        }
    } else {
        assert(is_blank_char(s.last()));
        assert forall|j: int| e <= j < s.len() - 1 implies is_blank_char(s.drop_last()[j]) by {
            assert(s.drop_last()[j] == s[j]);
        }
        lemma_trim_end_at(s.drop_last(), e);
    }
}

/// Index bounds of the trimmed region of `s`: `trimmed(s@)` is exactly
/// `s@.subrange(r.0, r.1)`.
pub fn trim_bounds(s: &str) -> (r: (usize, usize))
    ensures
        r.0 <= r.1 <= s@.len(),
        trimmed(s@) == s@.subrange(r.0 as int, r.1 as int),
{
    let n = s.unicode_len();
    let mut i: usize = 0;
    while i < n && blank_char(s.get_char(i))
        invariant
            0 <= i <= n,
            n == s@.len(),
            forall|j: int| 0 <= j < i ==> is_blank_char(s@[j]),
        decreases n - i,
    {
        i = i + 1;
    }
    // i == n, or s@[i] is not blank; everything before i is blank.
    let mut e: usize = n;
    while e > i && blank_char(s.get_char(e - 1))
        invariant
            i <= e <= n,
            n == s@.len(),
            forall|j: int| 0 <= j < i ==> is_blank_char(s@[j]),
            i == n || !is_blank_char(s@[i as int]),
            forall|j: int| e <= j < n ==> is_blank_char(s@[j]),
        decreases e,
    {
        e = e - 1;
    }
    proof {
        if e > i {
            lemma_trim_start_at(s@, i as int);
            lemma_trim_end_at(s@, e as int);
        } else {
            // The whole string is blank: the trimmed region is empty.
            assert(i == n);
            lemma_trim_start_at(s@, i as int);
            lemma_trim_end_at(s@, 0);
            assert(trimmed(s@) =~= s@.subrange(i as int, e as int));
        }
    }
    (i, e)
}

/// Number of occurrences of `c` in `s`.
pub open spec fn count_char(s: Seq<char>, c: char) -> int
    decreases s.len(),
{
    if s.len() == 0 {
        0
    } else {
        count_char(s.drop_last(), c) + if s.last() == c {
            1int
        } else {
            0int
        }
    }
}

/// Counts occurrences of `c` in `s@.subrange(lo, hi)`.
pub fn count_char_in(s: &str, lo: usize, hi: usize, c: char) -> (r: usize)
    requires
        lo <= hi <= s@.len(),
    ensures
        r == count_char(s@.subrange(lo as int, hi as int), c),
        r <= hi - lo,
{
    let mut r: usize = 0;
    let mut k: usize = lo;
    while k < hi
        invariant
            lo <= k <= hi <= s@.len(),
            r <= k - lo,
            r == count_char(s@.subrange(lo as int, k as int), c),
        decreases hi - k,
    {
        let ch = s.get_char(k);
        proof {
            let prev = s@.subrange(lo as int, k as int);
            let next = s@.subrange(lo as int, k as int + 1);
            assert(next.drop_last() =~= prev);
            assert(next.last() == s@[k as int]);
        }
        if ch == c {
            r = r + 1;
        }
        k = k + 1;
    }
    r
}

/// Length of the run of characters other than `c` at the end of `s`:
/// the length of the last `c`-delimited field.
pub open spec fn tail_run_len(s: Seq<char>, c: char) -> int
    decreases s.len(),
{
    if s.len() == 0 {
        0
    } else if s.last() == c {
        0
    } else {
        1 + tail_run_len(s.drop_last(), c)
    }
}

proof fn lemma_tail_run_at(s: Seq<char>, c: char, k: int)
    requires
        0 <= k <= s.len(),
        forall|j: int| k <= j < s.len() ==> s[j] != c,
        k == 0 || s[k - 1] == c,
    ensures
        tail_run_len(s, c) == s.len() - k,
    decreases s.len(),
{
    if k == s.len() {
        if s.len() > 0 {
            assert(s.last() == c);
        }
    } else {
        assert(s.last() != c);
        assert forall|j: int| k <= j < s.len() - 1 implies s.drop_last()[j] != c by {
            assert(s.drop_last()[j] == s[j]);
        }
        lemma_tail_run_at(s.drop_last(), c, k);
    }
}

/// Measures the run of characters other than `c` at the end of
/// `s@.subrange(lo, hi)`.
pub fn tail_run_in(s: &str, lo: usize, hi: usize, c: char) -> (r: usize)
    requires
        lo <= hi <= s@.len(),
    ensures
        r == tail_run_len(s@.subrange(lo as int, hi as int), c),
        r <= hi - lo,
{
    let mut e: usize = hi;
    while e > lo && s.get_char(e - 1) != c
        invariant
            lo <= e <= hi <= s@.len(),
            forall|j: int| e <= j < hi ==> s@[j] != c,
        decreases e,
    {
        e = e - 1;
    }
    proof {
        let sub = s@.subrange(lo as int, hi as int);
        let k = e - lo;
        assert forall|j: int| k <= j < sub.len() implies sub[j] != c by {
            assert(sub[j] == s@[lo + j]);
        }
        if e > lo {
            assert(sub[k - 1] == s@[e - 1]);
        }
        lemma_tail_run_at(sub, c, k as int);
    }
    hi - e
}

/// Character-for-character string equality, stated over the views.
pub fn str_eq(a: &str, b: &str) -> (r: bool)
    ensures
        r == (a@ == b@),
{
    let n = a.unicode_len();
    let m = b.unicode_len();
    if n != m {
        return false;
    }
    let mut i: usize = 0;
    while i < n
        invariant
            0 <= i <= n,
            n == a@.len(),
            n == b@.len(),
            forall|j: int| 0 <= j < i ==> a@[j] == b@[j],
        decreases n - i,
    {
        if a.get_char(i) != b.get_char(i) {
            return false;
        }
        i = i + 1;
    }
    proof {
        assert(a@ =~= b@);
    }
    true
}

} // verus!
