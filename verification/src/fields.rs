//! Field measurements on a delimited line: how many fields a line splits
//! into, and how many characters its last field holds. A line is trimmed of
//! surrounding whitespace before it is split.

use vstd::prelude::*;

use crate::text::{count_char, count_char_in, tail_run_in, tail_run_len, trim_bounds, trimmed};

verus! {

/// Number of fields the trimmed line splits into on delimiter `d`:
/// one more than the number of delimiter occurrences.
pub open spec fn spec_n_fields(s: Seq<char>, d: char) -> int {
    1 + count_char(trimmed(s), d)
}

/// Number of characters in the last field of the trimmed line.
pub open spec fn spec_last_field_len(s: Seq<char>, d: char) -> int {
    tail_run_len(trimmed(s), d)
}

/// Trims `s` of surrounding whitespace, splits it on `delimiter`, and
/// returns the number of fields.
pub fn n_data_fields(s: &String, delimiter: &str) -> (r: usize)
    requires
        delimiter@.len() == 1,
        s@.len() < usize::MAX,
    ensures
        r == spec_n_fields(s@, delimiter@[0]),
{
    let d = delimiter.get_char(0);
    let (lo, hi) = trim_bounds(s.as_str());
    let cnt = count_char_in(s.as_str(), lo, hi, d);
    cnt + 1
}

/// Returns the number of characters in the last field of the trimmed,
/// `delimiter`-split line. A split always yields at least one field, so the
/// result is never `None`.
pub fn n_chars_last_field(s: &String, delimiter: &str) -> (r: Option<usize>)
    requires
        delimiter@.len() == 1,
    ensures
        r matches Some(n) && n == spec_last_field_len(s@, delimiter@[0]),
{
    let d = delimiter.get_char(0);
    let (lo, hi) = trim_bounds(s.as_str());
    Some(tail_run_in(s.as_str(), lo, hi, d))
}

} // verus!
