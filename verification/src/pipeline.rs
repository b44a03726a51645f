//! The line-integrity pipeline: the ordered checks that decide whether a
//! file's content is deleted, trimmed at the tail, or left unchanged.

use vstd::prelude::*;

use crate::buffer::{rendered, LineBuffer};
use crate::fields::{spec_last_field_len, spec_n_fields};
use crate::text::{count_char_in, tail_run_in, trim_bounds};

verus! {

/// Decision of the pipeline for one file. `Delete` is terminal: the file is
/// removed. `Unchanged` leaves the file untouched. `Rewritten` carries the
/// trimmed content that replaces the file.
pub enum PipelineOutcome {
    Delete,
    Unchanged,
    Rewritten(LineBuffer),
}

/// The content after the trailing-blank trim: empty lines are removed from
/// the tail, repeatedly, until the last line is non-empty.
pub open spec fn drop_trailing_blanks(lines: Seq<Seq<char>>) -> Seq<Seq<char>>
    decreases lines.len(),
{
    if lines.len() > 0 && lines.last().len() == 0 {
        drop_trailing_blanks(lines.drop_last())
    } else {
        lines
    }
}

/// The header/data framing check: the field counts of the header line (index
/// `min - 2`) and of the first data row (index `min - 1`) disagree.
pub open spec fn header_mismatch(t: Seq<Seq<char>>, min: int) -> bool {
    spec_n_fields(t[min - 2], '\t') != spec_n_fields(t[min - 1], '\t')
}

/// The two tail repairs, applied to the trailing-blank-trimmed content `t`:
/// the last line goes if its field count differs from the header's; then, if
/// more than `min` lines remain, the last line goes if its last field is
/// shorter than the one above it.
pub open spec fn after_tail_checks(t: Seq<Seq<char>>, min: int) -> Seq<Seq<char>> {
    let u = if spec_n_fields(t.last(), '\t') != spec_n_fields(t[min - 2], '\t') {
        t.drop_last()
    } else {
        t
    };
    if u.len() > min && spec_last_field_len(u.last(), '\t') < spec_last_field_len(
        u[u.len() - 2],
        '\t',
    ) {
        u.drop_last()
    } else {
        u
    }
}

/// The content the pipeline keeps, when it does not delete.
pub open spec fn cleaned(lines: Seq<Seq<char>>, min: int) -> Seq<Seq<char>> {
    after_tail_checks(drop_trailing_blanks(lines), min)
}

/// Whether the pipeline deletes the file: too short after the trailing-blank
/// trim, unreliable header/data framing, or too short after the tail repairs.
pub open spec fn clean_deletes(lines: Seq<Seq<char>>, min: int) -> bool {
    let t = drop_trailing_blanks(lines);
    ||| t.len() < min
    ||| header_mismatch(t, min)
    ||| cleaned(lines, min).len() < min
}

/// Number of delimiter occurrences in the trimmed line; field counts are
/// compared through this (two lines have equal field counts exactly when
/// their delimiter counts are equal).
fn line_tab_count(s: &String) -> (r: usize)
    ensures
        1 + r == spec_n_fields(s@, '\t'),
{
    let (lo, hi) = trim_bounds(s.as_str());
    count_char_in(s.as_str(), lo, hi, '\t')
}

/// Character count of the last tab-delimited field of the trimmed line.
fn line_last_field_len(s: &String) -> (r: usize)
    ensures
        r == spec_last_field_len(s@, '\t'),
{
    let (lo, hi) = trim_bounds(s.as_str());
    tail_run_in(s.as_str(), lo, hi, '\t')
}

/// Runs the integrity checks on one file's lines, in order: trailing-blank
/// trim, minimum length, header/data field-count match, last-line
/// field-count repair, last-line field-length repair, minimum length again.
pub fn clean(buf: &LineBuffer, min_lines: usize) -> (r: PipelineOutcome)
    requires
        2 <= min_lines,
    ensures
        (r is Delete) <==> clean_deletes(buf@, min_lines as int),
        (r is Unchanged) <==> (!clean_deletes(buf@, min_lines as int) && cleaned(
            buf@,
            min_lines as int,
        ) == buf@),
        r matches PipelineOutcome::Rewritten(out) ==> (!clean_deletes(buf@, min_lines as int)
            && out@ == cleaned(buf@, min_lines as int) && cleaned(buf@, min_lines as int) != buf@),
        (!clean_deletes(buf@, min_lines as int) && cleaned(buf@, min_lines as int) != buf@)
            ==> r is Rewritten,
{
    let ghost orig = buf@;
    let mut work = buf.duplicate();
    let n0 = work.len();

    // Trailing blank trim: drop empty lines from the tail.
    while work.len() > 0 && work.line(work.len() - 1).as_str().is_empty()
        invariant
            drop_trailing_blanks(orig) == drop_trailing_blanks(work@),
            work@ == orig.subrange(0, work@.len() as int),
            work@.len() <= orig.len(),
        decreases work@.len(),
    {
        proof {
            assert(work@.drop_last() =~= orig.subrange(0, work@.len() - 1));
        }
        work.pop_last();
    }
    proof {
        assert(work@ == drop_trailing_blanks(orig));
    }
    let ghost t = work@;

    // Minimum length, before any repair.
    if work.len() < min_lines {
        return PipelineOutcome::Delete;
    }

    // Header/data field-count match.
    let header_tabs = line_tab_count(work.line(min_lines - 2));
    let data_tabs = line_tab_count(work.line(min_lines - 1));
    if data_tabs != header_tabs {
        return PipelineOutcome::Delete;
    }

    // Last-line field-count match: one partial line may be dropped.
    let last_tabs = line_tab_count(work.line(work.len() - 1));
    if last_tabs != header_tabs {
        work.pop_last();
    }
    let ghost u = work@;
    proof {
        assert(u == if spec_n_fields(t.last(), '\t') != spec_n_fields(t[min_lines - 2], '\t') {
            t.drop_last()
        } else {
            t
        });
    }

    // Last-line field-length regression: with at least two data rows left, a
    // last field shorter than the one above it marks a row cut mid-write.
    if work.len() > min_lines {
        let have = line_last_field_len(work.line(work.len() - 1));
        let want = line_last_field_len(work.line(work.len() - 2));
        if have < want {
            work.pop_last();
        }
    }
    proof {
        assert(work@ == after_tail_checks(t, min_lines as int));
        assert(work@ == cleaned(orig, min_lines as int));
        assert(work@ =~= orig.subrange(0, work@.len() as int));
    }

    // Minimum length, after the repairs.
    if work.len() < min_lines {
        return PipelineOutcome::Delete;
    }
    proof {
        assert(!clean_deletes(orig, min_lines as int));
    }

    if work.len() == n0 {
        proof {
            assert(work@.len() <= t.len() <= orig.len());
            assert(work@ =~= orig);
        }
        PipelineOutcome::Unchanged
    } else {
        proof {
            assert(work@.len() < orig.len());
        }
        PipelineOutcome::Rewritten(work)
    }
}

/// When exactly the last `n` lines are empty (the line above them, if any,
/// is not), the trailing-blank trim removes exactly those `n` lines and
/// nothing else.
pub proof fn lemma_trailing_blank_trim_exact(lines: Seq<Seq<char>>, n: int)
    requires
        0 <= n <= lines.len(),
        forall|j: int| lines.len() - n <= j < lines.len() ==> lines[j].len() == 0,
        n == lines.len() || lines[lines.len() - n - 1].len() > 0,
    ensures
        drop_trailing_blanks(lines) == lines.subrange(0, lines.len() - n),
    decreases n,
{
    if n == 0 {
        assert(lines.subrange(0, lines.len() as int) =~= lines);
    } else {
        assert(lines.last().len() == 0);
        let d = lines.drop_last();
        assert forall|j: int| d.len() - (n - 1) <= j < d.len() implies d[j].len() == 0 by {
            assert(d[j] == lines[j]);
        }
        if n - 1 < d.len() {
            assert(d[d.len() - (n - 1) - 1] == lines[lines.len() - n - 1]);
        }
        lemma_trailing_blank_trim_exact(d, n - 1);
        assert(d.subrange(0, d.len() - (n - 1)) =~= lines.subrange(0, lines.len() - n));
    }
}

/// Content with fewer than `min` lines after the trailing-blank trim is
/// always deleted, whatever its columns hold.
pub proof fn lemma_short_content_deletes(lines: Seq<Seq<char>>, min: int)
    requires
        drop_trailing_blanks(lines).len() < min,
    ensures
        clean_deletes(lines, min),
{
}

/// Content whose header and first-data-row field counts differ is deleted
/// even when it is long enough.
pub proof fn lemma_header_mismatch_deletes(lines: Seq<Seq<char>>, min: int)
    requires
        header_mismatch(drop_trailing_blanks(lines), min),
    ensures
        clean_deletes(lines, min),
{
}

/// When, in content with no trailing blank lines, only the last line's field
/// count differs from the header's, exactly that one line is removed and the
/// outcome is a rewrite, not a deletion — provided the removal does not drop
/// the content below `min`, and the field-length check on the two rows then
/// at the tail does not fire in turn.
pub proof fn lemma_single_line_repair(lines: Seq<Seq<char>>, min: int)
    requires
        2 <= min,
        drop_trailing_blanks(lines) == lines,
        lines.len() > min,
        spec_n_fields(lines[min - 2], '\t') == spec_n_fields(lines[min - 1], '\t'),
        spec_n_fields(lines.last(), '\t') != spec_n_fields(lines[min - 2], '\t'),
        lines.len() - 1 > min ==> spec_last_field_len(lines[lines.len() - 2], '\t')
            >= spec_last_field_len(lines[lines.len() - 3], '\t'),
    ensures
        !clean_deletes(lines, min),
        cleaned(lines, min) == lines.drop_last(),
        cleaned(lines, min) != lines,
{
    let u = lines.drop_last();
    assert(u.last() == lines[lines.len() - 2]);
    if u.len() > min {
        assert(u[u.len() - 2] == lines[lines.len() - 3]);
    }
    assert(cleaned(lines, min) == u);
    assert(cleaned(lines, min).len() != lines.len());
}

/// Round trip: when the pipeline leaves content unchanged, the text a writer
/// would persist is exactly the text of the incoming lines.
pub proof fn lemma_unchanged_round_trip(lines: Seq<Seq<char>>, min: int)
    requires
        !clean_deletes(lines, min),
        cleaned(lines, min) == lines,
    ensures
        rendered(cleaned(lines, min)) == rendered(lines),
{
}

} // verus!
