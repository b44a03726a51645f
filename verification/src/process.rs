//! Per-file control flow: the integrity pipeline decides delete, keep or
//! trim; for the designated timestamped format the rewriter then decides
//! whether the kept content is rewritten and persisted.

use vstd::prelude::*;

use crate::buffer::LineBuffer;
use crate::pipeline::{clean, clean_deletes, cleaned, PipelineOutcome};
use crate::rewrite::{osc_ready, osc_rewritten, rewrite_osc};

verus! {

/// What the caller does with the file: remove it, leave it untouched, or
/// replace its content with the carried lines.
pub enum FileAction {
    Remove,
    Leave,
    Write(LineBuffer),
}

/// Decides the fate of one file from its lines and its resolved minimum
/// line count. `special` marks the designated timestamped format, whose
/// header sits at the fifth line; its threshold is therefore at least five.
/// When the rewrite of a special-format file does not trigger, the file is
/// left as the pipeline produced it: trimmed content is still persisted,
/// and only content the pipeline left unchanged stays untouched.
pub fn process_lines(buf: &LineBuffer, min_lines: usize, special: bool) -> (r: FileAction)
    requires
        2 <= min_lines,
        special ==> 5 <= min_lines,
    ensures
        (r is Remove) <==> clean_deletes(buf@, min_lines as int),
        (!clean_deletes(buf@, min_lines as int) && special && osc_ready(
            cleaned(buf@, min_lines as int),
        )) ==> (r matches FileAction::Write(out) && out@ == osc_rewritten(
            cleaned(buf@, min_lines as int),
        )),
        (!clean_deletes(buf@, min_lines as int) && !(special && osc_ready(
            cleaned(buf@, min_lines as int),
        )) && cleaned(buf@, min_lines as int) == buf@) ==> r is Leave,
        (!clean_deletes(buf@, min_lines as int) && !(special && osc_ready(
            cleaned(buf@, min_lines as int),
        )) && cleaned(buf@, min_lines as int) != buf@) ==> (r
            matches FileAction::Write(out) && out@ == cleaned(buf@, min_lines as int)),
{
    match clean(buf, min_lines) {
        PipelineOutcome::Delete => FileAction::Remove,
        PipelineOutcome::Unchanged => {
            if special {
                match rewrite_osc(buf) {
                    Some(out) => FileAction::Write(out),
                    None => FileAction::Leave,
                }
            } else {
                FileAction::Leave
            }
        },
        PipelineOutcome::Rewritten(trimmed_buf) => {
            if special {
                match rewrite_osc(&trimmed_buf) {
                    Some(out) => FileAction::Write(out),
                    None => FileAction::Write(trimmed_buf),
                }
            } else {
                FileAction::Write(trimmed_buf)
            }
        },
    }
}

} // verus!
