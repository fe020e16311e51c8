//! What the boot stage marker says.

use vstd::prelude::*;
use vstd::string::StrSliceExecFns;

verus! {

/// Whether a marker text announces the early boot stage.
pub open spec fn marks_early_stage(content: Seq<char>) -> bool {
    content.len() > 0 && content[0] == '1'
}

/// Reads the marker: early stage exactly when the text starts with `1`.
/// An empty text, as of a missing or unreadable marker, says no.
pub fn is_early_stage(content: &str) -> (early: bool)
    ensures
        early == marks_early_stage(content@),
{
    if content.is_empty() {
        return false;
    }
    content.get_char(0) == '1'
}

} // verus!
