//! Per-file orchestration: from a decode result to a terminal outcome.
//!
//! Every discovered path runs through the same two stages — filter,
//! then copy if the filter passed — in a unit of work of its own.  A
//! unit's outcome is a function of that unit's inputs alone, so the
//! failure of one file, however it fails, never changes what happens
//! to any other file.

use vstd::prelude::*;
use vstd::pervasive::unreached;
use crate::filter::{Dimensions, FilterCriteria, FilterResult, RejectReason, spec_accepts};
use crate::copying::CopyResult;

verus! {

/// The terminal state of one discovered path.  There are no retries:
/// each path reaches exactly one of these and stays there.
#[derive(Clone, Copy, Debug, PartialEq, Eq, Structural)]
pub enum PathOutcome {
    /// The file could not be opened or decoded as an image.
    OpenFailed,
    /// The image was decoded but failed the criteria.
    Rejected(RejectReason),
    /// The image passed and its copy succeeded.
    PassedThenCopied,
    /// The image passed but its copy failed.
    PassedThenCopyFailed,
}

/// Evaluate every candidate independently: entry `k` of the answer is
/// the filter outcome of decode result `k` alone, so no candidate can
/// disturb another.
pub fn evaluate_all(c: &FilterCriteria, decoded: &Vec<Option<Dimensions>>) -> (r: Vec<
    FilterResult,
>)
    ensures
        r@.len() == decoded@.len(),
        forall|k: int| 0 <= k < decoded@.len() ==> r@[k] == spec_accepts(decoded@[k], *c),
{
    let mut out: Vec<FilterResult> = Vec::new();
    let mut i: usize = 0;
    while i < decoded.len()
        invariant
            i <= decoded@.len(),
            out@.len() == i,
            forall|k: int| 0 <= k < i ==> out@[k] == spec_accepts(decoded@[k], *c),
        decreases decoded@.len() - i,
    {
        out.push(c.accepts(decoded[i]));
        i = i + 1;
    }
    out
}

/// Whether the copy stage runs for this filter outcome: only a pass is
/// copied; a rejection or a failed open is a terminal skip.
pub fn should_copy(r: FilterResult) -> (b: bool)
    ensures
        b == (r == FilterResult::Pass),
{
    match r {
        FilterResult::Pass => true,
        _ => false,
    }
}

/// The terminal outcome of one path, given its filter outcome and — for
/// a pass — the outcome of its copy.
pub open spec fn spec_outcome(filter: FilterResult, copy: Option<CopyResult>) -> PathOutcome {
    match filter {
        FilterResult::OpenFailed => PathOutcome::OpenFailed,
        FilterResult::Rejected(why) => PathOutcome::Rejected(why),
        FilterResult::Pass => match copy {
            Option::Some(CopyResult::Copied) => PathOutcome::PassedThenCopied,
            _ => PathOutcome::PassedThenCopyFailed,
        },
    }
}

/// Combine the two stages of one path into its terminal state.  The
/// copy stage ran exactly when the filter passed.
pub fn outcome(filter: FilterResult, copy: Option<CopyResult>) -> (r: PathOutcome)
    requires
        (copy is Some) <==> (filter == FilterResult::Pass),
    ensures
        r == spec_outcome(filter, copy),
{
    match filter {
        FilterResult::OpenFailed => PathOutcome::OpenFailed,
        FilterResult::Rejected(why) => PathOutcome::Rejected(why),
        FilterResult::Pass => match copy {
            Option::Some(CopyResult::Copied) => PathOutcome::PassedThenCopied,
            Option::Some(CopyResult::Failed) => PathOutcome::PassedThenCopyFailed,
            Option::None => unreached(),
        },
    }
}

/// One corrupt or undecodable file prevents no other file: the filter
/// outcome at position `k` depends on position `k`'s decode result
/// alone, whatever the two runs hold elsewhere — in the same directory
/// or any other.
pub proof fn lemma_sibling_isolation(
    c: FilterCriteria,
    a: Seq<Option<Dimensions>>,
    b: Seq<Option<Dimensions>>,
    k: int,
)
    requires
        0 <= k < a.len(),
        0 <= k < b.len(),
        a[k] == b[k],
    ensures
        spec_accepts(a[k], c) == spec_accepts(b[k], c),
{
}

} // verus!
