//! Checks that test anchors resolve to test functions.
use vstd::prelude::*;
use crate::roadmap::audit::types::{AuditResult, TaskAnchor, VerificationStatus};
use crate::text::{append_str, from_chars};

verus! {

/// What was found for an anchor: whether its file exists, and, when it
/// does, whether the function was found (or why the file could not be
/// read).
#[derive(Debug)]
pub struct FunctionProbe {
    pub file_exists: bool,
    pub found: Result<bool, String>,
}

/// The status and detail of an anchor's check.
pub open spec fn anchor_outcome(a: TaskAnchor, p: FunctionProbe) -> (VerificationStatus, Option<Seq<char>>) {
    if !p.file_exists {
        (VerificationStatus::MissingFile, Some("File not found: "@ + a.file@))
    } else {
        match p.found {
            Ok(true) => (VerificationStatus::Verified, None),
            Ok(false) => (
                VerificationStatus::MissingFunction,
                Some("Function '"@ + a.function@ + "' not found in "@ + a.file@),
            ),
            Err(e) => (VerificationStatus::ParseError, Some(e@)),
        }
    }
}

/// `r` is the check of anchor `a` given probe `p`.
pub open spec fn anchor_checked(a: TaskAnchor, p: FunctionProbe, r: AuditResult) -> bool {
    &&& r.task_path@ == a.task_path@
    &&& r.anchor.task_path@ == a.task_path@
    &&& r.anchor.file@ == a.file@
    &&& r.anchor.function@ == a.function@
    &&& (r.status, match r.detail {
        Some(d) => Some(d@),
        None => None,
    }) == anchor_outcome(a, p)
}

/// The check of one anchor, given what was found for it.
pub fn verify_anchor(anchor: &TaskAnchor, probe: &FunctionProbe) -> (r: AuditResult)
    ensures
        anchor_checked(*anchor, *probe, r),
{
    if !probe.file_exists {
        let mut d: Vec<char> = Vec::new();
        append_str(&mut d, "File not found: ");
        append_str(&mut d, anchor.file.as_str());
        return AuditResult {
            task_path: anchor.task_path.clone(),
            anchor: anchor.duplicate(),
            status: VerificationStatus::MissingFile,
            detail: Some(from_chars(&d)),
        };
    }
    match &probe.found {
        Ok(true) => AuditResult {
            task_path: anchor.task_path.clone(),
            anchor: anchor.duplicate(),
            status: VerificationStatus::Verified,
            detail: None,
        },
        Ok(false) => {
            let mut d: Vec<char> = Vec::new();
            append_str(&mut d, "Function '");
            append_str(&mut d, anchor.function.as_str());
            append_str(&mut d, "' not found in ");
            append_str(&mut d, anchor.file.as_str());
            AuditResult {
                task_path: anchor.task_path.clone(),
                anchor: anchor.duplicate(),
                status: VerificationStatus::MissingFunction,
                detail: Some(from_chars(&d)),
            }
        },
        Err(e) => AuditResult {
            task_path: anchor.task_path.clone(),
            anchor: anchor.duplicate(),
            status: VerificationStatus::ParseError,
            detail: Some(e.clone()),
        },
    }
}

/// The checks of all anchors, in order.
pub fn verify_all(anchors: &[TaskAnchor], probes: &[FunctionProbe]) -> (r: Vec<AuditResult>)
    requires
        probes@.len() == anchors@.len(),
    ensures
        r@.len() == anchors@.len(),
        forall|i: int|
            0 <= i < anchors@.len() ==> anchor_checked(anchors@[i], probes@[i], #[trigger] r@[i]),
{
    let mut out: Vec<AuditResult> = Vec::new();
    let mut i: usize = 0;
    while i < anchors.len()
        invariant
            i <= anchors.len() == probes.len(),
            out@.len() == i,
            forall|k: int| 0 <= k < i ==> anchor_checked(anchors@[k], probes@[k], #[trigger] out@[k]),
        decreases anchors.len() - i,
    {
        out.push(verify_anchor(&anchors[i], &probes[i]));
        i += 1;
    }
    out
}

/// The positions of the checks that did not verify, in order.
pub open spec fn failure_positions(rs: Seq<AuditResult>) -> Seq<int>
    decreases rs.len(),
{
    if rs.len() == 0 {
        Seq::empty()
    } else {
        failure_positions(rs.drop_last()) + if rs.last().status != VerificationStatus::Verified {
            seq![rs.len() - 1]
        } else {
            Seq::empty()
        }
    }
}

/// The checks that did not verify, in order.
pub fn filter_failures(results: &[AuditResult]) -> (r: Vec<&AuditResult>)
    ensures
        r@.len() == failure_positions(results@).len(),
        forall|i: int|
            0 <= i < r@.len() ==> *#[trigger] r@[i] == results@[failure_positions(results@)[i]],
{
    let mut out: Vec<&AuditResult> = Vec::new();
    let mut i: usize = 0;
    while i < results.len()
        invariant
            i <= results.len(),
            out@.len() == failure_positions(results@.take(i as int)).len(),
            forall|k: int|
                0 <= k < out@.len() ==> *#[trigger] out@[k] == results@[failure_positions(
                    results@.take(i as int),
                )[k]],
            forall|k: int|
                0 <= k < failure_positions(results@.take(i as int)).len() ==> 0
                    <= #[trigger] failure_positions(results@.take(i as int))[k] < i,
        decreases results.len() - i,
    {
        proof {
            assert(results@.take(i + 1).drop_last() =~= results@.take(i as int));
            assert(results@.take(i + 1).last() == results@[i as int]);
        }
        let r = &results[i];
        if r.status != VerificationStatus::Verified {
            out.push(r);
        }
        i += 1;
    }
    assert(results@.take(results.len() as int) =~= results@);
    out
}

} // verus!
