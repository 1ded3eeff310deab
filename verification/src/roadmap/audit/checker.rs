//! The audit of each task: does its text carry a test anchor, and does the
//! anchor resolve?
use vstd::prelude::*;
use crate::roadmap::audit::types::{AuditViolation, ViolationReason};
use crate::roadmap::types::Task;
use crate::text::{
    append, append_str, contains, find, find_chars, find_chars_from, find_from, find_str,
    from_chars, slice_of, to_chars, trim, trim_chars,
};

verus! {

/// A task's text split into its text without the anchor comment and the
/// anchor (`<!-- test: a -->` gives `a`, trimmed).
pub open spec fn anchor_split(text: Seq<char>) -> (Seq<char>, Option<Seq<char>>) {
    match find(text, "<!-- test:"@) {
        None => (text, None),
        Some(start) => match find(text.subrange(start, text.len() as int), "-->"@) {
            None => (text, None),
            Some(end) => (
                trim(text.subrange(0, start) + text.subrange(start + end + 3, text.len() as int)),
                Some(trim(text.subrange(start + 10, start + end))),
            ),
        },
    }
}

/// The text without its anchor comment, and the anchor.
pub fn extract_anchor(text: &str) -> (r: (String, Option<String>))
    ensures
        (r.0@, match r.1 {
            Some(a) => Some(a@),
            None => None,
        }) == anchor_split(text@),
{
    let t = to_chars(text);
    proof {
        reveal_strlit("<!-- test:");
        reveal_strlit("-->");
    }
    let start = match find_str(&t, "<!-- test:") {
        Some(s) => s,
        None => {
            return (from_chars(&t), None);
        },
    };
    proof {
        crate::text::lemma_find_from(t@, "<!-- test:"@, 0);
    }
    let rest = slice_of(&t, start, t.len());
    let end = match find_str(&rest, "-->") {
        Some(e) => e,
        None => {
            return (from_chars(&t), None);
        },
    };
    proof {
        crate::text::lemma_find_from(rest@, "-->"@, 0);
        if end < 10 {
            assert(rest@.subrange(0, 10) == "<!-- test:"@);
            assert(rest@.subrange(end as int, end + 3) == "-->"@);
            let w = rest@.subrange(end as int, end + 3);
            let h = rest@.subrange(0, 10);
            assert(w[0] == rest@[end as int]);
            assert(w[1] == rest@[end + 1]);
            assert(w[0] == '-' && w[1] == '-' && w[2] == '>');
            if end + 1 < 10 {
                assert(h[end + 1] == rest@[end + 1]);
            }
            assert(h[end as int] == rest@[end as int]);
            assert(false);
        }
    }
    let anchor_raw = slice_of(&t, start + 10, start + end);
    let anchor = trim_chars(&anchor_raw);
    let mut clean = slice_of(&t, 0, start);
    let tail = slice_of(&t, start + end + 3, t.len());
    append(&mut clean, &tail);
    let c = trim_chars(&clean);
    (from_chars(&c), Some(from_chars(&anchor)))
}

/// An anchor split at `::` into its file and, when there is one, the
/// function after it (up to a second `::`).
pub open spec fn anchor_parts(a: Seq<char>) -> (Seq<char>, Option<Seq<char>>) {
    match find(a, "::"@) {
        None => (a, None),
        Some(i) => (
            a.subrange(0, i),
            Some(
                match find_from(a, "::"@, i + 2) {
                    None => a.subrange(i + 2, a.len() as int),
                    Some(j) => a.subrange(i + 2, j),
                },
            ),
        ),
    }
}

/// The file and function of an anchor.
pub fn split_anchor(a: &str) -> (r: (String, Option<String>))
    ensures
        (r.0@, match r.1 {
            Some(f) => Some(f@),
            None => None,
        }) == anchor_parts(a@),
{
    let v = to_chars(a);
    let sep = to_chars("::");
    proof {
        reveal_strlit("::");
    }
    match find_chars(&v, &sep) {
        None => (from_chars(&v), None),
        Some(i) => {
            proof {
                crate::text::lemma_find_from(v@, "::"@, 0);
                assert("::"@.len() == 2);
                assert(crate::text::occurs_at(v@, "::"@, i as int));
            }
            assert(i + 2 <= v.len());
            let file = slice_of(&v, 0, i);
            let func = match find_chars_from(&v, &sep, i + 2) {
                None => slice_of(&v, i + 2, v.len()),
                Some(j) => {
                    proof {
                        crate::text::lemma_find_from(v@, "::"@, i + 2);
                    }
                    slice_of(&v, i + 2, j)
                },
            };
            (from_chars(&file), Some(from_chars(&func)))
        },
    }
}

/// What was found on disk for a task's anchor: whether its file exists,
/// and the file's content when it could be read.
#[derive(Debug, Clone)]
pub struct AnchorProbe {
    pub file_exists: bool,
    pub content: Option<String>,
}

/// The reason a task fails the audit, if it does: no anchor; an anchor
/// whose file is missing; or a named function that the readable file does
/// not define (`fn <name>` does not occur).
pub open spec fn task_violation(text: Seq<char>, exists: bool, content: Option<Seq<char>>) -> Option<
    (u8, Seq<char>, Seq<char>),
> {
    match anchor_split(text).1 {
        None => Some((0, Seq::empty(), Seq::empty())),
        Some(a) => {
            let (file, func) = anchor_parts(a);
            if !exists {
                Some((1, file, Seq::empty()))
            } else {
                match (func, content) {
                    (Some(f), Some(c)) => if contains(c, "fn "@ + f) {
                        None
                    } else {
                        Some((2, file, f))
                    },
                    _ => None,
                }
            }
        },
    }
}

/// The reason as values: 0 for no anchor, 1 for a missing file, 2 for a
/// missing function.
pub open spec fn reason_view(r: ViolationReason) -> (u8, Seq<char>, Seq<char>) {
    match r {
        ViolationReason::NoTraceability => (0, Seq::empty(), Seq::empty()),
        ViolationReason::MissingTestFile(f) => (1, f@, Seq::empty()),
        ViolationReason::MissingTestFunction { file, function } => (2, file@, function@),
    }
}

/// `v` is what auditing `task` with `probe` gives.
pub open spec fn audited(task: Task, probe: AnchorProbe, v: Seq<AuditViolation>) -> bool {
    match task_violation(
        task.text@,
        probe.file_exists,
        match probe.content {
            Some(c) => Some(c@),
            None => None,
        },
    ) {
        None => v.len() == 0,
        Some(rv) => v.len() == 1 && v[0].task_id@ == task.id@ && v[0].task_text@ == task.text@
            && reason_view(v[0].reason) == rv,
    }
}

/// The violations of one task, given what was found for its anchor.
pub fn audit_task(task: &Task, probe: &AnchorProbe) -> (r: Vec<AuditViolation>)
    ensures
        audited(*task, *probe, r@),
{
    let mut violations: Vec<AuditViolation> = Vec::new();
    let (_, anchor_opt) = extract_anchor(task.text.as_str());
    match anchor_opt {
        Some(anchor) => {
            let (file, func) = split_anchor(anchor.as_str());
            if !probe.file_exists {
                violations.push(
                    AuditViolation {
                        task_id: task.id.clone(),
                        task_text: task.text.clone(),
                        reason: ViolationReason::MissingTestFile(file),
                    },
                );
            } else {
                match (func, &probe.content) {
                    (Some(f), Some(content)) => {
                        let mut needle: Vec<char> = Vec::new();
                        append_str(&mut needle, "fn ");
                        append_str(&mut needle, f.as_str());
                        let c = to_chars(content.as_str());
                        if find_chars(&c, &needle).is_none() {
                            violations.push(
                                AuditViolation {
                                    task_id: task.id.clone(),
                                    task_text: task.text.clone(),
                                    reason: ViolationReason::MissingTestFunction {
                                        file,
                                        function: f,
                                    },
                                },
                            );
                        }
                    },
                    _ => {},
                }
            }
        },
        None => {
            violations.push(
                AuditViolation {
                    task_id: task.id.clone(),
                    task_text: task.text.clone(),
                    reason: ViolationReason::NoTraceability,
                },
            );
        },
    }
    violations
}

/// The violations of all tasks, in order, given what was found for each
/// task's anchor.
pub fn check_roadmap(tasks: &[Task], probes: &[AnchorProbe]) -> (r: Vec<AuditViolation>)
    requires
        probes@.len() == tasks@.len(),
    ensures
        exists|parts: Seq<Seq<AuditViolation>>|
            parts.len() == tasks@.len() && (forall|i: int|
                0 <= i < tasks@.len() ==> audited(tasks@[i], probes@[i], #[trigger] parts[i]))
                && r@ == parts.flatten(),
{
    let mut out: Vec<AuditViolation> = Vec::new();
    let ghost mut parts: Seq<Seq<AuditViolation>> = Seq::empty();
    let mut i: usize = 0;
    while i < tasks.len()
        invariant
            i <= tasks.len() == probes.len(),
            parts.len() == i,
            forall|k: int| 0 <= k < i ==> audited(tasks@[k], probes@[k], #[trigger] parts[k]),
            out@ == parts.flatten(),
        decreases tasks.len() - i,
    {
        let mut v = audit_task(&tasks[i], &probes[i]);
        let ghost p0 = parts;
        let ghost vv = v@;
        out.append(&mut v);
        proof {
            parts = p0.push(vv);
            p0.lemma_flatten_push(vv);
        }
        i += 1;
    }
    out
}

} // verus!
