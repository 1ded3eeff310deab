//! Traceability audit of a legacy roadmap: do completed tasks have tests?
pub mod types;
pub mod checker;
pub mod anchors;

use vstd::prelude::*;
use crate::apply::types::strings_view;
use crate::detection::{extension, file_name};
use crate::roadmap::str_utils::{slugify_chars, slugify_spec};
use crate::roadmap::types::{Task, TaskStatus};
use crate::text::{
    contains, eq_str, find_chars, lower_ascii, replace, replace_chars, split_char, split_on,
    starts_with, starts_with_str, to_ascii_lower, to_chars, trim, trim_chars, views,
};

verus! {

/// Options of an audit run.
#[derive(Debug, Clone, Copy)]
pub struct AuditOptions {
    pub strict: bool,
}

/// A directory that the test scan does not enter.
pub open spec fn ignored_dir(name: Seq<char>) -> bool {
    starts_with(name, "."@) || name == "target"@ || name == "node_modules"@ || name == "vendor"@
}

/// Whether the test scan skips a directory of this name.
pub fn is_ignored_dir(name: &str) -> (r: bool)
    ensures
        r == ignored_dir(name@),
{
    let n = to_chars(name);
    starts_with_str(&n, ".") || eq_str(&n, "target") || eq_str(&n, "node_modules") || eq_str(
        &n,
        "vendor",
    )
}

/// A path whose extension (in any case) is one of `rs`, `ts`, `js`, `py`,
/// `go`.
pub open spec fn code_extension(path: Seq<char>) -> bool {
    match file_name(path) {
        None => false,
        Some(n) => match extension(n) {
            None => false,
            Some(e) => {
                let l = lower_ascii(e);
                l == "rs"@ || l == "ts"@ || l == "js"@ || l == "py"@ || l == "go"@
            },
        },
    }
}

fn lower_chars(v: &Vec<char>) -> (r: Vec<char>)
    ensures
        r@ == lower_ascii(v@),
{
    let mut out: Vec<char> = Vec::new();
    let mut i: usize = 0;
    while i < v.len()
        invariant
            i <= v.len(),
            out@ == lower_ascii(v@).take(i as int),
        decreases v.len() - i,
    {
        out.push(to_ascii_lower(v[i]));
        proof {
            assert(out@ =~= lower_ascii(v@).take(i + 1));
        }
        i += 1;
    }
    assert(lower_ascii(v@).take(v.len() as int) =~= lower_ascii(v@));
    out
}

/// Whether the path has a code extension.
pub fn has_code_extension(path: &str) -> (r: bool)
    ensures
        r == code_extension(path@),
{
    match crate::detection::file_name_of(path) {
        None => false,
        Some(n) => match crate::detection::extension_of(&n) {
            None => false,
            Some(e) => {
                let l = lower_chars(&e);
                eq_str(&l, "rs") || eq_str(&l, "ts") || eq_str(&l, "js") || eq_str(&l, "py")
                    || eq_str(&l, "go")
            },
        },
    }
}

/// A file the heuristic scan takes for a test: a code file whose name
/// holds `test` or `spec`, or that lies under a `tests` directory.
pub open spec fn heuristic_match(path: Seq<char>, is_file: bool) -> bool {
    &&& is_file
    &&& code_extension(path)
    &&& match file_name(path) {
        None => false,
        Some(n) => contains(n, "test"@) || contains(n, "spec"@) || split_char(path, '/').contains(
            "tests"@,
        ),
    }
}

/// The heuristic scan takes a code file for a test exactly when its name
/// holds `test` or `spec` or it lies under a `tests` directory: a
/// `*.spec.ts` file is as much a test as a `*_test.rs` one, and a
/// directory or a file without a code extension never is.
pub proof fn law_heuristic_test_files(path: Seq<char>, is_file: bool)
    ensures
        !is_file ==> !heuristic_match(path, is_file),
        !code_extension(path) ==> !heuristic_match(path, is_file),
        is_file && code_extension(path) ==> ((file_name(path) matches Some(n) && contains(
            n,
            "spec"@,
        )) ==> heuristic_match(path, is_file)),
        is_file && code_extension(path) ==> ((file_name(path) matches Some(n) && contains(
            n,
            "test"@,
        )) ==> heuristic_match(path, is_file)),
        is_file && code_extension(path) && split_char(path, '/').contains("tests"@) ==> heuristic_match(
            path,
            is_file,
        ),
        heuristic_match(path, is_file) ==> (file_name(path) matches Some(n) && (contains(n, "test"@)
            || contains(n, "spec"@) || split_char(path, '/').contains("tests"@))),
{
    if code_extension(path) {
        assert(file_name(path) is Some);
    }
}

/// Whether the heuristic scan takes the entry for a test file.
pub fn is_heuristic_match(path: &str, is_file: bool) -> (r: bool)
    ensures
        r == heuristic_match(path@, is_file),
{
    if !is_file {
        return false;
    }
    if !has_code_extension(path) {
        return false;
    }
    let name = match crate::detection::file_name_of(path) {
        Some(n) => n,
        None => {
            return false;
        },
    };
    if find_chars(&name, &to_chars("test")).is_some() || find_chars(&name, &to_chars("spec")).is_some() {
        return true;
    }
    let v = to_chars(path);
    let parts = split_on(&v, '/');
    let ghost pv = views(parts@);
    let mut i: usize = 0;
    while i < parts.len()
        invariant
            i <= parts.len(),
            pv == views(parts@),
            pv == split_char(path@, '/'),
            is_file,
            code_extension(path@),
            file_name(path@) is Some,
            forall|k: int| 0 <= k < i ==> #[trigger] pv[k] != "tests"@,
        decreases parts.len() - i,
    {
        assert(pv[i as int] == parts@[i as int]@);
        if eq_str(&parts[i], "tests") {
            assert(pv.contains("tests"@));
            return true;
        }
        i += 1;
    }
    false
}

/// `s` with every `-` made `_`.
pub open spec fn underscored(s: Seq<char>) -> Seq<char> {
    replace(s, "-"@, "_"@)
}

/// Whether a completed task counts as tested: with explicit test anchors,
/// when every anchor was verified; else when some scanned test file's path
/// holds the task's slug or id (dashes read as underscores).
pub open spec fn task_verified(task: Task, anchor_ok: Seq<bool>, scanned: Seq<Seq<char>>) -> bool {
    if task.tests@.len() > 0 {
        forall|i: int| 0 <= i < anchor_ok.len() ==> #[trigger] anchor_ok[i]
    } else {
        exists|i: int|
            0 <= i < scanned.len() && (contains(
                #[trigger] scanned[i],
                underscored(slugify_spec(task.text@)),
            ) || contains(scanned[i], underscored(task.id@)))
    }
}

/// Whether a completed task counts as tested, given whether each of its
/// test anchors was verified (in order) and the scanned test file paths.
pub fn verify_task(task: &Task, anchor_ok: &[bool], scanned_files: &[String]) -> (r: bool)
    requires
        anchor_ok@.len() == task.tests@.len(),
    ensures
        r == task_verified(*task, anchor_ok@, strings_view(scanned_files@)),
{
    if task.tests.len() > 0 {
        let mut i: usize = 0;
        while i < anchor_ok.len()
            invariant
                i <= anchor_ok.len(),
                task.tests@.len() > 0,
                forall|k: int| 0 <= k < i ==> #[trigger] anchor_ok@[k],
            decreases anchor_ok.len() - i,
        {
            if !anchor_ok[i] {
                assert(!anchor_ok@[i as int]);
                return false;
            }
            i += 1;
        }
        return true;
    }
    proof {
        reveal_strlit("-");
    }
    let text = to_chars(task.text.as_str());
    let slug0 = slugify_chars(&text);
    let slug = replace_chars(&slug0, &to_chars("-"), &to_chars("_"));
    let id0 = to_chars(task.id.as_str());
    let id_slug = replace_chars(&id0, &to_chars("-"), &to_chars("_"));
    let ghost sv = strings_view(scanned_files@);
    let mut j: usize = 0;
    while j < scanned_files.len()
        invariant
            j <= scanned_files.len(),
            sv == strings_view(scanned_files@),
            task.tests@.len() == 0,
            slug@ == underscored(slugify_spec(task.text@)),
            id_slug@ == underscored(task.id@),
            forall|k: int|
                0 <= k < j ==> !(contains(#[trigger] sv[k], slug@) || contains(sv[k], id_slug@)),
        decreases scanned_files.len() - j,
    {
        assert(sv[j as int] == scanned_files@[j as int]@);
        let f = to_chars(scanned_files[j].as_str());
        if find_chars(&f, &slug).is_some() || find_chars(&f, &id_slug).is_some() {
            return true;
        }
        j += 1;
    }
    false
}

/// A task that is audited: completed, and not marked `[no-test]`.
pub open spec fn audited(t: Task) -> bool {
    t.status == TaskStatus::Complete && !contains(t.text@, "[no-test]"@)
}

/// Whether a task is audited: completed and not marked `[no-test]`.
pub fn is_audited(task: &Task) -> (r: bool)
    ensures
        r == audited(*task),
{
    if task.status != TaskStatus::Complete {
        return false;
    }
    let t = to_chars(task.text.as_str());
    find_chars(&t, &to_chars("[no-test]")).is_none()
}

/// Tasks behind references.
pub open spec fn deref_tasks(ts: Seq<&Task>) -> Seq<Task> {
    ts.map_values(|t: &Task| *t)
}

/// The number of completed tasks among the first `n`.
pub open spec fn completed_upto(ts: Seq<Task>, n: int) -> nat
    decreases n,
{
    if n <= 0 {
        0
    } else {
        completed_upto(ts, n - 1) + if ts[n - 1].status == TaskStatus::Complete { 1nat } else { 0nat }
    }
}

/// The positions, among the first `n` tasks, of the audited tasks that do
/// not count as tested, given whether each of their anchors was verified
/// and the scanned test file paths.
pub open spec fn untested_upto(ts: Seq<Task>, oks: Seq<Seq<bool>>, scanned: Seq<Seq<char>>, n: int) -> Seq<
    int,
>
    decreases n,
{
    if n <= 0 {
        Seq::empty()
    } else {
        untested_upto(ts, oks, scanned, n - 1) + if audited(ts[n - 1]) && !task_verified(
            ts[n - 1],
            oks[n - 1],
            scanned,
        ) {
            seq![n - 1]
        } else {
            Seq::empty()
        }
    }
}

/// What an audit run found: how many tasks are completed, and which of the
/// audited tasks (by position) lack a verified test.
pub struct AuditSummary {
    pub completed: usize,
    pub untested: Vec<usize>,
}

/// Positions as integers.
pub open spec fn positions(v: Seq<usize>) -> Seq<int> {
    v.map_values(|i: usize| i as int)
}

/// The audit of the tasks: the completed ones are counted, and each task
/// that is completed and not marked `[no-test]` is checked with whether
/// each of its anchors was verified (`anchor_ok[i]`, consulted only for
/// such tasks) and the scanned test file paths.
pub fn audit_summary(tasks: &[&Task], anchor_ok: &[Vec<bool>], scanned: &[String]) -> (r: AuditSummary)
    requires
        anchor_ok@.len() == tasks@.len(),
        forall|i: int|
            0 <= i < tasks@.len() && audited(*tasks@[i]) ==> (#[trigger] anchor_ok@[i])@.len()
                == tasks@[i].tests@.len(),
    ensures
        r.completed == completed_upto(deref_tasks(tasks@), tasks@.len() as int),
        positions(r.untested@) == untested_upto(
            deref_tasks(tasks@),
            anchor_ok@.map_values(|v: Vec<bool>| v@),
            strings_view(scanned@),
            tasks@.len() as int,
        ),
{
    let ghost ts = deref_tasks(tasks@);
    let ghost oks = anchor_ok@.map_values(|v: Vec<bool>| v@);
    let ghost sv = strings_view(scanned@);
    let mut completed: usize = 0;
    let mut untested: Vec<usize> = Vec::new();
    let mut i: usize = 0;
    while i < tasks.len()
        invariant
            i <= tasks.len(),
            anchor_ok@.len() == tasks@.len(),
            forall|k: int|
                0 <= k < tasks@.len() && audited(*tasks@[k]) ==> (#[trigger] anchor_ok@[k])@.len()
                    == tasks@[k].tests@.len(),
            ts == deref_tasks(tasks@),
            oks == anchor_ok@.map_values(|v: Vec<bool>| v@),
            sv == strings_view(scanned@),
            completed == completed_upto(ts, i as int),
            completed <= i,
            positions(untested@) == untested_upto(ts, oks, sv, i as int),
        decreases tasks.len() - i,
    {
        let t = tasks[i];
        assert(ts[i as int] == *t);
        if t.status == TaskStatus::Complete {
            completed += 1;
        }
        let ghost u0 = positions(untested@);
        if is_audited(t) {
            assert(oks[i as int] == anchor_ok@[i as int]@);
            if !verify_task(t, anchor_ok[i].as_slice(), scanned) {
                untested.push(i);
                assert(positions(untested@) =~= u0.push(i as int));
            } else {
                assert(u0 + Seq::<int>::empty() =~= u0);
            }
        } else {
            assert(u0 + Seq::<int>::empty() =~= u0);
        }
        i += 1;
    }
    AuditSummary { completed, untested }
}

/// Whether a test anchor holds, for an anchor whose file exists: without a
/// function part it does; with one, when the file could be read and its
/// text holds the function part, trimmed.
pub open spec fn anchor_holds_spec(func: Option<Seq<char>>, content: Option<Seq<char>>) -> bool {
    match func {
        None => true,
        Some(f) => content matches Some(c) && contains(c, trim(f)),
    }
}

/// Whether the anchor with function part `func` holds in an existing file
/// with text `content` (`None` where it could not be read).
pub fn anchor_holds(func: Option<&str>, content: Option<&str>) -> (r: bool)
    ensures
        r == anchor_holds_spec(
            match func {
                Some(f) => Some(f@),
                None => None,
            },
            match content {
                Some(c) => Some(c@),
                None => None,
            },
        ),
{
    match func {
        None => true,
        Some(f) => match content {
            Some(c) => {
                let cv = to_chars(c);
                let fv = trim_chars(&to_chars(f));
                find_chars(&cv, &fv).is_some()
            },
            None => false,
        },
    }
}

} // verus!
