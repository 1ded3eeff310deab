//! The task store (v2 roadmap): tasks kept as data, edited by commands and
//! rendered to Markdown.
pub mod types;
pub mod store;
pub mod generator;
pub mod report;

use vstd::prelude::*;
use crate::text::{append_str, from_chars};
use crate::error::SlopChopError;
use crate::roadmap_v2::report::{command_text, debug_command};
use crate::roadmap_v2::store::apply_spec;
use crate::roadmap_v2::types::{RoadmapCommand, RoadmapCommandView, TaskStore, TaskView};

verus! {

/// The tasks after one command: unchanged when it fails.
pub open spec fn step_tasks(ts: Seq<TaskView>, c: RoadmapCommandView) -> Seq<TaskView> {
    match apply_spec(ts, c) {
        Ok(n) => n,
        Err(_) => ts,
    }
}

/// The tasks after the commands `cs`, applied in order.
pub open spec fn tasks_after(ts: Seq<TaskView>, cs: Seq<RoadmapCommandView>) -> Seq<TaskView>
    decreases cs.len(),
{
    if cs.len() == 0 {
        ts
    } else {
        step_tasks(tasks_after(ts, cs.drop_last()), cs.last())
    }
}

/// The views of a sequence of commands.
pub open spec fn command_views(cs: Seq<RoadmapCommand>) -> Seq<RoadmapCommandView> {
    cs.map_values(|c: RoadmapCommand| c@)
}

/// Number of successes in a list of outcomes.
pub open spec fn count_ok(rs: Seq<Result<(), SlopChopError>>) -> nat
    decreases rs.len(),
{
    if rs.len() == 0 {
        0
    } else {
        count_ok(rs.drop_last()) + if rs.last() is Ok { 1nat } else { 0nat }
    }
}

/// The report line of one command: `Applied: <command>`, or
/// `Failed: <command> - Generic error: <message>`.
pub open spec fn result_line(c: RoadmapCommandView, e: Result<Seq<TaskView>, Seq<char>>) -> Seq<char> {
    match e {
        Ok(_) => "Applied: "@ + debug_command(c),
        Err(m) => "Failed: "@ + debug_command(c) + " - "@ + "Generic error: "@ + m,
    }
}

/// What applying a batch of commands gave: one outcome and one report line
/// per command, and the number that succeeded (the store is saved only
/// when that is not zero).
pub struct InputOutcome {
    pub results: Vec<Result<(), SlopChopError>>,
    pub lines: Vec<String>,
    pub applied: usize,
}

/// Applies `commands` to `store` in order. A failing command leaves the
/// store as it was and the next ones still run.
pub fn handle_input(store: &mut TaskStore, commands: Vec<RoadmapCommand>) -> (r: InputOutcome)
    ensures
        final(store).task_list() == tasks_after(old(store).task_list(), command_views(commands@)),
        final(store).meta == old(store).meta,
        final(store).sections == old(store).sections,
        r.results.len() == commands.len(),
        forall|i: int|
            0 <= i < commands.len() ==> match apply_spec(
                tasks_after(old(store).task_list(), command_views(commands@).take(i)),
                commands@[i]@,
            ) {
                Ok(_) => #[trigger] r.results@[i] is Ok,
                Err(m) => r.results@[i] matches Err(SlopChopError::Other(s)) && s@ == m,
            },
        r.lines.len() == commands.len(),
        forall|i: int|
            0 <= i < commands.len() ==> (#[trigger] r.lines@[i])@ == result_line(
                commands@[i]@,
                apply_spec(
                    tasks_after(old(store).task_list(), command_views(commands@).take(i)),
                    commands@[i]@,
                ),
            ),
        r.applied == count_ok(r.results@),
{
    let ghost ts0 = store.task_list();
    let ghost cs = command_views(commands@);
    let mut results: Vec<Result<(), SlopChopError>> = Vec::new();
    let mut lines: Vec<String> = Vec::new();
    let mut applied: usize = 0;
    let mut i: usize = 0;
    let n = commands.len();
    let mut rest = commands;
    proof {
        assert(rest@ =~= cs_source(commands@, 0));
    }
    while i < n
        invariant
            i <= n == commands@.len(),
            cs == command_views(commands@),
            rest@ == cs_source(commands@, i as int),
            results.len() == i,
            lines.len() == i,
            forall|j: int|
                0 <= j < i ==> (#[trigger] lines@[j])@ == result_line(
                    commands@[j]@,
                    apply_spec(tasks_after(ts0, cs.take(j)), commands@[j]@),
                ),
            applied <= i,
            applied == count_ok(results@),
            store.task_list() == tasks_after(ts0, cs.take(i as int)),
            store.meta == old(store).meta,
            store.sections == old(store).sections,
            ts0 == old(store).task_list(),
            forall|j: int|
                0 <= j < i ==> match apply_spec(tasks_after(ts0, cs.take(j)), commands@[j]@) {
                    Ok(_) => #[trigger] results@[j] is Ok,
                    Err(m) => results@[j] matches Err(SlopChopError::Other(s)) && s@ == m,
                },
        decreases n - i,
    {
        let cmd = rest.remove(0);
        assert(cmd@ == cs[i as int]);
        let text = command_text(&cmd);
        let res = store.apply(cmd);
        let ok = res.is_ok();
        let mut line: Vec<char> = Vec::new();
        match &res {
            Ok(()) => {
                append_str(&mut line, "Applied: ");
                append_str(&mut line, text.as_str());
            },
            Err(e) => {
                append_str(&mut line, "Failed: ");
                append_str(&mut line, text.as_str());
                append_str(&mut line, " - ");
                let et = e.to_string();
                append_str(&mut line, et.as_str());
            },
        }
        let ghost l0 = lines@;
        lines.push(from_chars(&line));
        proof {
            assert(lines@.drop_last() =~= l0);
        }
        let ghost r0 = results@;
        results.push(res);
        if ok {
            applied += 1;
        }
        proof {
            assert(cs.take(i + 1).drop_last() =~= cs.take(i as int));
            assert(results@.drop_last() =~= r0);
            assert(rest@ =~= cs_source(commands@, i + 1));
        }
        i += 1;
    }
    assert(cs.take(n as int) =~= cs);
    InputOutcome { results, lines, applied }
}

/// The commands from position `i` on.
spec fn cs_source(cs: Seq<RoadmapCommand>, i: int) -> Seq<RoadmapCommand> {
    cs.subrange(i, cs.len() as int)
}

} // verus!
