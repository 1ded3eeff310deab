//! Pure parts of the legacy roadmap commands: which tasks a listing shows,
//! and the file a new roadmap starts from.
use vstd::prelude::*;
use crate::roadmap::types::{ApplyResult, CommandBatch, TaskStatus};
use crate::text::{append_str, from_chars};

verus! {

/// A roadmap subcommand, with its file paths as text.
#[derive(Debug, Clone)]
pub enum RoadmapCommand {
    Init { output: String, name: Option<String> },
    Prompt { file: String, full: bool, examples: bool, stdout: bool },
    Apply { file: String, dry_run: bool, stdin: bool, verbose: bool },
    Show { file: String, format: String },
    Tasks { file: String, pending: bool, complete: bool },
    Audit { file: String, strict: bool },
}

/// A task that the listing shows: only pending ones with `--pending`
/// alone, only complete ones with `--complete` alone, else all.
pub open spec fn shows_task(status: TaskStatus, pending: bool, complete: bool) -> bool {
    if pending && !complete {
        status == TaskStatus::Pending
    } else if !pending && complete {
        status == TaskStatus::Complete
    } else {
        true
    }
}

/// Whether the task listing shows a task with this status.
pub fn should_show_task(status: TaskStatus, pending: bool, complete: bool) -> (r: bool)
    ensures
        r == shows_task(status, pending, complete),
{
    match (pending, complete) {
        (true, false) => status == TaskStatus::Pending,
        (false, true) => status == TaskStatus::Complete,
        _ => true,
    }
}

/// What `roadmap apply` does with a parsed batch: stop with an error when
/// it holds no command, stop after reporting it on a dry run, else apply
/// it.
#[derive(Debug, Clone, Copy, PartialEq, Eq, Structural)]
pub enum ApplyStep {
    NoCommands,
    DryRun,
    Apply,
}

/// The step for a batch: no command comes first, then the dry run.
pub open spec fn apply_step_spec(commands: nat, dry_run: bool) -> ApplyStep {
    if commands == 0 {
        ApplyStep::NoCommands
    } else if dry_run {
        ApplyStep::DryRun
    } else {
        ApplyStep::Apply
    }
}

/// What `roadmap apply` does with the batch `batch`.
pub fn apply_step(batch: &CommandBatch, dry_run: bool) -> (r: ApplyStep)
    ensures
        r == apply_step_spec(batch.commands@.len(), dry_run),
{
    if batch.commands.len() == 0 {
        ApplyStep::NoCommands
    } else if dry_run {
        ApplyStep::DryRun
    } else {
        ApplyStep::Apply
    }
}

/// The roadmap a new project starts from.
pub open spec fn template_text(name: Seq<char>) -> Seq<char> {
    "# "@ + name + " Roadmap\n\n## v0.1.0\n\n- [ ] Init\n\n## v0.2.0\n\n## v0.3.0\n"@
}

/// The roadmap a new project named `name` starts from.
pub fn template(name: &str) -> (r: String)
    ensures
        r@ == template_text(name@),
{
    let mut out: Vec<char> = Vec::new();
    append_str(&mut out, "# ");
    append_str(&mut out, name);
    append_str(&mut out, " Roadmap\n\n## v0.1.0\n\n- [ ] Init\n\n## v0.2.0\n\n## v0.3.0\n");
    from_chars(&out)
}

/// The roadmap is saved after a batch when some command succeeded.
pub open spec fn saves_after(rs: Seq<ApplyResult>) -> bool {
    exists|i: int| 0 <= i < rs.len() && #[trigger] rs[i] is Success
}

/// Whether the roadmap is written back after a batch with these results.
pub fn should_save(results: &[ApplyResult]) -> (r: bool)
    ensures
        r == saves_after(results@),
{
    let mut i: usize = 0;
    while i < results.len()
        invariant
            i <= results.len(),
            forall|k: int| 0 <= k < i ==> !(#[trigger] results@[k] is Success),
        decreases results.len() - i,
    {
        if let ApplyResult::Success(_) = &results[i] {
            return true;
        }
        i += 1;
    }
    false
}

} // verus!
