//! Applies a list of commands to a legacy roadmap, one after the other,
//! and reports on each.
use vstd::prelude::*;
use crate::roadmap::cmd_handlers::{
    add_edit, chain_unsupported_msg, check_edit, delete_edit, handle_add, handle_add_section,
    handle_add_subsection, handle_chain, handle_check, handle_delete, handle_move, handle_note,
    handle_uncheck, handle_update, move_unsupported_msg, note_edit, section_edit, subsection_edit,
    uncheck_edit, update_edit,
};
use crate::roadmap::cmd_helpers::same_except_raw;
use crate::roadmap::cmd_parser::command_views;
use crate::roadmap::types::{
    command_text, ApplyResult, ApplyResultView, Command, CommandView, Roadmap,
};
use crate::text::{append, append_str, from_chars, to_chars};

verus! {

/// The error of a command that a legacy roadmap does not run.
pub open spec fn unsupported_msg() -> Seq<char> {
    "Command not supported"@
}

/// What one command does to the Markdown: the new text, or the message it
/// fails with.
pub open spec fn command_edit(raw: Seq<char>, c: CommandView) -> Result<Seq<char>, Seq<char>> {
    match c {
        CommandView::Check { path } => check_edit(raw, path),
        CommandView::Uncheck { path } => uncheck_edit(raw, path),
        CommandView::Delete { path } => delete_edit(raw, path),
        CommandView::Add { parent, text, after } => add_edit(raw, parent, text, after),
        CommandView::AddSection { heading } => Ok(section_edit(raw, heading)),
        CommandView::Update { path, text } => update_edit(raw, path, text),
        CommandView::Note { path, note } => note_edit(raw, path, note),
        CommandView::AddSubsection { heading, .. } => Ok(subsection_edit(raw, heading)),
        CommandView::Move { .. } => Err(move_unsupported_msg()),
        CommandView::Chain { .. } => Err(chain_unsupported_msg()),
        CommandView::ReplaceSection { .. } => Err(unsupported_msg()),
    }
}

/// The Markdown after one command: unchanged when the command fails.
pub open spec fn step_raw(raw: Seq<char>, c: CommandView) -> Seq<char> {
    match command_edit(raw, c) {
        Ok(r) => r,
        Err(_) => raw,
    }
}

/// The report of one command: `Applied <cmd>` or `Failed <cmd>: <error>`.
pub open spec fn step_report(raw: Seq<char>, c: CommandView) -> ApplyResultView {
    match command_edit(raw, c) {
        Ok(_) => ApplyResultView::Success("Applied "@ + command_text(c)),
        Err(e) => ApplyResultView::Error("Failed "@ + command_text(c) + ": "@ + e),
    }
}

/// The Markdown after the commands `cs`, applied in order.
pub open spec fn raw_after(raw: Seq<char>, cs: Seq<CommandView>) -> Seq<char>
    decreases cs.len(),
{
    if cs.len() == 0 {
        raw
    } else {
        step_raw(raw_after(raw, cs.drop_last()), cs.last())
    }
}

fn report(cmd: &Command, res: Result<(), String>) -> (r: ApplyResult)
    ensures
        r@ == (match res {
            Ok(_) => ApplyResultView::Success("Applied "@ + command_text(cmd@)),
            Err(e) => ApplyResultView::Error("Failed "@ + command_text(cmd@) + ": "@ + e@),
        }),
{
    let text = to_chars(cmd.to_string().as_str());
    match res {
        Ok(_) => {
            let mut out: Vec<char> = Vec::new();
            append_str(&mut out, "Applied ");
            append(&mut out, &text);
            ApplyResult::Success(from_chars(&out))
        },
        Err(e) => {
            let mut out: Vec<char> = Vec::new();
            append_str(&mut out, "Failed ");
            append(&mut out, &text);
            append_str(&mut out, ": ");
            append_str(&mut out, e.as_str());
            ApplyResult::Error(from_chars(&out))
        },
    }
}

/// Runs one command on the roadmap.
fn run_single(roadmap: &mut Roadmap, cmd: &Command) -> (r: ApplyResult)
    ensures
        final(roadmap).raw@ == step_raw(old(roadmap).raw@, cmd@),
        r@ == step_report(old(roadmap).raw@, cmd@),
        same_except_raw(&*final(roadmap), &*old(roadmap)),
{
    let res = match cmd {
        Command::Check { path } => handle_check(roadmap, path.as_str()),
        Command::Uncheck { path } => handle_uncheck(roadmap, path.as_str()),
        Command::Delete { path } => handle_delete(roadmap, path.as_str()),
        Command::Add { parent, text, after } => {
            let a = match after {
                Some(s) => Some(s.as_str()),
                None => None,
            };
            handle_add(roadmap, parent.as_str(), text.as_str(), a)
        },
        Command::AddSection { heading } => handle_add_section(roadmap, heading.as_str()),
        _ => {
            return run_single_ext(roadmap, cmd);
        },
    };
    report(cmd, res)
}

/// Runs the commands that `run_single` hands on.
fn run_single_ext(roadmap: &mut Roadmap, cmd: &Command) -> (r: ApplyResult)
    requires
        !(cmd is Check || cmd is Uncheck || cmd is Delete || cmd is Add || cmd is AddSection),
    ensures
        final(roadmap).raw@ == step_raw(old(roadmap).raw@, cmd@),
        r@ == step_report(old(roadmap).raw@, cmd@),
        same_except_raw(&*final(roadmap), &*old(roadmap)),
{
    let res = match cmd {
        Command::Update { path, text } => handle_update(roadmap, path.as_str(), text.as_str()),
        Command::Note { path, note } => handle_note(roadmap, path.as_str(), note.as_str()),
        Command::AddSubsection { parent, heading } => {
            handle_add_subsection(roadmap, parent.as_str(), heading.as_str())
        },
        Command::Move { path, position } => {
            handle_move(roadmap, path.as_str(), position.duplicate())
        },
        Command::Chain { parent, items } => {
            handle_chain(roadmap, parent.as_str(), items.clone())
        },
        _ => Err("Command not supported".to_owned()),
    };
    report(cmd, res)
}

/// Applies `cmds` in order; each reports on itself, and a failed command
/// leaves the roadmap as it was.
pub fn run(roadmap: &mut Roadmap, cmds: &[Command]) -> (r: Vec<ApplyResult>)
    ensures
        final(roadmap).raw@ == raw_after(old(roadmap).raw@, command_views(cmds@)),
        r.len() == cmds.len(),
        forall|i: int|
            0 <= i < cmds.len() ==> #[trigger] r@[i]@ == step_report(
                raw_after(old(roadmap).raw@, command_views(cmds@).take(i)),
                cmds@[i]@,
            ),
        same_except_raw(&*final(roadmap), &*old(roadmap)),
{
    let ghost raw0 = roadmap.raw@;
    let ghost cs = command_views(cmds@);
    let mut out: Vec<ApplyResult> = Vec::new();
    let mut i: usize = 0;
    while i < cmds.len()
        invariant
            i <= cmds.len(),
            cs == command_views(cmds@),
            out.len() == i,
            roadmap.raw@ == raw_after(raw0, cs.take(i as int)),
            forall|j: int|
                0 <= j < i ==> #[trigger] out@[j]@ == step_report(
                    raw_after(raw0, cs.take(j)),
                    cmds@[j]@,
                ),
            same_except_raw(&*roadmap, &*old(roadmap)),
            raw0 == old(roadmap).raw@,
        decreases cmds.len() - i,
    {
        let ghost before = roadmap.raw@;
        let res = run_single(roadmap, &cmds[i]);
        out.push(res);
        proof {
            assert(cs.take(i + 1).drop_last() =~= cs.take(i as int));
            assert(cs[i as int] == cmds@[i as int]@);
        }
        i += 1;
    }
    assert(cs.take(cmds.len() as int) =~= cs);
    out
}

} // verus!
