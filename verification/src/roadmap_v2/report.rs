//! How a task-store command is written in the report of a batch: in the
//! form `{:?}` gives it, with strings quoted and `\`, `"`, line feeds,
//! carriage returns, tabs and NULs escaped.
use vstd::prelude::*;
use crate::roadmap_v2::types::{
    RoadmapCommand, RoadmapCommandView, Task, TaskStatus, TaskUpdate, TaskUpdateView, TaskView,
};
use crate::text::{append_str, from_chars};

verus! {

/// One character inside a quoted string.
pub open spec fn escape_char(c: char) -> Seq<char> {
    if c == '\\' {
        seq!['\\', '\\']
    } else if c == '"' {
        seq!['\\', '"']
    } else if c == '\n' {
        seq!['\\', 'n']
    } else if c == '\r' {
        seq!['\\', 'r']
    } else if c == '\t' {
        seq!['\\', 't']
    } else if c == '\0' {
        seq!['\\', '0']
    } else {
        seq![c]
    }
}

/// The characters of `s`, each escaped.
pub open spec fn escaped(s: Seq<char>) -> Seq<char>
    decreases s.len(),
{
    if s.len() == 0 {
        Seq::empty()
    } else {
        escaped(s.drop_last()) + escape_char(s.last())
    }
}

/// A string between double quotes, escaped.
pub open spec fn debug_str(s: Seq<char>) -> Seq<char> {
    seq!['"'] + escaped(s) + seq!['"']
}

/// An optional string: `None` or `Some("…")`.
pub open spec fn debug_opt(o: Option<Seq<char>>) -> Seq<char> {
    match o {
        None => "None"@,
        Some(s) => "Some("@ + debug_str(s) + ")"@,
    }
}

/// The name of a status.
pub open spec fn debug_status(s: TaskStatus) -> Seq<char> {
    match s {
        TaskStatus::Pending => "Pending"@,
        TaskStatus::Done => "Done"@,
        TaskStatus::NoTest => "NoTest"@,
    }
}

/// A task, field by field.
pub open spec fn debug_task(t: TaskView) -> Seq<char> {
    "Task { id: "@ + debug_str(t.id) + ", text: "@ + debug_str(t.text) + ", status: "@
        + debug_status(t.status) + ", section: "@ + debug_str(t.section) + ", group: "@ + debug_opt(
        t.group,
    ) + ", test: "@ + debug_opt(t.test) + " }"@
}

/// The fields of an update.
pub open spec fn debug_update(f: TaskUpdateView) -> Seq<char> {
    "TaskUpdate { text: "@ + debug_opt(f.text) + ", test: "@ + debug_opt(f.test) + ", section: "@
        + debug_opt(f.section) + ", group: "@ + debug_opt(f.group) + " }"@
}

/// A command.
pub open spec fn debug_command(c: RoadmapCommandView) -> Seq<char> {
    match c {
        RoadmapCommandView::Check { id } => "Check { id: "@ + debug_str(id) + " }"@,
        RoadmapCommandView::Uncheck { id } => "Uncheck { id: "@ + debug_str(id) + " }"@,
        RoadmapCommandView::Add(t) => "Add("@ + debug_task(t) + ")"@,
        RoadmapCommandView::Update { id, fields } => "Update { id: "@ + debug_str(id)
            + ", fields: "@ + debug_update(fields) + " }"@,
        RoadmapCommandView::Delete { id } => "Delete { id: "@ + debug_str(id) + " }"@,
    }
}

fn push_escaped(out: &mut Vec<char>, s: &str)
    ensures
        final(out)@ == old(out)@ + escaped(s@),
{
    let v = crate::text::to_chars(s);
    let ghost o0 = out@;
    let mut i: usize = 0;
    while i < v.len()
        invariant
            i <= v.len(),
            v@ == s@,
            out@ == o0 + escaped(v@.take(i as int)),
        decreases v.len() - i,
    {
        let c = v[i];
        proof {
            assert(v@.take(i + 1).drop_last() =~= v@.take(i as int));
            assert(v@.take(i + 1).last() == c);
        }
        let ghost before = out@;
        if c == '\\' {
            out.push('\\');
            out.push('\\');
        } else if c == '"' {
            out.push('\\');
            out.push('"');
        } else if c == '\n' {
            out.push('\\');
            out.push('n');
        } else if c == '\r' {
            out.push('\\');
            out.push('r');
        } else if c == '\t' {
            out.push('\\');
            out.push('t');
        } else if c == '\0' {
            out.push('\\');
            out.push('0');
        } else {
            out.push(c);
        }
        assert(out@ =~= before + escape_char(c));
        assert(out@ =~= o0 + escaped(v@.take(i + 1)));
        i += 1;
    }
    assert(v@.take(v.len() as int) =~= v@);
}

fn push_debug_str(out: &mut Vec<char>, s: &String)
    ensures
        final(out)@ == old(out)@ + debug_str(s@),
{
    let ghost o0 = out@;
    out.push('"');
    push_escaped(out, s.as_str());
    out.push('"');
    assert(out@ =~= o0 + debug_str(s@));
}

fn push_debug_opt(out: &mut Vec<char>, o: &Option<String>)
    ensures
        final(out)@ == old(out)@ + debug_opt(crate::roadmap_v2::types::opt_view(*o)),
{
    let ghost o0 = out@;
    match o {
        None => append_str(out, "None"),
        Some(s) => {
            append_str(out, "Some(");
            push_debug_str(out, s);
            append_str(out, ")");
            assert(out@ =~= o0 + debug_opt(crate::roadmap_v2::types::opt_view(*o)));
        },
    }
}

fn push_debug_task(out: &mut Vec<char>, t: &Task)
    ensures
        final(out)@ == old(out)@ + debug_task(t@),
{
    let ghost o0 = out@;
    append_str(out, "Task { id: ");
    push_debug_str(out, &t.id);
    append_str(out, ", text: ");
    push_debug_str(out, &t.text);
    append_str(out, ", status: ");
    match t.status {
        TaskStatus::Pending => append_str(out, "Pending"),
        TaskStatus::Done => append_str(out, "Done"),
        TaskStatus::NoTest => append_str(out, "NoTest"),
    }
    append_str(out, ", section: ");
    push_debug_str(out, &t.section);
    append_str(out, ", group: ");
    push_debug_opt(out, &t.group);
    append_str(out, ", test: ");
    push_debug_opt(out, &t.test);
    append_str(out, " }");
    assert(out@ =~= o0 + debug_task(t@));
}

fn push_debug_update(out: &mut Vec<char>, f: &TaskUpdate)
    ensures
        final(out)@ == old(out)@ + debug_update(f@),
{
    let ghost o0 = out@;
    append_str(out, "TaskUpdate { text: ");
    push_debug_opt(out, &f.text);
    append_str(out, ", test: ");
    push_debug_opt(out, &f.test);
    append_str(out, ", section: ");
    push_debug_opt(out, &f.section);
    append_str(out, ", group: ");
    push_debug_opt(out, &f.group);
    append_str(out, " }");
    assert(out@ =~= o0 + debug_update(f@));
}

/// A command as the batch report writes it.
pub fn command_text(c: &RoadmapCommand) -> (r: String)
    ensures
        r@ == debug_command(c@),
{
    let mut out: Vec<char> = Vec::new();
    match c {
        RoadmapCommand::Check { id } => {
            append_str(&mut out, "Check { id: ");
            push_debug_str(&mut out, id);
            append_str(&mut out, " }");
        },
        RoadmapCommand::Uncheck { id } => {
            append_str(&mut out, "Uncheck { id: ");
            push_debug_str(&mut out, id);
            append_str(&mut out, " }");
        },
        RoadmapCommand::Add(t) => {
            append_str(&mut out, "Add(");
            push_debug_task(&mut out, t);
            append_str(&mut out, ")");
        },
        RoadmapCommand::Update { id, fields } => {
            append_str(&mut out, "Update { id: ");
            push_debug_str(&mut out, id);
            append_str(&mut out, ", fields: ");
            push_debug_update(&mut out, fields);
            append_str(&mut out, " }");
        },
        RoadmapCommand::Delete { id } => {
            append_str(&mut out, "Delete { id: ");
            push_debug_str(&mut out, id);
            append_str(&mut out, " }");
        },
    }
    assert(out@ =~= debug_command(c@));
    from_chars(&out)
}

} // verus!
