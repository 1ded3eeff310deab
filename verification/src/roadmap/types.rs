//! Data types of the legacy roadmap and of its command language.
use vstd::prelude::*;
use crate::text::{append_str, from_chars};

verus! {

/// A parsed roadmap document; `raw` keeps the Markdown text itself.
#[derive(Debug)]
pub struct Roadmap {
    pub path: Option<String>,
    pub title: String,
    pub sections: Vec<Section>,
    pub raw: String,
}

/// One heading of the roadmap with the tasks listed under it.
#[derive(Debug)]
pub struct Section {
    pub id: String,
    pub heading: String,
    pub level: u8,
    pub theme: Option<String>,
    pub tasks: Vec<Task>,
    pub subsections: Vec<Section>,
    pub raw_content: String,
    pub line_start: usize,
    pub line_end: usize,
}

/// One checkbox item of the roadmap.
#[derive(Debug)]
pub struct Task {
    pub id: String,
    pub path: String,
    pub text: String,
    pub status: TaskStatus,
    pub indent: u8,
    pub line: usize,
    pub children: Vec<Task>,
    pub tests: Vec<String>,
}

/// Whether a task is ticked.
#[derive(Debug, Clone, Copy, PartialEq, Eq, Structural)]
pub enum TaskStatus {
    Pending,
    Complete,
}

/// Task counts of a roadmap.
#[derive(Debug, Clone)]
pub struct RoadmapStats {
    pub total: usize,
    pub complete: usize,
    pub pending: usize,
}

/// A single roadmap command.
#[derive(Debug, Clone, PartialEq)]
pub enum Command {
    Check { path: String },
    Uncheck { path: String },
    Add { parent: String, text: String, after: Option<String> },
    AddSection { heading: String },
    AddSubsection { parent: String, heading: String },
    Chain { parent: String, items: Vec<String> },
    Delete { path: String },
    Update { path: String, text: String },
    Note { path: String, note: String },
    Move { path: String, position: MovePosition },
    ReplaceSection { id: String, content: String },
}

/// Where a `MOVE` command puts its task.
#[derive(Debug, Clone, PartialEq)]
pub enum MovePosition {
    After(String),
    Before(String),
    EndOfSection(String),
}

/// A batch of commands parsed from free-form input, with the lines that failed.
#[derive(Debug, Clone)]
pub struct CommandBatch {
    pub commands: Vec<Command>,
    pub errors: Vec<String>,
}

/// Result of applying one command.
#[derive(Debug, Clone, PartialEq)]
pub enum ApplyResult {
    Success(String),
    NotFound(String),
    Error(String),
}

// ---------------------------------------------------------------------
// Views
// ---------------------------------------------------------------------

/// Mathematical value of a `MovePosition`.
pub enum MovePositionView {
    After(Seq<char>),
    Before(Seq<char>),
    EndOfSection(Seq<char>),
}

/// Mathematical value of a `Command`.
pub enum CommandView {
    Check { path: Seq<char> },
    Uncheck { path: Seq<char> },
    Add { parent: Seq<char>, text: Seq<char>, after: Option<Seq<char>> },
    AddSection { heading: Seq<char> },
    AddSubsection { parent: Seq<char>, heading: Seq<char> },
    Chain { parent: Seq<char>, items: Seq<Seq<char>> },
    Delete { path: Seq<char> },
    Update { path: Seq<char>, text: Seq<char> },
    Note { path: Seq<char>, note: Seq<char> },
    Move { path: Seq<char>, position: MovePositionView },
    ReplaceSection { id: Seq<char>, content: Seq<char> },
}

/// Mathematical value of an `ApplyResult`.
pub enum ApplyResultView {
    Success(Seq<char>),
    NotFound(Seq<char>),
    Error(Seq<char>),
}

impl View for ApplyResult {
    type V = ApplyResultView;

    open spec fn view(&self) -> ApplyResultView {
        match self {
            ApplyResult::Success(m) => ApplyResultView::Success(m@),
            ApplyResult::NotFound(m) => ApplyResultView::NotFound(m@),
            ApplyResult::Error(m) => ApplyResultView::Error(m@),
        }
    }
}

/// The view of an optional string.
pub open spec fn opt_view(o: Option<String>) -> Option<Seq<char>> {
    match o {
        Some(s) => Some(s@),
        None => None,
    }
}

/// The views of a sequence of strings.
pub open spec fn string_views(v: Seq<String>) -> Seq<Seq<char>> {
    v.map_values(|x: String| x@)
}

impl View for MovePosition {
    type V = MovePositionView;

    open spec fn view(&self) -> MovePositionView {
        match self {
            MovePosition::After(t) => MovePositionView::After(t@),
            MovePosition::Before(t) => MovePositionView::Before(t@),
            MovePosition::EndOfSection(t) => MovePositionView::EndOfSection(t@),
        }
    }
}

impl View for Command {
    type V = CommandView;

    open spec fn view(&self) -> CommandView {
        match self {
            Command::Check { path } => CommandView::Check { path: path@ },
            Command::Uncheck { path } => CommandView::Uncheck { path: path@ },
            Command::Add { parent, text, after } => CommandView::Add {
                parent: parent@,
                text: text@,
                after: opt_view(*after),
            },
            Command::AddSection { heading } => CommandView::AddSection { heading: heading@ },
            Command::AddSubsection { parent, heading } => CommandView::AddSubsection {
                parent: parent@,
                heading: heading@,
            },
            Command::Chain { parent, items } => CommandView::Chain {
                parent: parent@,
                items: string_views(items@),
            },
            Command::Delete { path } => CommandView::Delete { path: path@ },
            Command::Update { path, text } => CommandView::Update { path: path@, text: text@ },
            Command::Note { path, note } => CommandView::Note { path: path@, note: note@ },
            Command::Move { path, position } => CommandView::Move {
                path: path@,
                position: position@,
            },
            Command::ReplaceSection { id, content } => CommandView::ReplaceSection {
                id: id@,
                content: content@,
            },
        }
    }
}

// ---------------------------------------------------------------------
// Rendering
// ---------------------------------------------------------------------

/// Text of a move position: `AFTER t`, `BEFORE t` or `TO s`.
pub open spec fn move_position_text(p: MovePositionView) -> Seq<char> {
    match p {
        MovePositionView::After(t) => "AFTER "@ + t,
        MovePositionView::Before(t) => "BEFORE "@ + t,
        MovePositionView::EndOfSection(s) => "TO "@ + s,
    }
}

/// `s` between double quotes.
pub open spec fn quoted(s: Seq<char>) -> Seq<char> {
    seq!['"'] + s + seq!['"']
}

/// Text of a command, as it is printed in reports.
pub open spec fn command_text(c: CommandView) -> Seq<char> {
    match c {
        CommandView::Check { path } => "CHECK "@ + path,
        CommandView::Uncheck { path } => "UNCHECK "@ + path,
        CommandView::Delete { path } => "DELETE "@ + path,
        CommandView::AddSection { heading } => "SECTION "@ + quoted(heading),
        CommandView::ReplaceSection { id, .. } => "REPLACE "@ + id,
        _ => complex_command_text(c),
    }
}

/// Text of the commands that carry quoted content; empty for the others.
pub open spec fn complex_command_text(c: CommandView) -> Seq<char> {
    match c {
        CommandView::Update { path, text } => "UPDATE "@ + path + " "@ + quoted(text),
        CommandView::Add { parent, text, .. } => "ADD "@ + parent + " "@ + quoted(text),
        CommandView::Note { path, note } => "NOTE "@ + path + " "@ + quoted(note),
        CommandView::Move { path, position } => "MOVE "@ + path + " "@ + move_position_text(
            position,
        ),
        _ => Seq::empty(),
    }
}

/// Text of an apply result.
pub open spec fn apply_result_text(r: ApplyResult) -> Seq<char> {
    match r {
        ApplyResult::Success(m) => "✓ "@ + m@,
        ApplyResult::NotFound(m) => "✗ Not found: "@ + m@,
        ApplyResult::Error(m) => "✗ Error: "@ + m@,
    }
}

/// Appends `"` + `s` + `"` to `out`.
fn push_quoted(out: &mut Vec<char>, s: &String)
    ensures
        final(out)@ == old(out)@ + quoted(s@),
{
    out.push('"');
    append_str(out, s.as_str());
    out.push('"');
    assert(final(out)@ =~= old(out)@ + quoted(s@));
}

impl MovePosition {
    /// `AFTER t`, `BEFORE t` or `TO s`.
    pub fn to_string(&self) -> (r: String)
        ensures
            r@ == move_position_text(self@),
    {
        let mut out: Vec<char> = Vec::new();
        match self {
            MovePosition::After(t) => {
                append_str(&mut out, "AFTER ");
                append_str(&mut out, t.as_str());
            },
            MovePosition::Before(t) => {
                append_str(&mut out, "BEFORE ");
                append_str(&mut out, t.as_str());
            },
            MovePosition::EndOfSection(s) => {
                append_str(&mut out, "TO ");
                append_str(&mut out, s.as_str());
            },
        }
        from_chars(&out)
    }

    /// A copy of this position.
    pub fn duplicate(&self) -> (r: MovePosition)
        ensures
            r@ == self@,
    {
        match self {
            MovePosition::After(t) => MovePosition::After(t.clone()),
            MovePosition::Before(t) => MovePosition::Before(t.clone()),
            MovePosition::EndOfSection(t) => MovePosition::EndOfSection(t.clone()),
        }
    }
}

/// Text of the commands that carry quoted content.
fn format_complex_command(cmd: &Command) -> (r: String)
    ensures
        r@ == complex_command_text(cmd@),
{
    let mut out: Vec<char> = Vec::new();
    match cmd {
        Command::Update { path, text } => {
            append_str(&mut out, "UPDATE ");
            append_str(&mut out, path.as_str());
            append_str(&mut out, " ");
            push_quoted(&mut out, text);
        },
        Command::Add { parent, text, .. } => {
            append_str(&mut out, "ADD ");
            append_str(&mut out, parent.as_str());
            append_str(&mut out, " ");
            push_quoted(&mut out, text);
        },
        Command::Note { path, note } => {
            append_str(&mut out, "NOTE ");
            append_str(&mut out, path.as_str());
            append_str(&mut out, " ");
            push_quoted(&mut out, note);
        },
        Command::Move { path, position } => {
            append_str(&mut out, "MOVE ");
            append_str(&mut out, path.as_str());
            append_str(&mut out, " ");
            let p = position.to_string();
            append_str(&mut out, p.as_str());
        },
        _ => {},
    }
    proof {
        assert(out@ =~= complex_command_text(cmd@));
    }
    from_chars(&out)
}

impl Command {
    /// Text of the command, as it is printed in reports.
    pub fn to_string(&self) -> (r: String)
        ensures
            r@ == command_text(self@),
    {
        let mut out: Vec<char> = Vec::new();
        match self {
            Command::Check { path } => {
                append_str(&mut out, "CHECK ");
                append_str(&mut out, path.as_str());
            },
            Command::Uncheck { path } => {
                append_str(&mut out, "UNCHECK ");
                append_str(&mut out, path.as_str());
            },
            Command::Delete { path } => {
                append_str(&mut out, "DELETE ");
                append_str(&mut out, path.as_str());
            },
            Command::AddSection { heading } => {
                append_str(&mut out, "SECTION ");
                push_quoted(&mut out, heading);
            },
            Command::ReplaceSection { id, .. } => {
                append_str(&mut out, "REPLACE ");
                append_str(&mut out, id.as_str());
            },
            _ => {
                return format_complex_command(self);
            },
        }
        from_chars(&out)
    }
}

impl ApplyResult {
    /// `✓ msg`, `✗ Not found: msg` or `✗ Error: msg`.
    pub fn to_string(&self) -> (r: String)
        ensures
            r@ == apply_result_text(*self),
    {
        let mut out: Vec<char> = Vec::new();
        match self {
            ApplyResult::Success(m) => {
                append_str(&mut out, "✓ ");
                append_str(&mut out, m.as_str());
            },
            ApplyResult::NotFound(m) => {
                append_str(&mut out, "✗ Not found: ");
                append_str(&mut out, m.as_str());
            },
            ApplyResult::Error(m) => {
                append_str(&mut out, "✗ Error: ");
                append_str(&mut out, m.as_str());
            },
        }
        from_chars(&out)
    }
}

} // verus!
