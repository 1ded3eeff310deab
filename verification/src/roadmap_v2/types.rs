//! Data types of the task store.
use vstd::prelude::*;

verus! {

/// Title and description of a roadmap.
#[derive(Debug, Clone)]
pub struct RoadmapMeta {
    pub title: String,
    pub description: String,
}

/// Progress of a section.
#[derive(Debug, Clone, Copy, PartialEq, Eq, Structural)]
pub enum SectionStatus {
    Pending,
    Current,
    Complete,
}

/// A section of the roadmap.
#[derive(Debug, Clone)]
pub struct Section {
    pub id: String,
    pub title: String,
    pub status: SectionStatus,
}

/// Progress of a task; `NoTest` is done without a test.
#[derive(Debug, Clone, Copy, PartialEq, Eq, Structural)]
pub enum TaskStatus {
    Pending,
    Done,
    NoTest,
}

/// One task of the store.
#[derive(Debug, Clone)]
pub struct Task {
    pub id: String,
    pub text: String,
    pub status: TaskStatus,
    pub section: String,
    pub group: Option<String>,
    pub test: Option<String>,
}

/// The fields an `Update` command sets; `None` leaves a field alone.
#[derive(Debug, Clone)]
pub struct TaskUpdate {
    pub text: Option<String>,
    pub test: Option<String>,
    pub section: Option<String>,
    pub group: Option<String>,
}

/// A command on the task store.
#[derive(Debug, Clone)]
pub enum RoadmapCommand {
    Check { id: String },
    Uncheck { id: String },
    Add(Task),
    Update { id: String, fields: TaskUpdate },
    Delete { id: String },
}

/// The whole store: metadata, sections and tasks.
#[derive(Debug, Clone)]
pub struct TaskStore {
    pub meta: RoadmapMeta,
    pub sections: Vec<Section>,
    pub tasks: Vec<Task>,
}

// ---------------------------------------------------------------------
// Views
// ---------------------------------------------------------------------

/// Mathematical value of a `Task`.
pub struct TaskView {
    pub id: Seq<char>,
    pub text: Seq<char>,
    pub status: TaskStatus,
    pub section: Seq<char>,
    pub group: Option<Seq<char>>,
    pub test: Option<Seq<char>>,
}

/// Mathematical value of a `TaskUpdate`.
pub struct TaskUpdateView {
    pub text: Option<Seq<char>>,
    pub test: Option<Seq<char>>,
    pub section: Option<Seq<char>>,
    pub group: Option<Seq<char>>,
}

/// Mathematical value of a `RoadmapCommand`.
pub enum RoadmapCommandView {
    Check { id: Seq<char> },
    Uncheck { id: Seq<char> },
    Add(TaskView),
    Update { id: Seq<char>, fields: TaskUpdateView },
    Delete { id: Seq<char> },
}

/// The view of an optional string.
pub open spec fn opt_view(o: Option<String>) -> Option<Seq<char>> {
    match o {
        Some(s) => Some(s@),
        None => None,
    }
}

impl View for Task {
    type V = TaskView;

    open spec fn view(&self) -> TaskView {
        TaskView {
            id: self.id@,
            text: self.text@,
            status: self.status,
            section: self.section@,
            group: opt_view(self.group),
            test: opt_view(self.test),
        }
    }
}

impl View for TaskUpdate {
    type V = TaskUpdateView;

    open spec fn view(&self) -> TaskUpdateView {
        TaskUpdateView {
            text: opt_view(self.text),
            test: opt_view(self.test),
            section: opt_view(self.section),
            group: opt_view(self.group),
        }
    }
}

impl View for RoadmapCommand {
    type V = RoadmapCommandView;

    open spec fn view(&self) -> RoadmapCommandView {
        match self {
            RoadmapCommand::Check { id } => RoadmapCommandView::Check { id: id@ },
            RoadmapCommand::Uncheck { id } => RoadmapCommandView::Uncheck { id: id@ },
            RoadmapCommand::Add(t) => RoadmapCommandView::Add(t@),
            RoadmapCommand::Update { id, fields } => RoadmapCommandView::Update {
                id: id@,
                fields: fields@,
            },
            RoadmapCommand::Delete { id } => RoadmapCommandView::Delete { id: id@ },
        }
    }
}

/// The views of a sequence of tasks.
pub open spec fn task_views(ts: Seq<Task>) -> Seq<TaskView> {
    ts.map_values(|t: Task| t@)
}

impl TaskStore {
    /// The tasks of the store, as values.
    pub open spec fn task_list(&self) -> Seq<TaskView> {
        task_views(self.tasks@)
    }
}

impl Default for RoadmapMeta {
    fn default() -> (r: RoadmapMeta)
        ensures
            r.title@.len() == 0,
            r.description@.len() == 0,
    {
        RoadmapMeta { title: String::new(), description: String::new() }
    }
}

impl Default for TaskStore {
    fn default() -> (r: TaskStore)
        ensures
            r.meta.title@.len() == 0,
            r.meta.description@.len() == 0,
            r.sections@.len() == 0,
            r.tasks@.len() == 0,
    {
        TaskStore { meta: RoadmapMeta::default(), sections: Vec::new(), tasks: Vec::new() }
    }
}

} // verus!
