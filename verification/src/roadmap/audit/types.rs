//! Data types of the traceability audit.
use vstd::prelude::*;

verus! {

/// Why a task fails the audit.
#[derive(Debug, Clone)]
pub enum ViolationReason {
    MissingTestFile(String),
    MissingTestFunction { file: String, function: String },
    NoTraceability,
}

/// A task that fails the audit.
#[derive(Debug, Clone)]
pub struct AuditViolation {
    pub task_id: String,
    pub task_text: String,
    pub reason: ViolationReason,
}

/// A test anchor of a task: a file and a function in it.
#[derive(Debug, Clone)]
pub struct TaskAnchor {
    pub task_path: String,
    pub file: String,
    pub function: String,
}

/// How the check of one anchor ended.
#[derive(Debug, Clone, Copy, PartialEq, Eq, Structural)]
pub enum VerificationStatus {
    Verified,
    MissingFile,
    MissingFunction,
    ParseError,
}

/// The check of one anchor.
#[derive(Debug, Clone)]
pub struct AuditResult {
    pub task_path: String,
    pub anchor: TaskAnchor,
    pub status: VerificationStatus,
    pub detail: Option<String>,
}

impl TaskAnchor {
    /// A copy of this anchor.
    pub fn duplicate(&self) -> (r: TaskAnchor)
        ensures
            r.task_path@ == self.task_path@,
            r.file@ == self.file@,
            r.function@ == self.function@,
    {
        TaskAnchor {
            task_path: self.task_path.clone(),
            file: self.file.clone(),
            function: self.function.clone(),
        }
    }
}

} // verus!
