//! The error type that the task store reports with.
use vstd::prelude::*;
use crate::text::{append_str, from_chars};

verus! {

/// Errors of the library; the I/O and regex variants of the command-line
/// tool belong to its own copy of this type.
#[derive(Debug, Clone, PartialEq, Eq)]
pub enum SlopChopError {
    NotInGitRepo,
    Regex(String),
    Other(String),
}

/// The message of an error, as it is displayed.
pub open spec fn error_text(e: SlopChopError) -> Seq<char> {
    match e {
        SlopChopError::NotInGitRepo => "Not inside a Git repository"@,
        SlopChopError::Regex(m) => "Regex error: "@ + m@,
        SlopChopError::Other(m) => "Generic error: "@ + m@,
    }
}

impl SlopChopError {
    /// The message of the error, as it is displayed.
    pub fn to_string(&self) -> (r: String)
        ensures
            r@ == error_text(*self),
    {
        match self {
            SlopChopError::NotInGitRepo => "Not inside a Git repository".to_owned(),
            SlopChopError::Regex(m) => {
                let mut out: Vec<char> = Vec::new();
                append_str(&mut out, "Regex error: ");
                append_str(&mut out, m.as_str());
                from_chars(&out)
            },
            SlopChopError::Other(m) => {
                let mut out: Vec<char> = Vec::new();
                append_str(&mut out, "Generic error: ");
                append_str(&mut out, m.as_str());
                from_chars(&out)
            },
        }
    }
}

} // verus!
