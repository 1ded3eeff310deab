//! Data types of the apply protocol.
use vstd::prelude::*;

verus! {

/// What the manifest says is done to a file.
#[derive(Debug, Clone, Copy, PartialEq, Eq, Structural)]
pub enum Operation {
    Update,
    New,
    Delete,
}

/// One line of the manifest.
#[derive(Debug, Clone)]
pub struct ManifestEntry {
    pub path: String,
    pub operation: Operation,
}

/// The content of one file block.
#[derive(Debug, Clone)]
pub struct FileContent {
    pub content: String,
    pub line_count: usize,
}

/// What an apply run ended with.
#[derive(Debug)]
pub enum ApplyOutcome {
    Success {
        written: Vec<String>,
        deleted: Vec<String>,
        roadmap_results: Vec<String>,
        backed_up: bool,
    },
    ValidationFailure {
        errors: Vec<String>,
        missing: Vec<String>,
        ai_message: String,
    },
    ParseError(String),
    WriteError(String),
}

/// The manifest: its entries in order.
pub type Manifest = Vec<ManifestEntry>;

/// The extracted files, by path: a path occurs at most once, and a later
/// block for the same path replaces the earlier one in place.
pub type ExtractedFiles = Vec<(String, FileContent)>;

/// The paths of the entries of a manifest.
pub open spec fn manifest_paths(m: Seq<ManifestEntry>) -> Seq<Seq<char>> {
    m.map_values(|e: ManifestEntry| e.path@)
}

/// The paths and contents of extracted files.
pub open spec fn files_view(f: Seq<(String, FileContent)>) -> Seq<(Seq<char>, Seq<char>)> {
    f.map_values(|p: (String, FileContent)| (p.0@, p.1.content@))
}

/// No path occurs twice.
pub open spec fn distinct_paths(f: Seq<(String, FileContent)>) -> bool {
    forall|i: int, j: int| 0 <= i < j < f.len() ==> #[trigger] f[i].0@ != #[trigger] f[j].0@
}

/// The string views of a sequence of strings.
pub open spec fn strings_view(v: Seq<String>) -> Seq<Seq<char>> {
    v.map_values(|s: String| s@)
}

} // verus!
