//! The apply protocol: reading an AI reply made of a plan, a manifest and
//! file blocks, and checking it before anything is written.
pub mod types;
pub mod validator;
pub mod messages;
pub mod manifest;
pub mod extractor;
pub mod git;

use vstd::prelude::*;
use crate::apply::extractor::{extract_files, file_views, files_spec, FileView};
use crate::apply::manifest::{entries_view, manifest_spec, parse_manifest};
use crate::apply::types::{ApplyOutcome, ManifestEntry, Operation};
use crate::apply::validator::{validate, validation_errors, validation_outcome};
use crate::text::{
    append, append_str, contains, contains_str, eq_chars, from_chars, replace, replace_str,
    to_chars, trim, trim_chars, trim_str,
};

verus! {

/// What an empty reply gives: a parse error, before anything else is
/// looked at; `None` for a reply with text in it.
pub fn empty_input_outcome(content: &str) -> (r: Option<ApplyOutcome>)
    ensures
        r is Some <==> trim(content@).len() == 0,
        r matches Some(o) ==> (o matches ApplyOutcome::ParseError(m) && m@ == "Clipboard/Input is empty"@),
{
    let v = to_chars(content);
    let t = trim_chars(&v);
    if t.len() == 0 {
        Some(ApplyOutcome::ParseError(from_chars(&to_chars("Clipboard/Input is empty"))))
    } else {
        None
    }
}

/// What a dry run reports once the reply was validated: success, with a
/// single line saying the files were verified and nothing written,
/// deleted or backed up.
pub fn dry_run_outcome() -> (r: ApplyOutcome)
    ensures
        r matches ApplyOutcome::Success { written, deleted, roadmap_results, backed_up }
            && crate::apply::types::strings_view(written@) == seq!["(Dry Run) Files verified"@]
            && deleted@.len() == 0 && roadmap_results@.len() == 0 && !backed_up,
{
    let mut written: Vec<String> = Vec::new();
    written.push(from_chars(&to_chars("(Dry Run) Files verified")));
    assert(crate::apply::types::strings_view(written@) =~= seq!["(Dry Run) Files verified"@]);
    ApplyOutcome::Success { written, deleted: Vec::new(), roadmap_results: Vec::new(), backed_up: false }
}

/// The outcome has something to commit: files written or deleted, or
/// roadmap updates.
pub open spec fn has_changes_spec(o: &ApplyOutcome) -> bool {
    match o {
        ApplyOutcome::Success { written, deleted, roadmap_results, .. } => written@.len() > 0
            || deleted@.len() > 0 || roadmap_results@.len() > 0,
        _ => false,
    }
}

/// Whether the outcome has something to commit.
pub fn has_changes(outcome: &ApplyOutcome) -> (r: bool)
    ensures
        r == has_changes_spec(outcome),
{
    match outcome {
        ApplyOutcome::Success { written, deleted, roadmap_results, .. } => written.len() > 0
            || deleted.len() > 0 || roadmap_results.len() > 0,
        _ => false,
    }
}

/// The goal of a plan: its text without `GOAL:` labels, trimmed.
pub open spec fn intent_text(plan: Seq<char>) -> Seq<char> {
    trim(replace(plan, "GOAL:"@, Seq::empty()))
}

/// The goal of a plan, as it is kept between runs.
pub fn clean_intent(plan: &str) -> (r: String)
    ensures
        r@ == intent_text(plan@),
{
    proof {
        reveal_strlit("GOAL:");
        reveal_strlit("");
        assert(""@ =~= Seq::<char>::empty());
    }
    let v = to_chars(plan);
    let c = replace_str(&v, "GOAL:", "");
    let t = trim_chars(&c);
    from_chars(&t)
}

/// The commit message: the current goal (`Automated update` without a
/// plan); when a different goal was kept from an earlier run, that goal
/// first and the current one as a follow-up.
pub open spec fn commit_message_with_intent(plan: Option<Seq<char>>, stored: Option<Seq<char>>) -> Seq<
    char,
> {
    let current = intent_text(
        match plan {
            Some(p) => p,
            None => "Automated update"@,
        },
    );
    match stored {
        Some(s) => if trim(s).len() > 0 && trim(s) != current {
            trim(s) + "\n\nFollow-up: "@ + current
        } else {
            current
        },
        None => current,
    }
}

/// The commit message for a run, given the goal kept from an earlier run
/// (`None` when none could be read).
pub fn construct_commit_message(current_plan: Option<&str>, stored: Option<&str>) -> (r: String)
    ensures
        r@ == commit_message_with_intent(
            match current_plan {
                Some(p) => Some(p@),
                None => None,
            },
            match stored {
                Some(s) => Some(s@),
                None => None,
            },
        ),
{
    let current = match current_plan {
        Some(p) => clean_intent(p),
        None => clean_intent("Automated update"),
    };
    let cv = to_chars(current.as_str());
    match stored {
        Some(s) => {
            let t = trim_str(s);
            if t.len() > 0 && !eq_chars(&t, &cv) {
                let mut out = t;
                append_str(&mut out, "\n\nFollow-up: ");
                append(&mut out, &cv);
                from_chars(&out)
            } else {
                current
            }
        },
        None => current,
    }
}

/// A plan that states both its goal and its changes.
pub open spec fn plan_is_structured(plan: Seq<char>) -> bool {
    contains(plan, "GOAL:"@) && contains(plan, "CHANGES:"@)
}

/// Whether the plan has both a `GOAL:` and a `CHANGES:` part.
pub fn is_structured_plan(plan: &str) -> (r: bool)
    ensures
        r == plan_is_structured(plan@),
{
    let v = to_chars(plan);
    contains_str(&v, "GOAL:") && contains_str(&v, "CHANGES:")
}

/// The paths of the manifest entries, as values.
pub open spec fn entry_paths(es: Seq<(Seq<char>, Operation)>) -> Seq<Seq<char>> {
    es.map_values(|e: (Seq<char>, Operation)| e.0)
}

/// The paths and contents of extracted files, as values.
pub open spec fn file_contents(fs: Seq<FileView>) -> Seq<(Seq<char>, Seq<char>)> {
    fs.map_values(|f: FileView| (f.0, f.1))
}

/// What checking a reply gives: a parse error for a manifest or file
/// pattern that does not compile, else the validation of the manifest
/// (empty when there is none) against the extracted files.
pub open spec fn payload_outcome(o: ApplyOutcome, c: Seq<char>) -> bool {
    match manifest_spec(c) {
        Err(e) => o matches ApplyOutcome::ParseError(m) && m@ == "Manifest Error: "@ + e,
        Ok(m) => {
            let paths = match m {
                Some(es) => entry_paths(es),
                None => Seq::empty(),
            };
            match files_spec(c) {
                Err(e) => o matches ApplyOutcome::ParseError(m) && m@ == "Extraction Error: "@ + e,
                Ok(fs) => validation_outcome(o, validation_errors(paths, file_contents(fs))),
            }
        },
    }
}

/// Checks a reply before anything is written.
pub fn validate_payload(content: &str) -> (r: ApplyOutcome)
    ensures
        payload_outcome(r, content@),
{
    let manifest = match parse_manifest(content) {
        Ok(Some(m)) => m,
        Ok(None) => Vec::new(),
        Err(e) => {
            let mut out: Vec<char> = Vec::new();
            append_str(&mut out, "Manifest Error: ");
            append_str(&mut out, e.as_str());
            return ApplyOutcome::ParseError(from_chars(&out));
        },
    };
    let ghost mp = crate::apply::types::manifest_paths(manifest@);
    proof {
        match manifest_spec(content@) {
            Ok(Some(es)) => {
                assert(mp =~= entry_paths(es));
            },
            Ok(None) => {
                assert(mp =~= Seq::<Seq<char>>::empty());
            },
            Err(_) => {},
        }
    }
    let extracted = match extract_files(content) {
        Ok(f) => f,
        Err(e) => {
            let mut out: Vec<char> = Vec::new();
            append_str(&mut out, "Extraction Error: ");
            append_str(&mut out, e.as_str());
            return ApplyOutcome::ParseError(from_chars(&out));
        },
    };
    proof {
        assert(crate::apply::types::files_view(extracted@) =~= file_contents(
            file_views(extracted@),
        ));
    }
    validate(&manifest, &extracted)
}

} // verus!
