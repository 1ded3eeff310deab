use warden::apply::types::ApplyOutcome;
use warden::apply::{dry_run_outcome, empty_input_outcome};
use warden::config::project_defaults;
use warden::project::ProjectType;
use warden::roadmap::audit::{anchor_holds, audit_summary, is_audited};
use warden::roadmap::cli::{apply_step, ApplyStep};
use warden::roadmap::cmd_parser::parse_command_line;
use warden::roadmap::types::{CommandBatch, Task, TaskStatus};
use warden::text::to_chars;

fn task(text: &str, id: &str, status: TaskStatus, tests: &[&str]) -> Task {
    Task {
        id: id.to_string(),
        path: id.to_string(),
        text: text.to_string(),
        status,
        indent: 0,
        line: 0,
        children: Vec::new(),
        tests: tests.iter().map(|s| s.to_string()).collect(),
    }
}

#[test]
fn empty_reply_is_a_parse_error() {
    match empty_input_outcome("  \n\t ") {
        Some(ApplyOutcome::ParseError(m)) => assert_eq!(m, "Clipboard/Input is empty"),
        _ => panic!("expected a parse error"),
    }
    assert!(empty_input_outcome("#__WARDEN_PLAN__#").is_none());
}

#[test]
fn dry_run_reports_verified_files_only() {
    match dry_run_outcome() {
        ApplyOutcome::Success { written, deleted, roadmap_results, backed_up } => {
            assert_eq!(written, vec!["(Dry Run) Files verified".to_string()]);
            assert!(deleted.is_empty() && roadmap_results.is_empty() && !backed_up);
        }
        _ => panic!("expected success"),
    }
}

#[test]
fn apply_step_order() {
    let empty = CommandBatch { commands: Vec::new(), errors: vec!["bad".to_string()] };
    assert_eq!(apply_step(&empty, true), ApplyStep::NoCommands);
    let one = CommandBatch { commands: vec![parse_command_line(&to_chars("CHECK a")).unwrap()], errors: Vec::new() };
    assert_eq!(apply_step(&one, true), ApplyStep::DryRun);
    assert_eq!(apply_step(&one, false), ApplyStep::Apply);
}

#[test]
fn audited_tasks_are_completed_without_no_test() {
    assert!(is_audited(&task("Ship it", "ship-it", TaskStatus::Complete, &[])));
    assert!(!is_audited(&task("Ship it", "ship-it", TaskStatus::Pending, &[])));
    assert!(!is_audited(&task("Docs [no-test]", "docs", TaskStatus::Complete, &[])));
}

#[test]
fn audit_summary_lists_untested_positions() {
    let a = task("Write parser", "write-parser", TaskStatus::Complete, &[]);
    let b = task("Pending thing", "pending-thing", TaskStatus::Pending, &[]);
    let c = task("Anchored", "anchored", TaskStatus::Complete, &["tests/x.rs", "tests/y.rs"]);
    let d = task("Docs [no-test]", "docs", TaskStatus::Complete, &[]);
    let e = task("Lost one", "lost-one", TaskStatus::Complete, &[]);
    let tasks = vec![&a, &b, &c, &d, &e];
    let oks = vec![vec![], vec![], vec![true, false], vec![], vec![]];
    let scanned = vec!["tests/write_parser_test.rs".to_string()];
    let s = audit_summary(&tasks, &oks, &scanned);
    assert_eq!(s.completed, 4);
    assert_eq!(s.untested, vec![2, 4]);
    let oks2 = vec![vec![], vec![], vec![true, true], vec![], vec![]];
    assert_eq!(audit_summary(&tasks, &oks2, &scanned).untested, vec![4]);
}

#[test]
fn anchor_holds_checks_function_part() {
    assert!(anchor_holds(None, None));
    assert!(anchor_holds(Some(" parse_all "), Some("fn parse_all() {}")));
    assert!(!anchor_holds(Some("parse_all"), Some("fn other() {}")));
    assert!(!anchor_holds(Some("parse_all"), None));
}

#[test]
fn default_command_names_are_distinct() {
    for p in [ProjectType::Rust, ProjectType::Node, ProjectType::Python, ProjectType::Unknown] {
        let d = project_defaults(p, false);
        for i in 0..d.len() {
            for j in i + 1..d.len() {
                assert_ne!(d[i].0, d[j].0);
            }
        }
    }
}
