use warden::apply::extractor::{extract_files, extract_plan};
use warden::apply::git::construct_message;
use warden::apply::manifest::parse_manifest;
use warden::apply::messages::{format_ai_rejection, format_verification_failure};
use warden::apply::types::{ApplyOutcome, FileContent, ManifestEntry, Operation};
use warden::apply::validator::validate;
use warden::apply::{
    clean_intent, construct_commit_message, has_changes, is_structured_plan, validate_payload,
};

fn entry(path: &str, operation: Operation) -> ManifestEntry {
    ManifestEntry { path: path.to_string(), operation }
}

fn file(path: &str, content: &str) -> (String, FileContent) {
    (path.to_string(), FileContent { content: content.to_string(), line_count: content.lines().count() })
}

fn errors_of(o: ApplyOutcome) -> Vec<String> {
    match o {
        ApplyOutcome::ValidationFailure { errors, missing, ai_message } => {
            assert!(missing.is_empty());
            assert!(ai_message.is_empty());
            errors
        }
        ApplyOutcome::Success { written, deleted, roadmap_results, backed_up } => {
            assert!(written.is_empty() && deleted.is_empty() && roadmap_results.is_empty());
            assert!(!backed_up);
            Vec::new()
        }
        other => panic!("unexpected outcome {other:?}"),
    }
}

#[test]
fn clean_reply_validates() {
    let m = vec![entry("src/main.rs", Operation::Update), entry(".gitignore", Operation::Update)];
    let x = vec![file("src/main.rs", "fn main() {}\n"), file(".gitignore", "target\n")];
    assert_eq!(errors_of(validate(&m, &x)), Vec::<String>::new());
}

#[test]
fn unsafe_paths_are_refused() {
    let m = vec![
        entry("../etc/passwd", Operation::Update),
        entry("/abs/file.rs", Operation::New),
        entry("config/.env", Operation::Update),
        entry("src/.hidden", Operation::Update),
        entry("cargo.LOCK", Operation::Update),
        entry("./src/ok.rs", Operation::Delete),
    ];
    assert_eq!(
        errors_of(validate(&m, &Vec::new())),
        vec![
            "Path traversal not allowed: ../etc/passwd".to_string(),
            "Absolute paths not allowed: /abs/file.rs".to_string(),
            "Access to sensitive directory blocked: .env".to_string(),
            "Hidden files blocked: .hidden".to_string(),
            "Cannot overwrite protected file: cargo.LOCK".to_string(),
        ]
    );
}

#[test]
fn bad_contents_are_refused() {
    let m = vec![
        entry("a.rs", Operation::Update),
        entry("b.rs", Operation::Update),
        entry("c.rs", Operation::Update),
        entry("d.rs", Operation::Update),
    ];
    let x = vec![
        file("a.rs", "   \n"),
        file("b.rs", "```rust\nfn b() {}\n```"),
        file("c.rs", "fn c() {\n    // ...\n}"),
        file("d.rs", "fn d() {\n    // ... slopchop:ignore\n}"),
        file("e.rs", "fn e() {}"),
    ];
    assert_eq!(
        errors_of(validate(&m, &x)),
        vec![
            "File is empty: a.rs".to_string(),
            "Markdown fences detected in b.rs. Content must be raw code.".to_string(),
            "Truncation detected in c.rs at line 2: AI gave up.".to_string(),
            "File extracted but not in manifest: e.rs".to_string(),
        ]
    );
}

#[test]
fn rejection_message_lists_missing_files_and_errors() {
    let msg = format_ai_rejection(&["a.rs".to_string()], &["Banned call".to_string()]);
    assert_eq!(
        msg,
        "The previous output was rejected by the Warden Protocol.\n\nMISSING FILES (Declared in MANIFEST but no #__WARDEN_FILE__# block found):\n- a.rs\n\nVALIDATION ERRORS:\n- Banned call\n\nTIP: If you are actively 'dogfooding' or intentionally using banned patterns, use '// warden:ignore' to bypass.\n\nPlease provide the missing or corrected files using #__WARDEN_FILE__# path ... #__WARDEN_END__#"
    );
    let plain = format_ai_rejection(&[], &["x".to_string()]);
    assert_eq!(
        plain,
        "The previous output was rejected by the Warden Protocol.\n\nVALIDATION ERRORS:\n- x\n\nPlease provide the missing or corrected files using #__WARDEN_FILE__# path ... #__WARDEN_END__#"
    );
}

#[test]
fn verification_failure_message_trims_the_log() {
    assert_eq!(
        format_verification_failure("  boom \n"),
        "The changes were applied, but post-application verification failed.\n\nFAILURE LOG:\nboom\n\nPlease fix the implementation so that checks pass."
    );
}

#[test]
fn manifest_lines_give_entries() {
    let reply = "intro\n#__WARDEN_MANIFEST__#\n- src/a.rs [NEW]\n* src/b.rs\n1. old.rs [DELETE] (remove)\n\n#__WARDEN_END__#\n";
    let entries = parse_manifest(reply).unwrap().unwrap();
    let got: Vec<(String, Operation)> = entries.into_iter().map(|e| (e.path, e.operation)).collect();
    assert_eq!(
        got,
        vec![
            ("src/a.rs".to_string(), Operation::New),
            ("src/b.rs".to_string(), Operation::Update),
            ("old.rs".to_string(), Operation::Delete),
        ]
    );
}

#[test]
fn legacy_manifest_and_absent_manifest() {
    let legacy = parse_manifest("<DELIVERY>\nx.rs [new]\n</delivery>").unwrap().unwrap();
    assert_eq!(legacy.len(), 1);
    assert_eq!(legacy[0].path, "x.rs");
    assert_eq!(legacy[0].operation, Operation::New);
    assert!(parse_manifest("nothing here").unwrap().is_none());
    // A closing tag before the opening one encloses nothing.
    assert!(parse_manifest("</delivery> then <delivery>").unwrap().is_none());
    let later = parse_manifest("</delivery> x <delivery>\na.rs\n</delivery>").unwrap().unwrap();
    assert_eq!(later.len(), 1);
    assert_eq!(later[0].path, "a.rs");
}

#[test]
fn plan_block_is_trimmed() {
    let reply = "#__WARDEN_PLAN__#\nGOAL: x\nCHANGES: y\n#__WARDEN_END__#\nrest";
    assert_eq!(extract_plan(reply), Some("GOAL: x\nCHANGES: y".to_string()));
    assert_eq!(extract_plan("no plan"), None);
}

#[test]
fn file_blocks_are_extracted() {
    let reply = "#__WARDEN_FILE__# src/a.rs\nfn a() {}\n#__WARDEN_END__#\n#__WARDEN_FILE__# MANIFEST\nx\n#__WARDEN_END__#\n#__WARDEN_FILE__# src/b.rs\n\nline 1\nline 2\n\n#__WARDEN_END__#\n";
    let files = extract_files(reply).unwrap();
    assert_eq!(files.len(), 2);
    assert_eq!(files[0].0, "src/a.rs");
    assert_eq!(files[0].1.content, "fn a() {}");
    assert_eq!(files[0].1.line_count, 1);
    assert_eq!(files[1].0, "src/b.rs");
    assert_eq!(files[1].1.content, "line 1\nline 2");
    assert_eq!(files[1].1.line_count, 2);
}

#[test]
fn later_block_replaces_earlier_one() {
    let reply = "#__WARDEN_FILE__# a.rs\nold\n#__WARDEN_END__#\n#__WARDEN_FILE__# b.rs\nb\n#__WARDEN_END__#\n#__WARDEN_FILE__# a.rs\nnew\n#__WARDEN_END__#\n";
    let files = extract_files(reply).unwrap();
    assert_eq!(files.len(), 2);
    assert_eq!(files[0].0, "a.rs");
    assert_eq!(files[0].1.content, "new");
    assert_eq!(files[1].0, "b.rs");
}

#[test]
fn unterminated_block_is_skipped() {
    let files = extract_files("#__WARDEN_FILE__# a.rs\nno end").unwrap();
    assert!(files.is_empty());
}

#[test]
fn commit_messages() {
    assert_eq!(construct_message(&["a.rs".to_string()], None), "warden: update a.rs");
    assert_eq!(
        construct_message(&["a.rs".to_string(), "b.rs".to_string()], None),
        "warden: update 2 files (a.rs, b.rs)"
    );
    assert_eq!(construct_message(&[], Some("  GOAL: x  ")), "GOAL: x");
    assert_eq!(construct_commit_message(Some("GOAL: Add login"), None), "Add login");
    assert_eq!(construct_commit_message(Some("GOAL: B"), Some("A\n")), "A\n\nFollow-up: B");
    assert_eq!(construct_commit_message(Some("B"), Some("B")), "B");
    assert_eq!(construct_commit_message(None, Some("   ")), "Automated update");
    assert_eq!(clean_intent("GOAL: x "), "x");
}

#[test]
fn plan_structure_and_changes() {
    assert!(is_structured_plan("GOAL: a\nCHANGES: b"));
    assert!(!is_structured_plan("GOAL: a"));
    let success = ApplyOutcome::Success {
        written: vec!["a.rs".to_string()],
        deleted: vec![],
        roadmap_results: vec![],
        backed_up: false,
    };
    assert!(has_changes(&success));
    let empty = ApplyOutcome::Success { written: vec![], deleted: vec![], roadmap_results: vec![], backed_up: true };
    assert!(!has_changes(&empty));
    assert!(!has_changes(&ApplyOutcome::ParseError("x".to_string())));
}

#[test]
fn payload_is_checked_before_writing() {
    let good = "#__WARDEN_MANIFEST__#\nsrc/a.rs\n#__WARDEN_END__#\n#__WARDEN_FILE__# src/a.rs\nfn a() {}\n#__WARDEN_END__#\n";
    assert_eq!(errors_of(validate_payload(good)), Vec::<String>::new());
    let stray = "#__WARDEN_FILE__# src/a.rs\nfn a() {}\n#__WARDEN_END__#\n";
    assert_eq!(
        errors_of(validate_payload(stray)),
        vec!["File extracted but not in manifest: src/a.rs".to_string()]
    );
    assert_eq!(errors_of(validate_payload("</delivery> <delivery>")), Vec::<String>::new());
}
