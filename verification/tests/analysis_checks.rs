use warden::analysis::{
    check_banned, check_metrics, check_naming, count_failures, naming_violation,
    process_banned_match, run_analysis, summary_line, validate_arity, validate_complexity,
    validate_depth, Capture, FunctionName, NodeMetrics, RuleEngine, ScanReport, ScannedFile,
    SyntaxFacts, Violation, LAW_OF_ATOMICITY, LAW_OF_BLUNTNESS, LAW_OF_COMPLEXITY, LAW_OF_PARANOIA,
};
use warden::config::types::{Config, RuleConfig};
use warden::lang::Lang;

fn cap(name: &str, text: Option<&str>, row: usize) -> Capture {
    Capture { name: name.to_string(), text: text.map(str::to_string), row }
}

fn node(kind: &str, row: usize, args: usize, depth: usize, complexity: usize) -> NodeMetrics {
    NodeMetrics { kind: kind.to_string(), row, args, depth, complexity }
}

fn messages(v: &[Violation]) -> Vec<String> {
    v.iter().map(|x| x.message.clone()).collect()
}

#[test]
fn long_snake_case_name_breaks_bluntness() {
    let v = naming_violation("do_the_thing_now_please_ok", 3, 5).expect("six words");
    assert_eq!(v.row, 3);
    assert_eq!(v.law, LAW_OF_BLUNTNESS);
    assert_eq!(
        v.message,
        "Function 'do_the_thing_now_please_ok' has 6 words (Max: 5). Is it doing too much?"
    );
}

#[test]
fn camel_case_words_count_capitals() {
    assert!(naming_violation("getUserNameFromDatabaseNow", 0, 5).is_some());
    assert!(naming_violation("PascalCase", 0, 5).is_none());
    assert!(naming_violation("run", 0, 1).is_none());
}

#[test]
fn naming_check_skips_ignored_files() {
    let mut config = RuleConfig::default();
    config.ignore_naming_on = vec!["generated".to_string()];
    let names = vec![FunctionName { name: "a_b_c_d_e_f".to_string(), row: 1 }];
    let mut out = Vec::new();
    check_naming("src/generated/x.rs", &names, &config, &mut out);
    assert!(out.is_empty());
    check_naming("src/x.rs", &names, &config, &mut out);
    assert_eq!(out.len(), 1);
    assert_eq!(out[0].row, 1);
}

#[test]
fn metric_limits_are_strict() {
    let mut out = Vec::new();
    validate_arity(7, 10, 5, &mut out);
    validate_depth(3, 10, 3, &mut out);
    validate_complexity(9, 11, 8, &mut out);
    assert_eq!(
        messages(&out),
        vec![
            "High Arity: Function takes 7 arguments (Max: 5). Use a Struct.".to_string(),
            "High Complexity: Score is 9 (Max: 8). Hard to test.".to_string(),
        ]
    );
    assert!(out.iter().all(|v| v.law == LAW_OF_COMPLEXITY));
}

#[test]
fn metrics_only_apply_to_functions_and_methods() {
    let config = RuleConfig::default();
    let nodes = vec![
        node("function_item", 2, 6, 4, 9),
        node("if_expression", 3, 9, 9, 9),
        node("method_definition", 7, 1, 1, 1),
    ];
    let mut out = Vec::new();
    check_metrics(&nodes, &config, &mut out);
    assert_eq!(
        messages(&out),
        vec![
            "High Arity: Function takes 6 arguments (Max: 5). Use a Struct.".to_string(),
            "Deep Nesting: Max depth is 4 (Max: 3). Extract logic.".to_string(),
            "High Complexity: Score is 9 (Max: 8). Hard to test.".to_string(),
        ]
    );
    assert!(out.iter().all(|v| v.row == 2));
}

#[test]
fn unwrap_and_expect_calls_are_banned() {
    let mut out = Vec::new();
    process_banned_match(&[cap("call", None, 12), cap("method", Some("unwrap"), 12)], &mut out);
    process_banned_match(&[cap("method", Some("map"), 13), cap("call", None, 13)], &mut out);
    process_banned_match(&[cap("method", Some("expect"), 14), cap("call", None, 15)], &mut out);
    assert_eq!(out.len(), 2);
    assert_eq!(out[0].message, "Banned: '.unwrap()'. Use '?' or 'unwrap_or'.");
    assert_eq!(out[0].row, 12);
    assert_eq!(out[0].law, LAW_OF_PARANOIA);
    assert_eq!(out[1].message, "Banned: '.expect()'. Use '?' or 'unwrap_or'.");
    assert_eq!(out[1].row, 15);
}

#[test]
fn banned_match_without_method_text_reports_nothing() {
    let mut out = Vec::new();
    check_banned(&[vec![cap("method", None, 4), cap("call", None, 4)]], &mut out);
    assert!(out.is_empty());
}

#[test]
fn banned_calls_are_checked_only_where_the_language_has_the_query() {
    let facts = SyntaxFacts {
        names: vec![],
        nodes: vec![],
        banned: vec![vec![cap("method", Some("unwrap"), 1), cap("call", None, 1)]],
    };
    let config = RuleConfig::default();
    assert_eq!(run_analysis(Lang::Rust, "a.rs", &facts, &config).len(), 1);
    assert!(run_analysis(Lang::TypeScript, "a.ts", &facts, &config).is_empty());
}

fn scanned(path: &str, content: Option<&str>, tokens: usize) -> ScannedFile {
    ScannedFile {
        path: path.to_string(),
        content: content.map(str::to_string),
        token_count: tokens,
    }
}

#[test]
fn ignore_markers_and_unreadable_files_give_no_report() {
    let engine = RuleEngine::new(Config::new());
    assert!(engine.analyze_file(scanned("a.rs", Some("fn a() {} // warden:ignore"), 1)).is_none());
    assert!(engine.analyze_file(scanned("a.py", Some("# warden:ignore\n"), 1)).is_none());
    assert!(engine.analyze_file(scanned("a.md", Some("<!-- warden:ignore -->"), 1)).is_none());
    assert!(engine.analyze_file(scanned("a.rs", None, 1)).is_none());
    assert!(engine.analyze_file(scanned("a.rs", Some("fn a() {}"), 1)).is_some());
}

#[test]
fn oversized_files_break_atomicity_unless_exempt() {
    let engine = RuleEngine::new(Config::new());
    let big = engine.analyze_file(scanned("src/big.rs", Some("x"), 2500)).expect("reported");
    assert_eq!(big.violations.len(), 1);
    assert_eq!(big.violations[0].message, "File size is 2500 tokens (Limit: 2000)");
    assert_eq!(big.violations[0].law, LAW_OF_ATOMICITY);
    assert_eq!(big.violations[0].row, 0);
    assert_eq!(big.complexity_score, 0);
    let readme = engine.analyze_file(scanned("README.md", Some("x"), 2500)).expect("reported");
    assert!(readme.is_clean());
    assert!(engine.is_exempt_from_tokens("Cargo.lock"));
    let limit = engine.analyze_file(scanned("src/ok.rs", Some("x"), 2000)).expect("reported");
    assert!(limit.is_clean());
}

#[test]
fn scan_totals_and_summary() {
    let engine = RuleEngine::new(Config::new());
    let files = vec![
        scanned("src/big.rs", Some("x"), 2500),
        scanned("src/skip.rs", Some("// warden:ignore"), 7),
        scanned("src/small.rs", Some("y"), 10),
    ];
    let report: ScanReport = engine.scan(files, 15);
    assert_eq!(report.files.len(), 2);
    assert_eq!(report.total_tokens, 2510);
    assert_eq!(report.total_violations, 1);
    assert!(report.has_errors());
    assert_eq!(count_failures(&report), 1);
    assert_eq!(summary_line(&report, 1), "❌ Warden found 1 violations in 15ms.");

    let clean = engine.scan(vec![scanned("src/small.rs", Some("y"), 10)], 3);
    assert!(!clean.has_errors());
    assert_eq!(summary_line(&clean, count_failures(&clean)), "✅ All Clear. Scanned 10 tokens in 3ms.");
}

#[test]
fn violations_section_lists_each_violation() {
    let engine = RuleEngine::new(Config::new());
    let report = engine.scan(vec![scanned("src/big.rs", Some("x"), 2500)], 1);
    let block = warden::analysis::violations_block(&report);
    let rule = "═══════════════════════════════════════════════════════════════════";
    let expected = format!(
        "{rule}\n⚠️  ACTIVE VIOLATIONS (PRIORITY FIX REQUIRED)\n{rule}\n\nFILE: src/big.rs\nLAW:  LAW OF ATOMICITY\nLINE: 1\nERR:  File size is 2500 tokens (Limit: 2000)\n{}\n\n",
        "─".repeat(40)
    );
    assert_eq!(block, expected);
    let clean = engine.scan(vec![scanned("src/a.rs", Some("x"), 1)], 1);
    assert_eq!(warden::analysis::violations_block(&clean), "");
}

#[test]
fn file_check_gives_advice_per_violation() {
    let engine = RuleEngine::new(Config::new());
    let src = "fn do_this_and_that_now_please() {\n    let x = foo().unwrap();\n}\n";
    let file = scanned("src/big.rs", Some(src), 2500);
    let findings = engine.check_file(&file);
    let helps: Vec<&str> = findings.iter().map(|f| f.help).collect();
    assert_eq!(helps, vec!["Split this file into smaller modules.", "Rename function.", "Add Error Handling."]);
    assert_eq!(findings[0].violation.message, "File size is 2500 tokens (Limit: 2000)");
    assert_eq!(findings[1].violation.law, LAW_OF_BLUNTNESS);
    assert_eq!(findings[1].violation.row, 0);
    assert_eq!(findings[2].violation.law, LAW_OF_PARANOIA);
    assert_eq!(findings[2].violation.row, 1);
    assert!(engine.check_file(&scanned("a.rs", Some("# warden:ignore"), 5000)).is_empty());
    assert!(engine.check_file(&scanned("a.rs", None, 5000)).is_empty());
}
