use warden::analysis::{RuleEngine, ScannedFile, LAW_OF_BLUNTNESS, LAW_OF_PARANOIA};
use warden::config::types::{Config, RuleConfig};
use warden::syntax::{analyze, captures_of_matches, file_syntax, function_names};

const RUST_SRC: &str = "fn do_this_and_that_now_please() {\n    let a = foo().unwrap();\n    let b = bar().expect(\"b\");\n    let c = baz().unwrap_or(1);\n}\n";

#[test]
fn rust_names_and_banned_calls() {
    let v = analyze("rs", "src/a.rs", RUST_SRC, &RuleConfig::default());
    assert_eq!(v.len(), 3);
    assert_eq!(v[0].law, LAW_OF_BLUNTNESS);
    assert_eq!(v[0].row, 0);
    assert_eq!(
        v[0].message,
        "Function 'do_this_and_that_now_please' has 6 words (Max: 5). Is it doing too much?"
    );
    assert_eq!(v[1].law, LAW_OF_PARANOIA);
    assert_eq!(v[1].row, 1);
    assert_eq!(v[1].message, "Banned: '.unwrap()'. Use '?' or 'unwrap_or'.");
    assert_eq!(v[2].row, 2);
    assert_eq!(v[2].message, "Banned: '.expect()'. Use '?' or 'unwrap_or'.");
}

#[test]
fn clean_rust_file_has_no_violations() {
    let v = analyze("rs", "src/a.rs", "fn run() {\n    let x = 1;\n}\n", &RuleConfig::default());
    assert!(v.is_empty());
}

#[test]
fn python_names_without_banned_query() {
    let src = "def do_this_and_that_now_please():\n    return x.unwrap()\n";
    let v = analyze("py", "a.py", src, &RuleConfig::default());
    assert_eq!(v.len(), 1);
    assert_eq!(v[0].law, LAW_OF_BLUNTNESS);
}

#[test]
fn typescript_camel_case_names() {
    let src = "function doThisAndThatNowPlease() {\n  return 1;\n}\nfunction run() {}\n";
    let v = analyze("ts", "a.ts", src, &RuleConfig::default());
    assert_eq!(v.len(), 1);
    assert_eq!(
        v[0].message,
        "Function 'doThisAndThatNowPlease' has 6 words (Max: 5). Is it doing too much?"
    );
}

#[test]
fn unknown_extension_is_not_walked() {
    assert!(analyze("md", "a.md", RUST_SRC, &RuleConfig::default()).is_empty());
}

#[test]
fn ignored_names_skip_naming_only() {
    let mut config = RuleConfig::default();
    config.ignore_naming_on = vec!["generated".to_string()];
    let v = analyze("rs", "src/generated.rs", RUST_SRC, &config);
    assert_eq!(v.len(), 2);
    assert!(v.iter().all(|x| x.law == LAW_OF_PARANOIA));
}

#[test]
fn file_syntax_goes_by_extension() {
    assert_eq!(file_syntax("src/a.rs", RUST_SRC, &RuleConfig::default()).len(), 3);
    assert!(file_syntax("Makefile", RUST_SRC, &RuleConfig::default()).is_empty());
    assert!(file_syntax("notes.txt", RUST_SRC, &RuleConfig::default()).is_empty());
}

#[test]
fn file_report_carries_syntax_violations() {
    let engine = RuleEngine::new(Config::new());
    let file = ScannedFile { path: "src/a.rs".to_string(), content: Some(RUST_SRC.to_string()), token_count: 10 };
    let report = engine.analyze_file(file).expect("reported");
    assert_eq!(report.violations.len(), 3);
    assert_eq!(report.violations[0].law, LAW_OF_BLUNTNESS);
}

fn raw(name: &str, text: Option<&str>, row: usize) -> (String, Option<String>, usize) {
    (name.to_string(), text.map(str::to_string), row)
}

#[test]
fn function_names_take_first_capture() {
    let ms = vec![vec![raw("name", Some("alpha"), 3)], vec![], vec![raw("name", None, 7), raw("x", Some("y"), 8)]];
    let names = function_names(&ms);
    assert_eq!(names.len(), 2);
    assert_eq!(names[0].name, "alpha");
    assert_eq!(names[0].row, 3);
    assert_eq!(names[1].name, "?");
    assert_eq!(names[1].row, 7);
}

#[test]
fn captures_of_matches_keep_every_capture() {
    let ms = vec![vec![raw("method", Some("unwrap"), 2), raw("call", None, 2)], vec![]];
    let cs = captures_of_matches(&ms);
    assert_eq!(cs.len(), 2);
    assert_eq!(cs[0].len(), 2);
    assert_eq!(cs[0][0].name, "method");
    assert_eq!(cs[0][0].text.as_deref(), Some("unwrap"));
    assert_eq!(cs[0][1].text, None);
    assert_eq!(cs[0][1].row, 2);
    assert!(cs[1].is_empty());
}
