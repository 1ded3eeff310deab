use warden::apply::extractor::file_block;
use warden::apply::manifest::entry_of_cleaned;
use warden::apply::types::Operation;
use warden::discovery::has_build_markers_lower;
use warden::roadmap::cmd_helpers::task_text_from_captures;
use warden::roadmap::cmd_parser::move_position_from_upper;
use warden::roadmap::parser::task_of_captures;
use warden::roadmap::str_utils::is_ignorable_upper;
use warden::roadmap::types::{MovePosition, TaskStatus};

fn chars(s: &str) -> Vec<char> {
    s.chars().collect()
}

fn text(v: &[char]) -> String {
    v.iter().collect()
}

fn groups(gs: &[Option<&str>]) -> Vec<Option<String>> {
    gs.iter().map(|g| g.map(|s| s.to_string())).collect()
}

#[test]
fn ignorable_upper_framing_lines() {
    assert!(is_ignorable_upper("==="));
    assert!(is_ignorable_upper("--- SECTION"));
    assert!(is_ignorable_upper("```RUST"));
    assert!(is_ignorable_upper("#__WARDEN_PLAN__#"));
    assert!(is_ignorable_upper("ROADMAP"));
    assert!(is_ignorable_upper("END"));
}

#[test]
fn ignorable_upper_other_lines() {
    assert!(!is_ignorable_upper("CHECK TASK"));
    assert!(!is_ignorable_upper("ROADMAP EXTRA"));
    assert!(!is_ignorable_upper("roadmap"));
    assert!(!is_ignorable_upper(""));
}

#[test]
fn task_text_from_group_one_trimmed() {
    let line = chars("- [ ] Write docs ");
    let caps = Some(groups(&[Some("- [ ] Write docs "), Some("Write docs ")]));
    assert_eq!(text(&task_text_from_captures(&line, &caps)), "Write docs");
}

#[test]
fn task_text_without_match_is_line() {
    let line = chars("plain line");
    assert_eq!(text(&task_text_from_captures(&line, &None)), "plain line");
}

#[test]
fn task_text_missing_group_is_empty() {
    let line = chars("- [x] x");
    let caps = Some(groups(&[Some("- [x] x"), None]));
    assert_eq!(text(&task_text_from_captures(&line, &caps)), "");
}

#[test]
fn task_of_captures_ticked() {
    let g = groups(&[Some("- [x] Ship It "), Some("x"), Some(" Ship It ")]);
    let t = task_of_captures(&g).expect("task");
    assert_eq!(t.text, "Ship It");
    assert_eq!(t.id, "ship-it");
    assert_eq!(t.path, "ship-it");
    assert_eq!(t.status, TaskStatus::Complete);
}

#[test]
fn task_of_captures_open_box() {
    let g = groups(&[Some("- [ ] Later"), Some(" "), Some("Later")]);
    let t = task_of_captures(&g).expect("task");
    assert_eq!(t.text, "Later");
    assert_eq!(t.status, TaskStatus::Pending);
}

#[test]
fn task_of_captures_missing_text_group() {
    let g = groups(&[Some("- [ ] "), Some(" ")]);
    assert!(task_of_captures(&g).is_none());
    let g2 = groups(&[Some("- [ ] a"), None, Some("a")]);
    assert!(task_of_captures(&g2).is_none());
}

#[test]
fn entry_of_cleaned_new_and_delete() {
    let e = entry_of_cleaned(&chars("src/a.rs [NEW]"), &chars("SRC/A.RS [NEW]")).expect("entry");
    assert_eq!(e.path, "src/a.rs");
    assert_eq!(e.operation, Operation::New);
    let d = entry_of_cleaned(&chars("[delete] old.rs"), &chars("[DELETE] OLD.RS")).expect("entry");
    assert_eq!(d.path, "old.rs");
    assert_eq!(d.operation, Operation::Delete);
}

#[test]
fn entry_of_cleaned_operation_follows_upper_form() {
    let e = entry_of_cleaned(&chars("lib.rs extra"), &chars("LIB.RS EXTRA")).expect("entry");
    assert_eq!(e.path, "lib.rs");
    assert_eq!(e.operation, Operation::Update);
}

#[test]
fn entry_of_cleaned_blank_or_marker_only() {
    assert!(entry_of_cleaned(&chars("   "), &chars("   ")).is_none());
    assert!(entry_of_cleaned(&chars("[NEW]"), &chars("[NEW]")).is_none());
}

#[test]
fn move_position_from_upper_keywords() {
    let t = chars("target");
    assert_eq!(move_position_from_upper(&chars("AFTER"), &t), Ok(MovePosition::After("target".to_string())));
    assert_eq!(move_position_from_upper(&chars("BEFORE"), &t), Ok(MovePosition::Before("target".to_string())));
    assert_eq!(
        move_position_from_upper(&chars("TO"), &t),
        Ok(MovePosition::EndOfSection("target".to_string()))
    );
    assert_eq!(
        move_position_from_upper(&chars("after"), &t),
        Err("Invalid position (use AFTER, BEFORE, or TO)".to_string())
    );
}

#[test]
fn build_markers_in_lower_text() {
    assert!(has_build_markers_lower("cmake_minimum_required(version 3.10)"));
    assert!(has_build_markers_lower("import os"));
    assert!(!has_build_markers_lower("IMPORT OS"));
    assert!(!has_build_markers_lower("hello world"));
}

fn block_reply() -> (Vec<char>, usize, (usize, usize)) {
    let text = "#__WARDEN_FILE__# a.rs\n\nfn x() {}\n\n#__WARDEN_END__#\n";
    let he = text.find('\n').expect("newline");
    let s = text.find("#__WARDEN_END__#").expect("end line");
    (chars(text), he, (s, s + "#__WARDEN_END__#".len()))
}

#[test]
fn file_block_gives_trimmed_content() {
    let (cs, he, end) = block_reply();
    let caps = Some(groups(&[Some("#__WARDEN_FILE__# a.rs"), Some(" a.rs ")]));
    let (next, block) = file_block(&cs, he, &caps, Some(end));
    assert_eq!(next, end.1);
    let (path, content) = block.expect("file");
    assert_eq!(path, "a.rs");
    assert_eq!(content.content, "fn x() {}");
    assert_eq!(content.line_count, 1);
}

#[test]
fn file_block_without_end_line() {
    let (cs, he, _) = block_reply();
    let caps = Some(groups(&[Some("#__WARDEN_FILE__# a.rs"), Some("a.rs")]));
    let (next, block) = file_block(&cs, he, &caps, None);
    assert_eq!(next, he);
    assert!(block.is_none());
}

#[test]
fn file_block_skipped_paths() {
    let (cs, he, end) = block_reply();
    let plan = Some(groups(&[Some("#__WARDEN_FILE__# PLAN"), Some("PLAN")]));
    assert_eq!(file_block(&cs, he, &plan, Some(end)).0, end.1);
    assert!(file_block(&cs, he, &plan, Some(end)).1.is_none());
    let (next, block) = file_block(&cs, he, &None, Some(end));
    assert_eq!(next, end.1);
    assert!(block.is_none());
}
