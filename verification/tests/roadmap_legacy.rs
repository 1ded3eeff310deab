use warden::roadmap::cli::{should_show_task, template};
use warden::roadmap::cmd_handlers::{
    handle_add, handle_add_section, handle_add_subsection, handle_chain, handle_check,
    handle_delete, handle_move, handle_note, handle_uncheck, handle_update,
};
use warden::roadmap::cmd_helpers::{
    find_line_idx, find_line_idx_in_lines, insert_raw, is_task, remove_raw, replace_raw,
    scan_insertion_point,
};
use warden::roadmap::cmd_parser::parse_command_line;
use warden::roadmap::cmd_runner::run;
use warden::roadmap::diff::{
    diff_text, generate_slug_for_legacy, generate_update_commands, infer_command,
};
use warden::roadmap::parser::{generate_id, parse};
use warden::roadmap::str_utils::{
    extract_quoted_text, is_ignorable, parse_quoted, parse_quoted_list, parse_quoted_with_after,
    slugify, split_first_word, truncate,
};
use warden::roadmap::types::{
    ApplyResult, Command, CommandBatch, MovePosition, Roadmap, Task, TaskStatus,
};
use warden::text::to_chars;

const SAMPLE: &str = "# Project\n\n## v0.1\n\n- [ ] Write docs\n- [x] Ship it\n";

fn roadmap(raw: &str) -> Roadmap {
    Roadmap { path: None, title: "Project".to_string(), sections: Vec::new(), raw: raw.to_string() }
}

fn task(text: &str, status: TaskStatus) -> Task {
    let id = slugify(text);
    Task {
        id: id.clone(),
        path: id,
        text: text.to_string(),
        status,
        indent: 0,
        line: 0,
        children: Vec::new(),
        tests: Vec::new(),
    }
}

// ---------------------------------------------------------------------
// String helpers
// ---------------------------------------------------------------------

#[test]
fn slugify_lowercases_and_joins_words() {
    assert_eq!(slugify("Hello, World!"), "hello-world");
    assert_eq!(slugify("  --A--b  "), "a-b");
    assert_eq!(slugify("v0.1"), "v0-1");
    assert_eq!(slugify("***"), "");
}

#[test]
fn split_first_word_trims_both_parts() {
    assert_eq!(split_first_word("  hello   big world "), ("hello".to_string(), "big world".to_string()));
    assert_eq!(split_first_word("single"), ("single".to_string(), String::new()));
}

#[test]
fn parse_quoted_unescapes_quotes() {
    assert_eq!(parse_quoted("\"a \\\"b\\\" c\""), Ok("a \"b\" c".to_string()));
    assert_eq!(parse_quoted("  plain text "), Ok("plain text".to_string()));
    assert_eq!(parse_quoted("\"unclosed"), Err("Unclosed quote".to_string()));
    // Only an opening quote that is not closed fails `parse_quoted`.
    assert_eq!(parse_quoted("say \"hi"), Ok("say \"hi".to_string()));
}

#[test]
fn parse_quoted_with_after_reads_the_target() {
    assert_eq!(
        parse_quoted_with_after("\"Do it\" AFTER other-task"),
        Ok(("Do it".to_string(), Some("other-task".to_string())))
    );
    assert_eq!(
        parse_quoted_with_after("Do it AFTER x"),
        Ok(("Do it".to_string(), Some("x".to_string())))
    );
    assert_eq!(parse_quoted_with_after("\"Do it\""), Ok(("Do it".to_string(), None)));
    assert_eq!(
        parse_quoted_with_after("\"Do it\" after y"),
        Ok(("Do it".to_string(), Some("y".to_string())))
    );
}

#[test]
fn extract_quoted_text_returns_the_remainder() {
    assert_eq!(extract_quoted_text("\"x\"  rest "), Ok(("x".to_string(), "rest".to_string())));
    assert_eq!(extract_quoted_text("no quotes"), Ok(("no quotes".to_string(), String::new())));
}

#[test]
fn parse_quoted_list_needs_quoted_items() {
    assert_eq!(parse_quoted_list("\"a\" \"b c\""), Ok(vec!["a".to_string(), "b c".to_string()]));
    assert_eq!(parse_quoted_list("\"a\" b"), Err("Expected a quoted item".to_string()));
    assert_eq!(parse_quoted_list(""), Ok(Vec::new()));
}

#[test]
fn ignorable_lines_are_framing() {
    assert!(is_ignorable("===roadmap==="));
    assert!(is_ignorable("roadmap"));
    assert!(is_ignorable("End"));
    assert!(is_ignorable("```rust"));
    assert!(is_ignorable("#__WARDEN_END__#"));
    assert!(!is_ignorable("CHECK x"));
}

#[test]
fn truncate_cuts_long_text() {
    assert_eq!(truncate("abcdef", 3), "abc...");
    assert_eq!(truncate("abc", 3), "abc");
}

// ---------------------------------------------------------------------
// Command language
// ---------------------------------------------------------------------

#[test]
fn batch_parses_the_roadmap_block() {
    let input = "intro\n===ROADMAP===\nCHECK a\nFOO bar\n# comment\nUPDATE b \"New text\"\n===END===\ntrailer";
    let batch = CommandBatch::parse(input);
    assert_eq!(
        batch.commands,
        vec![
            Command::Check { path: "a".to_string() },
            Command::Update { path: "b".to_string(), text: "New text".to_string() },
        ]
    );
    assert_eq!(batch.errors, vec!["Line 'FOO bar': Unknown command: FOO".to_string()]);
    assert_eq!(batch.summary(), "1 CHECK, 1 UPDATE");
}

#[test]
fn batch_summary_counts_each_keyword() {
    let batch = CommandBatch::parse("CHECK a\nCHECK b\nDELETE c");
    assert_eq!(batch.summary(), "2 CHECK, 1 DELETE");
    assert_eq!(CommandBatch::parse("").summary(), "No commands");
}

#[test]
fn command_line_errors_name_the_problem() {
    assert_eq!(parse_command_line(&to_chars("CHECK")), Err("Requires task path".to_string()));
    assert_eq!(parse_command_line(&to_chars("ADD")), Err("ADD needs parent".to_string()));
    assert_eq!(parse_command_line(&to_chars("")), Err("Empty command".to_string()));
}

#[test]
fn structural_commands_parse() {
    assert_eq!(
        parse_command_line(&to_chars("MOVE a AFTER b")),
        Ok(Command::Move { path: "a".to_string(), position: MovePosition::After("b".to_string()) })
    );
    assert_eq!(
        parse_command_line(&to_chars("SECTION \"Later\"")),
        Ok(Command::AddSection { heading: "Later".to_string() })
    );
}

#[test]
fn commands_print_as_in_reports() {
    let add = Command::Add { parent: "v1".to_string(), text: "Do x".to_string(), after: Some("y".to_string()) };
    assert_eq!(add.to_string(), "ADD v1 \"Do x\"");
    let mv = Command::Move { path: "p".to_string(), position: MovePosition::EndOfSection("s".to_string()) };
    assert_eq!(mv.to_string(), "MOVE p TO s");
    assert_eq!(Command::AddSection { heading: "H".to_string() }.to_string(), "SECTION \"H\"");
    assert_eq!(
        Command::ReplaceSection { id: "s1".to_string(), content: "c".to_string() }.to_string(),
        "REPLACE s1"
    );
    assert_eq!(
        Command::AddSubsection { parent: "p".to_string(), heading: "h".to_string() }.to_string(),
        ""
    );
    assert_eq!(ApplyResult::NotFound("x".to_string()).to_string(), "✗ Not found: x");
    assert_eq!(ApplyResult::Success("ok".to_string()).to_string(), "✓ ok");
}

#[test]
fn printed_commands_parse_back() {
    let cmds = vec![
        Command::Check { path: "write-docs".to_string() },
        Command::Uncheck { path: "a".to_string() },
        Command::Delete { path: "b-c".to_string() },
        Command::Update { path: "a-b".to_string(), text: "New text".to_string() },
        Command::Note { path: "x".to_string(), note: "see wiki".to_string() },
        Command::Add { parent: "v1".to_string(), text: "Do it".to_string(), after: None },
    ];
    for cmd in cmds {
        let line = cmd.to_string();
        assert_eq!(parse_command_line(&to_chars(&line)), Ok(cmd));
    }
}

// ---------------------------------------------------------------------
// Editing the Markdown
// ---------------------------------------------------------------------

#[test]
fn task_lines_are_found_by_slug() {
    assert!(is_task("  - [x] done"));
    assert!(!is_task("- item"));
    assert_eq!(find_line_idx(&roadmap(SAMPLE), "ship-it"), Some(5));
    assert_eq!(find_line_idx(&roadmap(SAMPLE), "nothing"), None);
    assert_eq!(find_line_idx_in_lines(&["## A", "- [ ] Task one"], "task-one"), Some(1));
}

#[test]
fn insertion_point_follows_the_section() {
    let lines = ["# P", "## A", "- [ ] x", "## B"];
    assert_eq!(scan_insertion_point(&lines, "a", None), Some(3));
    assert_eq!(scan_insertion_point(&lines, "a", Some("x")), Some(3));
    assert_eq!(scan_insertion_point(&lines, "a", Some("zzz")), Some(2));
    assert_eq!(scan_insertion_point(&lines, "b", None), Some(4));
    assert_eq!(scan_insertion_point(&lines, "zzz", None), None);
}

#[test]
fn raw_line_edits() {
    let mut r = roadmap("a\nb\nc");
    replace_raw(&mut r, 1, "B".to_string());
    assert_eq!(r.raw, "a\nB\nc");
    insert_raw(&mut r, 3, "d".to_string());
    assert_eq!(r.raw, "a\nB\nc\nd");
    remove_raw(&mut r, 0);
    assert_eq!(r.raw, "B\nc\nd");
    remove_raw(&mut r, 9);
    assert_eq!(r.raw, "B\nc\nd");
}

#[test]
fn check_and_uncheck_tick_the_box() {
    let mut r = roadmap(SAMPLE);
    assert_eq!(handle_check(&mut r, "write-docs"), Ok(()));
    assert_eq!(r.raw, "# Project\n\n## v0.1\n\n- [x] Write docs\n- [x] Ship it");
    assert_eq!(handle_uncheck(&mut r, "ship-it"), Ok(()));
    assert_eq!(r.raw, "# Project\n\n## v0.1\n\n- [x] Write docs\n- [ ] Ship it");
}

#[test]
fn missing_task_is_reported_and_nothing_changes() {
    let mut r = roadmap(SAMPLE);
    assert_eq!(handle_check(&mut r, "missing"), Err("Task not found: missing".to_string()));
    assert_eq!(handle_delete(&mut r, "missing"), Err("Task not found: missing".to_string()));
    assert_eq!(r.raw, SAMPLE);
}

#[test]
fn delete_removes_the_line() {
    let mut r = roadmap(SAMPLE);
    assert_eq!(handle_delete(&mut r, "ship-it"), Ok(()));
    assert_eq!(r.raw, "# Project\n\n## v0.1\n\n- [ ] Write docs");
}

#[test]
fn add_goes_to_the_end_of_the_section_or_after_the_target() {
    let mut r = roadmap(SAMPLE);
    assert_eq!(handle_add(&mut r, "v0-1", "New task", None), Ok(()));
    assert_eq!(r.raw, "# Project\n\n## v0.1\n\n- [ ] Write docs\n- [x] Ship it\n- [ ] New task");
    let mut r2 = roadmap(SAMPLE);
    assert_eq!(handle_add(&mut r2, "v0-1", "New task", Some("write-docs")), Ok(()));
    assert_eq!(r2.raw, "# Project\n\n## v0.1\n\n- [ ] Write docs\n- [ ] New task\n- [x] Ship it");
    let mut r3 = roadmap(SAMPLE);
    assert_eq!(
        handle_add(&mut r3, "nope", "x", None),
        Err("Could not determine insertion point for parent 'nope'".to_string())
    );
    assert_eq!(r3.raw, SAMPLE);
}

#[test]
fn update_keeps_the_box() {
    let mut r = roadmap(SAMPLE);
    assert_eq!(handle_update(&mut r, "write-docs", "Write better docs"), Ok(()));
    assert_eq!(r.raw, "# Project\n\n## v0.1\n\n- [ ] Write better docs\n- [x] Ship it");
}

#[test]
fn note_is_indented_under_the_task() {
    let mut r = roadmap("## A\n  - [ ] Sub task\nend");
    assert_eq!(handle_note(&mut r, "sub-task", "see wiki"), Ok(()));
    assert_eq!(r.raw, "## A\n  - [ ] Sub task\n    > see wiki\nend");
}

#[test]
fn unsupported_commands_fail_without_change() {
    let mut r = roadmap(SAMPLE);
    assert_eq!(
        handle_move(&mut r, "a", MovePosition::Before("b".to_string())),
        Err("MOVE command not supported in legacy mode".to_string())
    );
    assert_eq!(
        handle_chain(&mut r, "a", vec!["x".to_string()]),
        Err("CHAIN command not supported in legacy mode".to_string())
    );
    assert_eq!(r.raw, SAMPLE);
}

#[test]
fn sections_are_appended() {
    let mut r = roadmap("x");
    assert_eq!(handle_add_section(&mut r, "Later"), Ok(()));
    assert_eq!(r.raw, "x\n## Later\n");
    assert_eq!(handle_add_subsection(&mut r, "later", "Sub"), Ok(()));
    assert_eq!(r.raw, "x\n## Later\n\n### Sub\n");
}

#[test]
fn runner_reports_each_command() {
    let mut r = roadmap(SAMPLE);
    let cmds = vec![
        Command::Check { path: "write-docs".to_string() },
        Command::Check { path: "missing".to_string() },
        Command::ReplaceSection { id: "s".to_string(), content: "c".to_string() },
    ];
    let results = run(&mut r, &cmds);
    assert_eq!(
        results,
        vec![
            ApplyResult::Success("Applied CHECK write-docs".to_string()),
            ApplyResult::Error("Failed CHECK missing: Task not found: missing".to_string()),
            ApplyResult::Error("Failed REPLACE s: Command not supported".to_string()),
        ]
    );
    assert_eq!(r.raw, "# Project\n\n## v0.1\n\n- [x] Write docs\n- [x] Ship it");
}

// ---------------------------------------------------------------------
// Parsing and diffing whole roadmaps
// ---------------------------------------------------------------------

#[test]
fn parse_reads_sections_and_tasks() {
    let content = "# Title\n\n- [ ] orphan\n## Phase 1\n- [x] Done thing\n- [ ] Todo thing\n===ROADMAP===\n## Phase 2\n- [ ] Later\n";
    let r = parse(content).unwrap();
    assert_eq!(r.raw, content);
    assert_eq!(r.title, "Parsed Roadmap");
    assert_eq!(r.sections.len(), 3);
    assert_eq!(r.sections[0].heading, "Title");
    assert_eq!(r.sections[0].tasks.len(), 1);
    assert_eq!(r.sections[1].id, "phase-1");
    assert_eq!(r.sections[1].tasks.len(), 2);
    assert_eq!(r.sections[1].tasks[0].text, "Done thing");
    assert_eq!(r.sections[1].tasks[0].status, TaskStatus::Complete);
    assert_eq!(r.sections[1].tasks[1].id, "todo-thing");
    assert_eq!(r.sections[1].tasks[1].status, TaskStatus::Pending);
    assert_eq!(r.sections[2].tasks[0].path, "later");
}

#[test]
fn tasks_before_any_heading_are_dropped() {
    let r = parse("- [ ] orphan\n## A\n- [ ] t").unwrap();
    assert_eq!(r.sections.len(), 1);
    assert_eq!(r.sections[0].tasks.len(), 1);
    assert_eq!(generate_id("Hello World"), "hello-world");
}

#[test]
fn diff_generates_commands() {
    let old = parse("## A\n- [ ] one\n- [ ] two\n").unwrap();
    let new = parse("## A\n- [x] one\n- [ ] three\n").unwrap();
    assert_eq!(
        generate_update_commands(&old, &new),
        vec![
            Command::Check { path: "one".to_string() },
            Command::Add { parent: "unknown".to_string(), text: "three".to_string(), after: None },
            Command::Delete { path: "two".to_string() },
        ]
    );
}

#[test]
fn unchanged_roadmap_needs_no_commands() {
    let r = parse("## A\n- [ ] one\n- [x] two\n## B\n- [ ] three\n").unwrap();
    assert_eq!(generate_update_commands(&r, &r), Vec::<Command>::new());
}

#[test]
fn diff_text_and_inferred_commands() {
    assert_eq!(diff_text("a", "a"), "No changes");
    assert_eq!(diff_text("a", "b"), "OLD:\na\n\nNEW:\nb");
    let done = task("Ship", TaskStatus::Complete);
    let open = task("Ship", TaskStatus::Pending);
    assert_eq!(infer_command(Some(&open), &done), Command::Check { path: "ship".to_string() });
    assert_eq!(infer_command(Some(&done), &open), Command::Uncheck { path: "ship".to_string() });
    assert_eq!(
        infer_command(Some(&done), &done),
        Command::Update { path: "ship".to_string(), text: "Ship".to_string() }
    );
    assert_eq!(
        infer_command(None, &done),
        Command::Add { parent: "unknown".to_string(), text: "Ship".to_string(), after: None }
    );
    assert_eq!(generate_slug_for_legacy("My Title"), "my-title");
}

#[test]
fn task_listing_filters_and_template() {
    assert!(should_show_task(TaskStatus::Pending, true, false));
    assert!(!should_show_task(TaskStatus::Complete, true, false));
    assert!(should_show_task(TaskStatus::Complete, false, true));
    assert!(should_show_task(TaskStatus::Complete, true, true));
    assert_eq!(
        template("Demo"),
        "# Demo Roadmap\n\n## v0.1.0\n\n- [ ] Init\n\n## v0.2.0\n\n## v0.3.0\n"
    );
}

#[test]
fn slugify_of_a_slug_is_unchanged() {
    for s in ["Hello, World!!", "  --Fix the  BUG #42-- ", "already-a-slug", "", "!!!"] {
        let once = slugify(s);
        assert_eq!(slugify(&once), once);
    }
    assert_eq!(slugify("Hello, World!!"), "hello-world");
}

#[test]
fn all_tasks_lists_tasks_section_after_section() {
    let r = parse("# Title\n\n- [ ] orphan\n## Phase 1\n- [x] Done thing\n- [ ] Todo thing\n## Phase 2\n- [ ] Later\n").unwrap();
    let texts: Vec<&str> = r.all_tasks().iter().map(|t| t.text.as_str()).collect();
    assert_eq!(texts, vec!["orphan", "Done thing", "Todo thing", "Later"]);
    let stats = r.stats();
    assert_eq!((stats.total, stats.complete, stats.pending), (4, 1, 3));
}

#[test]
fn uncheck_undoes_check() {
    let raw = "# Project\n\n## v0.1\n\n- [ ] Write docs\n  - [ ] Nested step\n- [x] Ship it";
    let mut r = roadmap(raw);
    assert_eq!(handle_check(&mut r, "write-docs"), Ok(()));
    assert_ne!(r.raw, raw);
    assert_eq!(handle_uncheck(&mut r, "write-docs"), Ok(()));
    assert_eq!(r.raw, raw);
    // A trailing line feed is not kept by the line-wise rewrite.
    let mut t = roadmap("- [ ] a\n");
    assert_eq!(handle_check(&mut t, "a"), Ok(()));
    assert_eq!(handle_uncheck(&mut t, "a"), Ok(()));
    assert_eq!(t.raw, "- [ ] a");
}

#[test]
fn printed_section_parses_back() {
    let cmds = vec![
        Command::Check { path: "write-docs".to_string() },
        Command::Update { path: "a".to_string(), text: "New text".to_string() },
        Command::AddSection { heading: "Phase 3".to_string() },
    ];
    for c in cmds {
        let line = c.to_string();
        assert_eq!(parse_command_line(&to_chars(&line)), Ok(c));
    }
}

#[test]
fn delete_undoes_add() {
    let raw = "# Project\n\n## v0.1\n\n- [ ] Write docs\n\n## v0.2\n- [x] Ship it";
    let mut r = roadmap(raw);
    assert_eq!(handle_add(&mut r, "v0-1", "Fresh task", None), Ok(()));
    assert!(r.raw.contains("- [ ] Fresh task"));
    assert_eq!(handle_delete(&mut r, "fresh-task"), Ok(()));
    assert_eq!(r.raw, raw);
}

#[test]
fn unbalanced_quotes_are_an_error() {
    assert_eq!(extract_quoted_text("say \"hi"), Err("Unclosed quote".to_string()));
    assert_eq!(parse_quoted("\"unclosed"), Err("Unclosed quote".to_string()));
    // Only an opening quote that is not closed fails `parse_quoted`.
    assert_eq!(parse_quoted("say \"hi"), Ok("say \"hi".to_string()));
    assert_eq!(
        extract_quoted_text("say \"hi\" now"),
        Ok(("say \"hi\" now".to_string(), String::new()))
    );
    assert_eq!(extract_quoted_text("say \\\"hi"), Ok(("say \\\"hi".to_string(), String::new())));
}

#[test]
fn remove_undoes_insert() {
    let raw = "# P\n\n## v1\n- [ ] a";
    for idx in 0..=4 {
        let mut r = roadmap(raw);
        warden::roadmap::cmd_helpers::insert_raw(&mut r, idx, "- [ ] new".to_string());
        warden::roadmap::cmd_helpers::remove_raw(&mut r, idx);
        assert_eq!(r.raw, raw);
    }
}

#[test]
fn remove_undoes_insert_of_line_ending_in_carriage_return() {
    let raw = "# P\n\n## v1\n- [ ] a";
    for idx in 0..=4 {
        let mut r = roadmap(raw);
        warden::roadmap::cmd_helpers::insert_raw(&mut r, idx, "- [ ] new\r".to_string());
        warden::roadmap::cmd_helpers::remove_raw(&mut r, idx);
        assert_eq!(r.raw, raw);
    }
}

#[test]
fn deletions_come_last_and_once() {
    let old = parse("## A\n- [ ] One\n- [ ] Two\n- [ ] Three").unwrap();
    let new = parse("## A\n- [x] One\n- [ ] Four").unwrap();
    let cmds = generate_update_commands(&old, &new);
    let first_delete = cmds.iter().position(|c| matches!(c, Command::Delete { .. })).unwrap();
    assert!(cmds[first_delete..].iter().all(|c| matches!(c, Command::Delete { .. })));
    assert_eq!(
        cmds[first_delete..].to_vec(),
        vec![Command::Delete { path: "two".to_string() }, Command::Delete { path: "three".to_string() }]
    );
}

#[test]
fn roadmap_is_saved_when_a_command_succeeded() {
    let should_save = warden::roadmap::cli::should_save;
    assert!(!should_save(&[]));
    assert!(!should_save(&[ApplyResult::NotFound("x".to_string())]));
    assert!(should_save(&[ApplyResult::Error("e".to_string()), ApplyResult::Success("ok".to_string())]));
}
