use warden::checks::{count_words, is_ignored};
use warden::clean::{commit_message, ensure_gitignore};
use warden::cli::{split_command, PackArgs};
use warden::config::project_defaults;
use warden::config::types::{
    default_ignore_tokens, default_max_tokens, CommandEntry, Config, GitMode, Preferences,
    RuleConfig, SlopChopToml, Theme,
};
use warden::constants::should_prune;
use warden::detection::{BuildSystemType, Detector};
use warden::discovery::{
    contains_pruned_component, filter_config, filter_pruned, has_build_markers, is_known_code,
};
use warden::lang::Lang;
use warden::pack::{
    pack_warden, pack_warden_focus, pack_xml, pack_xml_focus, should_skeletonize, FocusContext,
    OutputFormat, PackOptions, PackedFile,
};
use warden::pattern::Pattern;
use warden::project::{cargo_cmd, generate_toml, npm_cmd, npx_cmd, ProjectType};
use warden::prompt::PromptGenerator;
use warden::roadmap::audit::anchors::{filter_failures, verify_all, verify_anchor, FunctionProbe};
use warden::roadmap::audit::checker::{
    audit_task, check_roadmap, extract_anchor, split_anchor, AnchorProbe,
};
use warden::roadmap::audit::types::{TaskAnchor, VerificationStatus, ViolationReason};
use warden::roadmap::audit::{has_code_extension, is_heuristic_match, is_ignored_dir, verify_task};
use warden::roadmap::types::{Task, TaskStatus};

fn strings(v: &[&str]) -> Vec<String> {
    v.iter().map(|s| s.to_string()).collect()
}

fn options() -> PackOptions {
    PackOptions {
        stdout: false,
        copy: false,
        verbose: false,
        prompt: true,
        format: OutputFormat::Text,
        skeleton: false,
        git_only: false,
        no_git: false,
        code_only: false,
        target: None,
        focus: Vec::new(),
        depth: 0,
    }
}

fn packed(path: &str, full: &str, skeleton: &str) -> PackedFile {
    PackedFile { path: path.to_string(), full: Ok(full.to_string()), skeleton: Ok(skeleton.to_string()) }
}

fn legacy_task(text: &str) -> Task {
    Task {
        id: "write-docs".to_string(),
        path: "write-docs".to_string(),
        text: text.to_string(),
        status: TaskStatus::Complete,
        indent: 0,
        line: 0,
        children: Vec::new(),
        tests: Vec::new(),
    }
}

// ---------------------------------------------------------------------
// Configuration
// ---------------------------------------------------------------------

#[test]
fn defaults_match_the_documented_limits() {
    let r = RuleConfig::default();
    assert_eq!(r.max_file_tokens, 2000);
    assert_eq!(r.max_cyclomatic_complexity, 8);
    assert_eq!(r.max_nesting_depth, 3);
    assert_eq!(r.max_function_args, 5);
    assert_eq!(r.max_function_words, 5);
    assert!(r.ignore_naming_on.is_empty());
    assert_eq!(r.ignore_tokens_on, strings(&["README.md", "lock"]));
    assert_eq!(default_max_tokens(), 2000);
    assert_eq!(default_ignore_tokens(), strings(&["README.md", "lock"]));
    let p = Preferences::default();
    assert_eq!(p.theme, Theme::Cyberpunk);
    assert!(p.auto_copy && p.progress_bars && !p.auto_commit);
    assert_eq!(p.commit_prefix, "AI: ");
    assert_eq!(p.backup_retention, 5);
    let c = Config::new();
    assert_eq!(c.git_mode, GitMode::Auto);
    assert!(c.commands.is_empty());
    assert_eq!(c.validate(), Ok(()));
}

#[test]
fn ignore_lines_become_exclude_patterns() {
    let mut c = Config::new();
    c.process_ignore_line("  target/  ");
    c.process_ignore_line("# a comment");
    c.process_ignore_line("   ");
    c.process_ignore_line("(unclosed");
    assert_eq!(c.exclude_patterns.len(), 1);
    let kept = warden::discovery::filter_config(strings(&["x/target/y", "x/src/y"]), &c);
    assert_eq!(kept.map_err(|e| e.to_string()), Ok(strings(&["x/src/y"])));
}

#[test]
fn configuration_file_is_taken_over() {
    let mut c = Config::new();
    let mut rules = RuleConfig::default();
    rules.max_function_args = 7;
    let parsed = SlopChopToml {
        rules,
        preferences: Preferences::default(),
        commands: vec![
            ("check".to_string(), CommandEntry::Single("cargo test".to_string())),
            ("fix".to_string(), CommandEntry::List(strings(&["a", "b"]))),
        ],
    };
    c.apply_toml(parsed);
    assert_eq!(c.rules.max_function_args, 7);
    assert_eq!(
        c.commands,
        vec![
            ("check".to_string(), strings(&["cargo test"])),
            ("fix".to_string(), strings(&["a", "b"])),
        ]
    );
}

#[test]
fn project_defaults_fill_missing_commands() {
    let mut c = Config::new();
    c.commands.push(("fix".to_string(), strings(&["my fix"])));
    c.apply_project_defaults(ProjectType::Rust, false);
    assert_eq!(
        c.commands,
        vec![
            ("fix".to_string(), strings(&["my fix"])),
            (
                "check".to_string(),
                strings(&["cargo clippy --all-targets -- -D warnings -D clippy::pedantic", "cargo test"])
            ),
        ]
    );
    let mut d = Config::new();
    d.commands.push(("check".to_string(), strings(&["mine"])));
    d.apply_project_defaults(ProjectType::Python, false);
    assert_eq!(d.commands, vec![("check".to_string(), strings(&["mine"]))]);
    assert_eq!(
        project_defaults(ProjectType::Node, true),
        vec![
            ("check".to_string(), strings(&["npx.cmd @biomejs/biome check src/"])),
            ("fix".to_string(), strings(&["npx.cmd @biomejs/biome check --write src/"])),
        ]
    );
    assert!(project_defaults(ProjectType::Unknown, false).is_empty());
}

#[test]
fn command_entries_become_lists() {
    assert_eq!(CommandEntry::Single("x".to_string()).into_vec(), strings(&["x"]));
    assert_eq!(CommandEntry::List(strings(&["a", "b"])).into_vec(), strings(&["a", "b"]));
}

#[test]
fn project_detection_and_commands() {
    assert_eq!(ProjectType::detect(true, true, false, false), ProjectType::Rust);
    assert_eq!(ProjectType::detect(false, true, true, false), ProjectType::Node);
    assert_eq!(ProjectType::detect(false, false, false, true), ProjectType::Python);
    assert_eq!(ProjectType::detect(false, false, false, false), ProjectType::Unknown);
    assert_eq!(npx_cmd(false), "npx");
    assert_eq!(npm_cmd(true), "npm.cmd");
    assert_eq!(cargo_cmd(true), "cargo.exe");
}

#[test]
fn generated_configuration_file() {
    assert_eq!(
        generate_toml(ProjectType::Python, false),
        "# warden.toml\n[rules]\nmax_file_tokens = 2000\nmax_cyclomatic_complexity = 5\nmax_nesting_depth = 2\nmax_function_args = 5\nmax_function_words = 5\nignore_naming_on = [\"tests\", \"spec\"]\n\n[commands]\ncheck = \"ruff check .\"\nfix = \"ruff check --fix .\"\n"
    );
    let node = generate_toml(ProjectType::Node, false);
    assert!(node.ends_with("[commands]\ncheck = \"npx @biomejs/biome check src/\"\nfix = \"npx @biomejs/biome check --write src/\"\n"));
}

// ---------------------------------------------------------------------
// Discovery
// ---------------------------------------------------------------------

#[test]
fn pruned_names_and_paths() {
    assert!(should_prune("node_modules"));
    assert!(should_prune("Cargo.lock"));
    assert!(should_prune("tests"));
    assert!(!should_prune("src"));
    assert!(contains_pruned_component("a/target/b.rs"));
    assert!(!contains_pruned_component("src/main.rs"));
    assert_eq!(
        filter_pruned(strings(&["src/a.rs", "node_modules/x.js", "docs/readme.md", "b.rs"])),
        strings(&["src/a.rs", "b.rs"])
    );
}

#[test]
fn known_code_and_build_markers() {
    assert!(is_known_code("src/main.rs"));
    assert!(is_known_code("build/Makefile"));
    assert!(is_known_code("App.TSX"));
    assert!(!is_known_code("image.png"));
    assert!(has_build_markers("cmake_minimum_required(VERSION 3.10)"));
    assert!(has_build_markers("#INCLUDE <x>"));
    assert!(!has_build_markers("hello world"));
}

#[test]
fn configuration_filter_drops_secrets_and_binaries() {
    let c = Config::new();
    let kept = filter_config(strings(&["src/a.rs", ".env", "logo.png", "src\\b.rs", "notes.txt"]), &c).unwrap();
    assert_eq!(kept, strings(&["src/a.rs", "src\\b.rs", "notes.txt"]));
    let mut code = Config::new();
    code.code_only = true;
    code.process_ignore_line("^src/b");
    let kept2 = filter_config(strings(&["src/a.rs", "src\\b.rs", "notes.txt", "Makefile"]), &code).unwrap();
    assert_eq!(kept2, strings(&["src/a.rs", "Makefile"]));
}

// ---------------------------------------------------------------------
// Languages, prompts, build systems, names
// ---------------------------------------------------------------------

#[test]
fn languages_from_extensions() {
    assert_eq!(Lang::from_ext("rs"), Some(Lang::Rust));
    assert_eq!(Lang::from_ext("py"), Some(Lang::Python));
    assert_eq!(Lang::from_ext("tsx"), Some(Lang::TypeScript));
    assert_eq!(Lang::from_ext("go"), None);
    assert_eq!(Lang::Python.skeleton_replacement(), "...");
    assert_eq!(Lang::Rust.skeleton_replacement(), "{ ... }");
    assert_eq!(Lang::Rust.q_naming(), "(function_item name: (identifier) @name)");
    assert_eq!(Lang::Rust.q_skeleton(), "(function_item body: (block) @body)");
    assert!(Lang::Python.q_banned().is_none());
    assert!(Lang::Rust.q_banned().is_some());
    assert!(Lang::TypeScript.q_complexity().contains("(ternary_expression) @branch"));
    assert!(Lang::Python.q_imports().contains("(aliased_import name: (dotted_name) @import)"));
    assert!(Lang::Rust.q_defs().contains("(trait_item name: (type_identifier) @name) @sig"));
}

#[test]
fn prompts_state_the_limits() {
    let mut rules = RuleConfig::default();
    rules.max_function_args = 4;
    let g = PromptGenerator::new(rules);
    let prompt = g.generate().unwrap();
    assert!(prompt.starts_with("🛡️ SYSTEM MANDATE: THE WARDEN PROTOCOL\n"));
    assert!(prompt.contains("   - Files: MUST be < 2000 tokens (~60-100 logical statements).\n"));
    assert!(prompt.contains("   - Cyclomatic Complexity: MUST be ≤ 8 per function.\n"));
    assert!(prompt.contains("   - Nesting Depth: MUST be ≤ 3 levels.\n"));
    assert!(prompt.contains("   - Function Arguments: MUST be ≤ 4 parameters.\n"));
    let reminder = g.generate_reminder().unwrap();
    assert!(reminder.contains("□ Files < 2000 tokens\n□ Cyclomatic complexity ≤ 8 per function\n"));
    assert!(reminder.contains("□ Function parameters ≤ 4\n"));
    let header = g.wrap_header().unwrap();
    assert!(header.contains("🛡️ WARDEN PROTOCOL - AI SYSTEM PROMPT"));
    assert!(header.ends_with(&format!("{prompt}\n")));
}

#[test]
fn build_systems_are_detected_once_each() {
    let files = strings(&["a/Cargo.toml", "b/package.json", "c/Cargo.toml", "x/FindFoo.CMake", "readme.md"]);
    assert_eq!(
        Detector::new().detect_build_systems(&files).unwrap(),
        vec![BuildSystemType::Rust, BuildSystemType::Node, BuildSystemType::CMake]
    );
    assert_eq!(BuildSystemType::CMake.to_string(), "CMake");
}

#[test]
fn words_in_names() {
    assert_eq!(count_words("get_user_name"), 3);
    assert_eq!(count_words("getUserName"), 3);
    assert_eq!(count_words("GetUser"), 2);
    assert_eq!(count_words("x"), 1);
    assert!(is_ignored("src/tests/a.rs", &strings(&["tests"])));
    assert!(!is_ignored("src/a.rs", &strings(&["tests"])));
}

#[test]
fn unicode_case_conversions() {
    // MOVE position keywords are read case-insensitively through upper-casing.
    let cmd = warden::roadmap::cmd_parser::parse_command_line(&warden::text::to_chars("MOVE a after b"));
    assert_eq!(
        cmd,
        Ok(warden::roadmap::types::Command::Move {
            path: "a".to_string(),
            position: warden::roadmap::types::MovePosition::After("b".to_string()),
        })
    );
    // Build markers are found in lower-cased text.
    assert!(warden::discovery::has_build_markers("FIND_PACKAGE(Boost)"));
    assert!(!warden::discovery::has_build_markers("nothing here"));
    // Commit messages are lower-cased, with Unicode rules.
    assert_eq!(warden::clean::commit_message(&["Ȧdded ÀB"]), "chore: ȧdded àb");
}

#[test]
fn regular_expressions() {
    // A search reports character positions: the text before the plan holds
    // multi-byte characters.
    let reply = "é ü\n#__WARDEN_PLAN__#\nGOAL: ñ\n#__WARDEN_END__#\n";
    assert_eq!(warden::apply::extractor::extract_plan(reply), Some("GOAL: ñ".to_string()));
    // Exclusion patterns match anywhere in a path.
    let mut config = Config::new();
    config.process_ignore_line("a+");
    let kept = warden::discovery::filter_config(strings(&["src/baaab.rs", "src/x.rs"]), &config);
    assert_eq!(kept.map_err(|e| e.to_string()), Ok(strings(&["src/x.rs"])));
    assert!(Pattern::new("(").is_err());
    assert!(Pattern::new("a+").is_ok());
}

// ---------------------------------------------------------------------
// Clean, command lines, packing
// ---------------------------------------------------------------------

#[test]
fn gitignore_gets_the_context_file_once() {
    assert_eq!(ensure_gitignore(""), Some("context.txt\n".to_string()));
    assert_eq!(ensure_gitignore("target\n"), Some("target\ncontext.txt\n".to_string()));
    assert_eq!(ensure_gitignore("target"), Some("target\ncontext.txt\n".to_string()));
    assert_eq!(ensure_gitignore("target\n  context.txt \n"), None);
    assert_eq!(
        commit_message(&["Added context.txt to .gitignore", "Removed context.txt"]),
        "chore: added context.txt to .gitignore, removed context.txt"
    );
}

#[test]
fn command_lines_split_at_whitespace() {
    assert_eq!(
        split_command("cargo fmt  --all"),
        Some(("cargo".to_string(), strings(&["fmt", "--all"])))
    );
    assert_eq!(split_command("   "), None);
    let args = PackArgs {
        stdout: true,
        copy: false,
        noprompt: true,
        format: OutputFormat::Xml,
        skeleton: false,
        git_only: false,
        no_git: true,
        code_only: false,
        verbose: false,
        target: Some("src/a.rs".to_string()),
        focus: Vec::new(),
        depth: 2,
    };
    let o = args.into_options();
    assert!(o.stdout && !o.prompt && o.no_git);
    assert_eq!(o.format, OutputFormat::Xml);
    assert_eq!(o.depth, 2);
}

#[test]
fn skeleton_choice_follows_the_target() {
    let mut o = options();
    assert!(!should_skeletonize("src/a.rs", &o));
    o.target = Some("a.rs".to_string());
    assert!(!should_skeletonize("src/a.rs", &o));
    assert!(should_skeletonize("src/b.rs", &o));
    assert!(should_skeletonize("src/xa.rs", &o));
    o.skeleton = true;
    assert!(should_skeletonize("src/a.rs", &o));
}

#[test]
fn delimiter_pack() {
    let mut out = String::from(">");
    let files = vec![
        packed("src\\a.rs", "x", "sx"),
        PackedFile { path: "b.rs".to_string(), full: Err("missing".to_string()), skeleton: Err("missing".to_string()) },
    ];
    // A file that could not be read fails the pack, and nothing is written.
    assert_eq!(pack_warden(&files, &mut out, &options()), Err("missing".to_string()));
    assert_eq!(out, ">");
    pack_warden(&files[..1], &mut out, &options()).unwrap();
    assert_eq!(out, ">#__WARDEN_FILE__# src/a.rs\nx\n#__WARDEN_END__#\n\n");
    // Only the texts in use count: an unreadable skeleton is fine unpacked.
    let fine = vec![PackedFile { path: "c.rs".to_string(), full: Ok("c".to_string()), skeleton: Err("none".to_string()) }];
    let mut out2 = String::new();
    assert!(pack_warden(&fine, &mut out2, &options()).is_ok());
    let focus = FocusContext { foveal: Vec::new(), peripheral: strings(&["c.rs"]) };
    assert_eq!(pack_xml_focus(&fine, &mut out2, &options(), &focus), Err("none".to_string()));
}

#[test]
fn focused_delimiter_pack() {
    let files = vec![packed("a.rs", "full a", "sk a"), packed("b.rs", "full b", "sk b")];
    let focus = FocusContext { foveal: strings(&["a.rs"]), peripheral: strings(&["b.rs"]) };
    let mut out = String::new();
    pack_warden_focus(&files, &mut out, &options(), &focus).unwrap();
    assert_eq!(
        out,
        "# ═══ FOVEAL (full content) ═══\n\n#__WARDEN_FILE__# a.rs\nfull a\n#__WARDEN_END__#\n\n# ═══ PERIPHERAL (signatures only) ═══\n\n#__WARDEN_FILE__# b.rs [SKELETON]\nsk b\n#__WARDEN_END__#\n\n"
    );
}

#[test]
fn xml_pack_escapes_cdata_ends() {
    let files = vec![packed("a.rs", "x]]>y", "s")];
    let mut out = String::new();
    pack_xml(&files, &mut out, &options()).unwrap();
    assert_eq!(
        out,
        "<documents>\n  <document path=\"a.rs\"><![CDATA[\nx]]]]><![CDATA[>y]]></document>\n</documents>\n"
    );
    let focus = FocusContext { foveal: Vec::new(), peripheral: strings(&["a.rs"]) };
    let mut out2 = String::new();
    pack_xml_focus(&files, &mut out2, &options(), &focus).unwrap();
    assert_eq!(
        out2,
        "<documents>\n  <document path=\"a.rs\" focus=\"peripheral\"><![CDATA[\ns]]></document>\n</documents>\n"
    );
}

// ---------------------------------------------------------------------
// Traceability audit
// ---------------------------------------------------------------------

#[test]
fn anchors_are_cut_out_of_task_text() {
    assert_eq!(
        extract_anchor("Write docs <!-- test: tests/doc.rs::docs_work -->"),
        ("Write docs".to_string(), Some("tests/doc.rs::docs_work".to_string()))
    );
    assert_eq!(extract_anchor("No anchor"), ("No anchor".to_string(), None));
    assert_eq!(
        split_anchor("tests/doc.rs::docs_work"),
        ("tests/doc.rs".to_string(), Some("docs_work".to_string()))
    );
    assert_eq!(split_anchor("tests/doc.rs"), ("tests/doc.rs".to_string(), None));
}

#[test]
fn task_audit_reasons() {
    let t = legacy_task("Write docs <!-- test: tests/doc.rs::docs_work -->");
    let ok = AnchorProbe { file_exists: true, content: Some("fn docs_work() {}".to_string()) };
    assert!(audit_task(&t, &ok).is_empty());
    let missing_fn = AnchorProbe { file_exists: true, content: Some("fn other() {}".to_string()) };
    let v = audit_task(&t, &missing_fn);
    assert_eq!(v.len(), 1);
    assert!(matches!(&v[0].reason, ViolationReason::MissingTestFunction { file, function }
        if file == "tests/doc.rs" && function == "docs_work"));
    let no_file = AnchorProbe { file_exists: false, content: None };
    assert!(matches!(&audit_task(&t, &no_file)[0].reason,
        ViolationReason::MissingTestFile(f) if f == "tests/doc.rs"));
    let plain = legacy_task("Write docs");
    let anchored = legacy_task("Write docs <!-- test: tests/doc.rs::docs_work -->");
    let all = check_roadmap(&[anchored, plain], &[ok, no_file]);
    assert_eq!(all.len(), 1);
    assert!(matches!(all[0].reason, ViolationReason::NoTraceability));
}

#[test]
fn anchor_checks() {
    let a = TaskAnchor { task_path: "t".to_string(), file: "tests/x.rs".to_string(), function: "f".to_string() };
    let missing = verify_anchor(&a, &FunctionProbe { file_exists: false, found: Ok(false) });
    assert_eq!(missing.status, VerificationStatus::MissingFile);
    assert_eq!(missing.detail, Some("File not found: tests/x.rs".to_string()));
    let results = verify_all(
        &[a.clone(), a.clone(), a.clone()],
        &[
            FunctionProbe { file_exists: true, found: Ok(true) },
            FunctionProbe { file_exists: true, found: Ok(false) },
            FunctionProbe { file_exists: true, found: Err("bad parse".to_string()) },
        ],
    );
    assert_eq!(results[0].status, VerificationStatus::Verified);
    assert_eq!(results[1].detail, Some("Function 'f' not found in tests/x.rs".to_string()));
    assert_eq!(results[2].status, VerificationStatus::ParseError);
    let failures = filter_failures(&results);
    assert_eq!(failures.len(), 2);
    assert_eq!(failures[0].status, VerificationStatus::MissingFunction);
}

#[test]
fn heuristic_test_files() {
    assert!(is_ignored_dir(".git"));
    assert!(is_ignored_dir("vendor"));
    assert!(!is_ignored_dir("src"));
    assert!(has_code_extension("a/b/Test.RS"));
    assert!(!has_code_extension("README.md"));
    assert!(!has_code_extension(".rs"));
    assert!(is_heuristic_match("src/foo_test.rs", true));
    assert!(is_heuristic_match("tests/helper.py", true));
    assert!(!is_heuristic_match("src/main.rs", true));
    assert!(!is_heuristic_match("src/foo_test.rs", false));
    let t = legacy_task("Write docs");
    assert!(verify_task(&t, &[], &strings(&["tests/write_docs.rs"])));
    assert!(!verify_task(&t, &[], &strings(&["tests/other.rs"])));
    let mut anchored = legacy_task("Write docs");
    anchored.tests = strings(&["tests/a.rs", "tests/b.rs"]);
    assert!(verify_task(&anchored, &[true, true], &[]));
    assert!(!verify_task(&anchored, &[true, false], &[]));
}

#[test]
fn gitignore_update_is_needed_once() {
    for start in ["", "target", "target\n", "a\r\nb"] {
        let once = ensure_gitignore(start).expect("first update adds the file");
        assert_eq!(ensure_gitignore(&once), None);
    }
}
