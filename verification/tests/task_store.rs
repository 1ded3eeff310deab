use warden::error::SlopChopError;
use warden::roadmap_v2::handle_input;
use warden::roadmap_v2::types::{
    RoadmapCommand, RoadmapMeta, Section, SectionStatus, Task, TaskStatus, TaskStore, TaskUpdate,
};

fn task(id: &str, text: &str, status: TaskStatus) -> Task {
    Task {
        id: id.to_string(),
        text: text.to_string(),
        status,
        section: "s1".to_string(),
        group: None,
        test: None,
    }
}

fn store() -> TaskStore {
    let mut b = task("b", "B", TaskStatus::Done);
    b.group = Some("G".to_string());
    b.test = Some("tests/b.rs".to_string());
    TaskStore {
        meta: RoadmapMeta { title: "Demo".to_string(), description: String::new() },
        sections: vec![Section {
            id: "s1".to_string(),
            title: "Phase".to_string(),
            status: SectionStatus::Current,
        }],
        tasks: vec![task("a", "A", TaskStatus::Pending), b],
    }
}

fn other(msg: &str) -> SlopChopError {
    SlopChopError::Other(msg.to_string())
}

#[test]
fn check_marks_the_task_done() {
    let mut s = store();
    assert_eq!(s.apply(RoadmapCommand::Check { id: "a".to_string() }), Ok(()));
    assert_eq!(s.tasks[0].status, TaskStatus::Done);
    assert_eq!(s.tasks[1].status, TaskStatus::Done);
    assert_eq!(s.apply(RoadmapCommand::Check { id: "a".to_string() }), Ok(()));
    assert_eq!(s.tasks[0].status, TaskStatus::Done);
    assert_eq!(s.apply(RoadmapCommand::Uncheck { id: "a".to_string() }), Ok(()));
    assert_eq!(s.tasks[0].status, TaskStatus::Pending);
}

#[test]
fn commands_on_a_missing_id_fail() {
    let mut s = store();
    let fields = TaskUpdate { text: None, test: None, section: None, group: None };
    assert_eq!(s.apply(RoadmapCommand::Check { id: "x".to_string() }), Err(other("Task not found: x")));
    assert_eq!(s.apply(RoadmapCommand::Uncheck { id: "x".to_string() }), Err(other("Task not found: x")));
    assert_eq!(
        s.apply(RoadmapCommand::Update { id: "x".to_string(), fields }),
        Err(other("Task not found: x"))
    );
    assert_eq!(s.apply(RoadmapCommand::Delete { id: "x".to_string() }), Err(other("Task not found: x")));
    assert_eq!(s.tasks.len(), 2);
}

#[test]
fn duplicate_add_is_refused() {
    let mut s = store();
    assert_eq!(
        s.apply(RoadmapCommand::Add(task("a", "Again", TaskStatus::Pending))),
        Err(other("Task already exists: a"))
    );
    assert_eq!(s.tasks.len(), 2);
    assert_eq!(s.tasks[0].text, "A");
}

#[test]
fn add_then_delete_restores_the_tasks() {
    let mut s = store();
    assert_eq!(s.apply(RoadmapCommand::Add(task("c", "C", TaskStatus::Pending))), Ok(()));
    assert_eq!(s.tasks.len(), 3);
    assert_eq!(s.tasks[2].id, "c");
    assert_eq!(s.apply(RoadmapCommand::Delete { id: "c".to_string() }), Ok(()));
    assert_eq!(s.tasks.len(), 2);
    assert_eq!(s.tasks[0].id, "a");
    assert_eq!(s.tasks[1].id, "b");
}

#[test]
fn update_sets_only_given_fields() {
    let mut s = store();
    let fields = TaskUpdate {
        text: Some("B2".to_string()),
        test: None,
        section: Some("s2".to_string()),
        group: None,
    };
    assert_eq!(s.apply(RoadmapCommand::Update { id: "b".to_string(), fields }), Ok(()));
    assert_eq!(s.tasks[1].text, "B2");
    assert_eq!(s.tasks[1].section, "s2");
    assert_eq!(s.tasks[1].group, Some("G".to_string()));
    assert_eq!(s.tasks[1].test, Some("tests/b.rs".to_string()));
    let empty = TaskUpdate { text: None, test: None, section: None, group: None };
    assert_eq!(s.apply(RoadmapCommand::Update { id: "a".to_string(), fields: empty }), Ok(()));
    assert_eq!(s.tasks[0].text, "A");
}

#[test]
fn errors_display_their_message() {
    assert_eq!(other("Task not found: x").to_string(), "Generic error: Task not found: x");
    assert_eq!(SlopChopError::NotInGitRepo.to_string(), "Not inside a Git repository");
    assert_eq!(SlopChopError::Regex("bad".to_string()).to_string(), "Regex error: bad");
}

#[test]
fn markdown_groups_tasks_by_section_and_group() {
    let s = store();
    assert_eq!(
        s.to_markdown(),
        "# Demo\n\n---\n\n## Phase ?? CURRENT\n\n- [ ] **A**\n\n### G\n- [x] **B** <!-- test: tests/b.rs -->\n\n---\n\n"
    );
}

#[test]
fn markdown_marks_untested_done_tasks() {
    let mut s = store();
    s.meta.description = "About".to_string();
    s.sections[0].status = SectionStatus::Complete;
    s.tasks = vec![task("n", "N", TaskStatus::NoTest)];
    assert_eq!(
        s.to_markdown(),
        "# Demo\n\nAbout\n\n---\n\n## Phase ?\n\n- [x] **N** [no-test]\n\n---\n\n"
    );
}

#[test]
fn default_store_is_empty() {
    let s = TaskStore::default();
    assert_eq!(s.tasks.len(), 0);
    assert_eq!(s.to_markdown(), "# \n\n---\n\n");
}

#[test]
fn batch_of_commands_counts_successes() {
    let mut s = store();
    let out = handle_input(
        &mut s,
        vec![
            RoadmapCommand::Check { id: "a".to_string() },
            RoadmapCommand::Delete { id: "zzz".to_string() },
            RoadmapCommand::Delete { id: "b".to_string() },
        ],
    );
    assert_eq!(out.applied, 2);
    assert_eq!(out.results, vec![Ok(()), Err(other("Task not found: zzz")), Ok(())]);
    assert_eq!(s.tasks.len(), 1);
    assert_eq!(s.tasks[0].status, TaskStatus::Done);
}

#[test]
fn batch_report_lines_name_each_command() {
    let mut s = store();
    let mut fresh = task("c", "Say \"hi\"\n", TaskStatus::Pending);
    fresh.test = Some("t.rs".to_string());
    let cmds = vec![
        RoadmapCommand::Check { id: "a".to_string() },
        RoadmapCommand::Delete { id: "zzz".to_string() },
        RoadmapCommand::Add(fresh),
        RoadmapCommand::Update {
            id: "a".to_string(),
            fields: TaskUpdate { text: Some("A2".to_string()), test: None, section: None, group: None },
        },
    ];
    let expected: Vec<String> = cmds
        .iter()
        .zip(["Applied", "Failed", "Applied", "Applied"])
        .map(|(c, tag)| {
            if tag == "Applied" {
                format!("Applied: {c:?}")
            } else {
                format!("Failed: {c:?} - Generic error: Task not found: zzz")
            }
        })
        .collect();
    let out = handle_input(&mut s, cmds);
    assert_eq!(out.lines, expected);
}

#[test]
fn commands_keep_ids_distinct() {
    let mut s = store();
    assert!(s.apply(RoadmapCommand::Add(task("a", "again", TaskStatus::Pending))).is_err());
    assert!(s.apply(RoadmapCommand::Add(task("c", "C", TaskStatus::Pending))).is_ok());
    let mut ids: Vec<&str> = s.tasks.iter().map(|t| t.id.as_str()).collect();
    ids.sort();
    ids.dedup();
    assert_eq!(ids.len(), s.tasks.len());
}
