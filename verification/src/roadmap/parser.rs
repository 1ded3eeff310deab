//! Reading the Markdown of a legacy roadmap into sections and tasks.
use vstd::prelude::*;
use crate::pattern::{captures_of, group, group_text, groups_view, regex_captures, regex_compiles};
use crate::roadmap::cmd_helpers::strip_hashes;
use crate::roadmap::str_utils::{is_ignorable_chars, is_ignorable_spec, slugify, slugify_chars, slugify_spec};
use crate::roadmap::types::{Roadmap, Section, Task, TaskStatus};
use crate::text::{eq_str, from_chars, lines, slice_of, split_lines, starts_with, starts_with_str, to_chars, trim, trim_chars, views};

verus! {

/// A task as the outline sees it: its text and whether it is ticked.
pub type TaskRow = (Seq<char>, bool);

/// A section as the outline sees it: its heading and its tasks.
pub type SectionRow = (Seq<char>, Seq<TaskRow>);

/// The pattern of a checkbox line, anchored at the start.
pub open spec fn task_line_pattern() -> Seq<char> {
    "^- \\[(x| )\\] (.*)"@
}

/// A checkbox line: the trimmed text after the box, and whether it is
/// ticked.
pub open spec fn task_row(line: Seq<char>) -> Option<TaskRow> {
    if !regex_compiles(task_line_pattern()) {
        None
    } else {
        match regex_captures(task_line_pattern(), line) {
            None => None,
            Some(g) => task_row_of(g),
        }
    }
}

/// The task of the groups that the checkbox pattern captured: group 1 is
/// the box (`x` when ticked), group 2 the text, which is trimmed.
pub open spec fn task_row_of(g: Seq<Option<Seq<char>>>) -> Option<TaskRow> {
    match (group_text(g, 1), group_text(g, 2)) {
        (Some(s), Some(t)) => Some((trim(t), s == "x"@)),
        _ => None,
    }
}

/// A heading line (`# `, `## ` or `### `): its text without the `#`s.
pub open spec fn heading_text(line: Seq<char>) -> Option<Seq<char>> {
    if starts_with(line, "# "@) || starts_with(line, "## "@) || starts_with(line, "### "@) {
        Some(trim(strip_hashes(line)))
    } else {
        None
    }
}

/// The sections and tasks of the lines `ls`: each line is trimmed; blank and
/// ignorable lines are skipped; a heading opens a section; a checkbox line
/// joins the open section, and is dropped before the first heading.
pub open spec fn outline(ls: Seq<Seq<char>>) -> Seq<SectionRow>
    decreases ls.len(),
{
    if ls.len() == 0 {
        Seq::empty()
    } else {
        let prev = outline(ls.drop_last());
        let l = trim(ls.last());
        if l.len() == 0 || is_ignorable_spec(l) {
            prev
        } else {
            match heading_text(l) {
                Some(h) => prev.push((h, Seq::empty())),
                None => match task_row(l) {
                    Some(t) => if prev.len() == 0 {
                        prev
                    } else {
                        prev.update(prev.len() - 1, (prev.last().0, prev.last().1.push(t)))
                    },
                    None => prev,
                },
            }
        }
    }
}

/// What the outline keeps of a task.
pub open spec fn task_view(t: Task) -> TaskRow {
    (t.text@, t.status == TaskStatus::Complete)
}

/// What the outline keeps of a section.
pub open spec fn section_view(s: Section) -> SectionRow {
    (s.heading@, s.tasks@.map_values(|t: Task| task_view(t)))
}

/// A task as the parser builds it: its id and path are the slug of its
/// text, and the rest is empty.
pub open spec fn parsed_task(t: Task) -> bool {
    &&& t.id@ == slugify_spec(t.text@)
    &&& t.path@ == t.id@
    &&& t.indent == 0
    &&& t.line == 0
    &&& t.children@.len() == 0
    &&& t.tests@.len() == 0
}

/// A section as the parser builds it: its id is the slug of its heading,
/// its level 1, and the rest is empty.
pub open spec fn parsed_section(s: Section) -> bool {
    &&& s.id@ == slugify_spec(s.heading@)
    &&& s.level == 1
    &&& s.theme is None
    &&& s.subsections@.len() == 0
    &&& s.raw_content@.len() == 0
    &&& s.line_start == 0
    &&& s.line_end == 0
    &&& forall|j: int| 0 <= j < s.tasks@.len() ==> parsed_task(#[trigger] s.tasks@[j])
}

/// The heading text of `line`, if it is a heading.
fn parse_heading(line: &Vec<char>) -> (r: Option<Vec<char>>)
    ensures
        match heading_text(line@) {
            Some(h) => r matches Some(x) && x@ == h,
            None => r is None,
        },
{
    if starts_with_str(line, "# ") || starts_with_str(line, "## ") || starts_with_str(line, "### ") {
        let mut i: usize = 0;
        while i < line.len() && line[i] == '#'
            invariant
                i <= line.len(),
                crate::roadmap::cmd_helpers::hash_end(line@, 0) == crate::roadmap::cmd_helpers::hash_end(line@, i as int),
            decreases line.len() - i,
        {
            i += 1;
        }
        let rest = slice_of(line, i, line.len());
        Some(trim_chars(&rest))
    } else {
        None
    }
}

/// The task of a checkbox line, if it is one.
fn parse_task(line: &Vec<char>) -> (r: Option<Task>)
    ensures
        match task_row(line@) {
            Some(row) => r matches Some(t) && task_view(t) == row && parsed_task(t),
            None => r is None,
        },
{
    match captures_of("^- \\[(x| )\\] (.*)", line) {
        Some(g) => task_of_captures(&g),
        None => None,
    }
}

/// The task of a checkbox line, given the groups that the checkbox pattern
/// captured in it.
pub fn task_of_captures(g: &Vec<Option<String>>) -> (r: Option<Task>)
    ensures
        match task_row_of(groups_view(Some(*g))->0) {
            Some(row) => r matches Some(t) && task_view(t) == row && parsed_task(t),
            None => r is None,
        },
{
    let status_text = match group(g, 1) {
        Some(s) => s,
        None => {
            return None;
        },
    };
    let text_raw = match group(g, 2) {
        Some(t) => t,
        None => {
            return None;
        },
    };
    let status = if eq_str(&status_text, "x") {
        TaskStatus::Complete
    } else {
        TaskStatus::Pending
    };
    let text = trim_chars(&text_raw);
    let id = slugify_chars(&text);
    Some(
        Task {
            id: from_chars(&id),
            path: from_chars(&id),
            text: from_chars(&text),
            status,
            indent: 0,
            line: 0,
            children: Vec::new(),
            tests: Vec::new(),
        },
    )
}

/// A parsed section with heading `heading` and tasks `tasks`.
fn make_section(heading: Vec<char>, tasks: Vec<Task>) -> (r: Section)
    requires
        forall|j: int| 0 <= j < tasks@.len() ==> parsed_task(#[trigger] tasks@[j]),
    ensures
        parsed_section(r),
        r.heading@ == heading@,
        r.tasks@ == tasks@,
{
    let id = slugify_chars(&heading);
    Section {
        id: from_chars(&id),
        heading: from_chars(&heading),
        level: 1,
        theme: None,
        tasks,
        subsections: Vec::new(),
        raw_content: String::new(),
        line_start: 0,
        line_end: 0,
    }
}

/// The view of an optional character vector.
spec fn opt_chars(o: Option<Vec<char>>) -> Option<Seq<char>> {
    match o {
        Some(v) => Some(v@),
        None => None,
    }
}

/// The outline kept so far: the closed sections, then the open one.
spec fn outline_so_far(closed: Seq<Section>, open: Option<Seq<char>>, tasks: Seq<Task>) -> Seq<
    SectionRow,
> {
    let c = closed.map_values(|s: Section| section_view(s));
    match open {
        Some(h) => c.push((h, tasks.map_values(|t: Task| task_view(t)))),
        None => c,
    }
}

/// Parses the Markdown of a legacy roadmap. It never fails: lines it does
/// not understand are skipped.
pub fn parse(content: &str) -> (r: Result<Roadmap, String>)
    ensures
        r matches Ok(rm) && {
            &&& rm.path is None
            &&& rm.title@ == "Parsed Roadmap"@
            &&& rm.raw@ == content@
            &&& rm.sections@.map_values(|s: Section| section_view(s)) == outline(lines(content@))
            &&& forall|j: int| 0 <= j < rm.sections@.len() ==> parsed_section(#[trigger] rm.sections@[j])
        },
{
    let chars = to_chars(content);
    let ls = split_lines(&chars);
    let ghost lv = views(ls@);
    let mut sections: Vec<Section> = Vec::new();
    let mut current: Option<Vec<char>> = None;
    let mut tasks: Vec<Task> = Vec::new();
    let mut i: usize = 0;
    while i < ls.len()
        invariant
            i <= ls.len(),
            lv == views(ls@),
            lv == lines(content@),
            outline(lv.take(i as int)) == outline_so_far(
                sections@,
                opt_chars(current),
                tasks@,
            ),
            current is None ==> tasks@.len() == 0 && sections@.len() == 0,
            forall|j: int| 0 <= j < sections@.len() ==> parsed_section(#[trigger] sections@[j]),
            forall|j: int| 0 <= j < tasks@.len() ==> parsed_task(#[trigger] tasks@[j]),
        decreases ls.len() - i,
    {
        let ghost before = outline(lv.take(i as int));
        let ghost old_sections = sections@;
        let ghost old_tasks = tasks@;
        let ghost old_cur = opt_chars(current);
        proof {
            assert(lv.take(i + 1).drop_last() =~= lv.take(i as int));
            assert(lv.take(i + 1).last() == ls@[i as int]@);
        }
        let line = trim_chars(&ls[i]);
        if line.len() == 0 || is_ignorable_chars(&line) {
        } else {
            match parse_heading(&line) {
                Some(h) => {
                    match current {
                        Some(hd) => {
                            let s = make_section(hd, tasks);
                            sections.push(s);
                            tasks = Vec::new();
                        },
                        None => {},
                    }
                    current = Some(h);
                    proof {
                        assert(tasks@.map_values(|t: Task| task_view(t)) =~= Seq::<TaskRow>::empty());
                        let c0 = old_sections.map_values(|s: Section| section_view(s));
                        let c1 = sections@.map_values(|s: Section| section_view(s));
                        match old_cur {
                            Some(hd) => {
                                assert(c1 =~= c0.push((hd, old_tasks.map_values(|t: Task| task_view(t)))));
                            },
                            None => {
                                assert(c1 =~= c0);
                                assert(old_tasks.map_values(|t: Task| task_view(t)) =~= Seq::<TaskRow>::empty());
                            },
                        }
                        assert(c1 =~= before);
                    }
                },
                None => {
                    match parse_task(&line) {
                        Some(t) => {
                            if current.is_some() {
                                let ghost t0 = tasks@;
                                tasks.push(t);
                                proof {
                                    assert(tasks@.map_values(|t: Task| task_view(t)) =~= t0.map_values(
                                        |t: Task| task_view(t),
                                    ).push(task_view(t)));
                                    let c = sections@.map_values(|s: Section| section_view(s));
                                    assert(before.len() == c.len() + 1);
                                }
                            }
                        },
                        None => {},
                    }
                },
            }
        }
        i += 1;
    }
    match current {
        Some(hd) => {
            let s = make_section(hd, tasks);
            sections.push(s);
        },
        None => {},
    }
    proof {
        assert(lv.take(ls.len() as int) =~= lv);
    }
    Ok(
        Roadmap {
            path: None,
            title: "Parsed Roadmap".to_owned(),
            sections,
            raw: content.to_owned(),
        },
    )
}

/// The id of a task with text `text`: its slug.
pub fn generate_id(text: &str) -> (r: String)
    ensures
        r@ == slugify_spec(text@),
{
    slugify(text)
}

} // verus!
