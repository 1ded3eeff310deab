//! Rendering the task store as a Markdown roadmap.
use vstd::prelude::*;
use crate::roadmap_v2::types::{
    opt_view, Section, SectionStatus, Task, TaskStatus, TaskStore, TaskView, task_views,
};
use crate::text::{append_str, eq_chars, from_chars, to_chars};

verus! {

// ---------------------------------------------------------------------
// Model
// ---------------------------------------------------------------------

/// The mark after a section title.
pub open spec fn status_marker(s: SectionStatus) -> Seq<char> {
    match s {
        SectionStatus::Complete => " ?"@,
        SectionStatus::Current => " ?? CURRENT"@,
        SectionStatus::Pending => Seq::empty(),
    }
}

/// `[ ]` for a pending task, `[x]` for a done one.
pub open spec fn checkbox(s: TaskStatus) -> Seq<char> {
    match s {
        TaskStatus::Pending => "[ ]"@,
        _ => "[x]"@,
    }
}

/// The test anchor of a task: its test in an HTML comment, `[no-test]`
/// for a task done without one, else nothing.
pub open spec fn test_anchor(t: TaskView) -> Seq<char> {
    match t.test {
        Some(x) => " <!-- test: "@ + x + " -->"@,
        None => if t.status == TaskStatus::NoTest {
            " [no-test]"@
        } else {
            Seq::empty()
        },
    }
}

/// The line of a task.
pub open spec fn task_line(t: TaskView) -> Seq<char> {
    "- "@ + checkbox(t.status) + " **"@ + t.text + "**"@ + test_anchor(t) + "\n"@
}

/// The groups of the tasks of section `sid`, in order of first use.
pub open spec fn groups_in(ts: Seq<TaskView>, sid: Seq<char>) -> Seq<Option<Seq<char>>>
    decreases ts.len(),
{
    if ts.len() == 0 {
        Seq::empty()
    } else {
        let g = groups_in(ts.drop_last(), sid);
        let t = ts.last();
        if t.section != sid || g.contains(t.group) {
            g
        } else {
            g.push(t.group)
        }
    }
}

/// The lines of the tasks of section `sid` in group `g`, in order.
pub open spec fn lines_in(ts: Seq<TaskView>, sid: Seq<char>, g: Option<Seq<char>>) -> Seq<char>
    decreases ts.len(),
{
    if ts.len() == 0 {
        Seq::empty()
    } else {
        let t = ts.last();
        lines_in(ts.drop_last(), sid, g) + if t.section == sid && t.group == g {
            task_line(t)
        } else {
            Seq::empty()
        }
    }
}

/// The heading of a named group.
pub open spec fn group_header(g: Option<Seq<char>>) -> Seq<char> {
    match g {
        Some(n) => "### "@ + n + "\n"@,
        None => Seq::empty(),
    }
}

/// The blocks of the groups `gs` of section `sid`: header, task lines and
/// a blank line each.
pub open spec fn groups_text(ts: Seq<TaskView>, sid: Seq<char>, gs: Seq<Option<Seq<char>>>) -> Seq<
    char,
>
    decreases gs.len(),
{
    if gs.len() == 0 {
        Seq::empty()
    } else {
        groups_text(ts, sid, gs.drop_last()) + group_header(gs.last()) + lines_in(
            ts,
            sid,
            gs.last(),
        ) + "\n"@
    }
}

/// The text of one section.
pub open spec fn section_text(s: Section, ts: Seq<TaskView>) -> Seq<char> {
    "## "@ + s.title@ + status_marker(s.status) + "\n\n"@ + groups_text(
        ts,
        s.id@,
        groups_in(ts, s.id@),
    ) + "---\n\n"@
}

/// The text of the sections `secs`, in order.
pub open spec fn sections_text(secs: Seq<Section>, ts: Seq<TaskView>) -> Seq<char>
    decreases secs.len(),
{
    if secs.len() == 0 {
        Seq::empty()
    } else {
        sections_text(secs.drop_last(), ts) + section_text(secs.last(), ts)
    }
}

/// The Markdown of a store: title, description, then each section.
pub open spec fn markdown(store: TaskStore) -> Seq<char> {
    "# "@ + store.meta.title@ + "\n\n"@ + (if store.meta.description@.len() > 0 {
        store.meta.description@ + "\n\n"@
    } else {
        Seq::empty()
    }) + "---\n\n"@ + sections_text(store.sections@, task_views(store.tasks@))
}

// ---------------------------------------------------------------------
// Executable
// ---------------------------------------------------------------------

fn string_eq(a: &String, b: &String) -> (r: bool)
    ensures
        r == (a@ == b@),
{
    let x = to_chars(a.as_str());
    let y = to_chars(b.as_str());
    eq_chars(&x, &y)
}

fn opt_eq(a: &Option<String>, b: &Option<String>) -> (r: bool)
    ensures
        r == (opt_view(*a) == opt_view(*b)),
{
    match (a, b) {
        (Some(x), Some(y)) => string_eq(x, y),
        (None, None) => true,
        _ => false,
    }
}

fn write_task(out: &mut Vec<char>, task: &Task)
    ensures
        final(out)@ == old(out)@ + task_line(task@),
{
    let ghost o0 = out@;
    append_str(out, "- ");
    match task.status {
        TaskStatus::Pending => append_str(out, "[ ]"),
        _ => append_str(out, "[x]"),
    }
    append_str(out, " **");
    append_str(out, task.text.as_str());
    append_str(out, "**");
    match &task.test {
        Some(t) => {
            append_str(out, " <!-- test: ");
            append_str(out, t.as_str());
            append_str(out, " -->");
        },
        None => {
            if task.status == TaskStatus::NoTest {
                append_str(out, " [no-test]");
            }
        },
    }
    append_str(out, "\n");
    assert(out@ =~= o0 + task_line(task@));
}

spec fn opt_views(v: Seq<Option<String>>) -> Seq<Option<Seq<char>>> {
    v.map_values(|o: Option<String>| opt_view(o))
}

fn collect_groups(all: &Vec<Task>, sid: &String) -> (r: Vec<Option<String>>)
    ensures
        opt_views(r@) == groups_in(task_views(all@), sid@),
{
    let ghost tv = task_views(all@);
    let mut groups: Vec<Option<String>> = Vec::new();
    let mut i: usize = 0;
    while i < all.len()
        invariant
            i <= all.len(),
            tv == task_views(all@),
            opt_views(groups@) == groups_in(tv.take(i as int), sid@),
        decreases all.len() - i,
    {
        let t = &all[i];
        proof {
            assert(tv.take(i + 1).drop_last() =~= tv.take(i as int));
            assert(tv.take(i + 1).last() == t@);
        }
        if string_eq(&t.section, sid) {
            let mut found = false;
            let mut k: usize = 0;
            let ghost v = opt_view(t.group);
            while k < groups.len()
                invariant
                    k <= groups.len(),
                    v == opt_view(t.group),
                    found == exists|w: int| 0 <= w < k && #[trigger] opt_views(groups@)[w] == v,
                decreases groups.len() - k,
            {
                let e = opt_eq(&groups[k], &t.group);
                proof {
                    if e {
                        assert(opt_views(groups@)[k as int] == v);
                    }
                }
                found = found || e;
                k += 1;
            }
            proof {
                let gv = opt_views(groups@);
                if found {
                    let w = choose|w: int| 0 <= w < groups.len() && #[trigger] gv[w] == v;
                    assert(gv.contains(v));
                } else {
                    assert(!gv.contains(v));
                }
            }
            if !found {
                let g = match &t.group {
                    Some(s) => Some(s.clone()),
                    None => None,
                };
                let ghost g0 = groups@;
                groups.push(g);
                proof {
                    assert(opt_views(groups@) =~= opt_views(g0).push(opt_view(t.group)));
                }
            }
        }
        i += 1;
    }
    assert(tv.take(all.len() as int) =~= tv);
    groups
}

fn write_group_lines(out: &mut Vec<char>, all: &Vec<Task>, sid: &String, g: &Option<String>)
    ensures
        final(out)@ == old(out)@ + lines_in(task_views(all@), sid@, opt_view(*g)),
{
    let ghost tv = task_views(all@);
    let ghost o0 = out@;
    let mut i: usize = 0;
    while i < all.len()
        invariant
            i <= all.len(),
            tv == task_views(all@),
            out@ == o0 + lines_in(tv.take(i as int), sid@, opt_view(*g)),
        decreases all.len() - i,
    {
        let t = &all[i];
        proof {
            assert(tv.take(i + 1).drop_last() =~= tv.take(i as int));
            assert(tv.take(i + 1).last() == t@);
        }
        let ghost before = out@;
        if string_eq(&t.section, sid) && opt_eq(&t.group, g) {
            write_task(out, t);
        }
        assert(out@ =~= o0 + lines_in(tv.take(i + 1), sid@, opt_view(*g)));
        i += 1;
    }
    assert(tv.take(all.len() as int) =~= tv);
}

fn write_section(out: &mut Vec<char>, section: &Section, all: &Vec<Task>)
    ensures
        final(out)@ == old(out)@ + section_text(*section, task_views(all@)),
{
    let ghost o0 = out@;
    let ghost tv = task_views(all@);
    append_str(out, "## ");
    append_str(out, section.title.as_str());
    match section.status {
        SectionStatus::Complete => append_str(out, " ?"),
        SectionStatus::Current => append_str(out, " ?? CURRENT"),
        SectionStatus::Pending => {},
    }
    append_str(out, "\n\n");
    let ghost head = out@;
    let groups = collect_groups(all, &section.id);
    let ghost gv = opt_views(groups@);
    let mut k: usize = 0;
    while k < groups.len()
        invariant
            k <= groups.len(),
            gv == opt_views(groups@),
            tv == task_views(all@),
            out@ == head + groups_text(tv, section.id@, gv.take(k as int)),
        decreases groups.len() - k,
    {
        let g = &groups[k];
        match g {
            Some(name) => {
                append_str(out, "### ");
                append_str(out, name.as_str());
                append_str(out, "\n");
            },
            None => {},
        }
        write_group_lines(out, all, &section.id, g);
        append_str(out, "\n");
        proof {
            assert(gv.take(k + 1).drop_last() =~= gv.take(k as int));
            assert(gv.take(k + 1).last() == opt_view(*g));
        }
        assert(out@ =~= head + groups_text(tv, section.id@, gv.take(k + 1)));
        k += 1;
    }
    assert(gv.take(groups.len() as int) =~= gv);
    append_str(out, "---\n\n");
    assert(out@ =~= o0 + section_text(*section, tv));
}

impl TaskStore {
    /// The Markdown of the store.
    pub fn to_markdown(&self) -> (r: String)
        ensures
            r@ == markdown(*self),
    {
        let mut out: Vec<char> = Vec::new();
        append_str(&mut out, "# ");
        append_str(&mut out, self.meta.title.as_str());
        append_str(&mut out, "\n\n");
        let d = to_chars(self.meta.description.as_str());
        if d.len() > 0 {
            append_str(&mut out, self.meta.description.as_str());
            append_str(&mut out, "\n\n");
        }
        append_str(&mut out, "---\n\n");
        let ghost head = out@;
        let ghost tv = task_views(self.tasks@);
        let mut i: usize = 0;
        while i < self.sections.len()
            invariant
                i <= self.sections.len(),
                tv == task_views(self.tasks@),
                out@ == head + sections_text(self.sections@.take(i as int), tv),
            decreases self.sections.len() - i,
        {
            write_section(&mut out, &self.sections[i], &self.tasks);
            proof {
                assert(self.sections@.take(i + 1).drop_last() =~= self.sections@.take(i as int));
            }
            assert(out@ =~= head + sections_text(self.sections@.take(i + 1), tv));
            i += 1;
        }
        assert(self.sections@.take(self.sections.len() as int) =~= self.sections@);
        assert(out@ =~= markdown(*self));
        from_chars(&out)
    }
}

// ---------------------------------------------------------------------
// Laws
// ---------------------------------------------------------------------

/// The tasks of section `sid`.
pub open spec fn in_section(sid: Seq<char>) -> spec_fn(TaskView) -> bool {
    |t: TaskView| t.section == sid
}

/// The tasks of section `sid` in group `g`.
pub open spec fn in_block(sid: Seq<char>, g: Option<Seq<char>>) -> spec_fn(TaskView) -> bool {
    |t: TaskView| t.section == sid && t.group == g
}

/// The lines of the tasks `ts`, one after the other.
pub open spec fn task_lines(ts: Seq<TaskView>) -> Seq<char>
    decreases ts.len(),
{
    if ts.len() == 0 {
        Seq::empty()
    } else {
        task_lines(ts.drop_last()) + task_line(ts.last())
    }
}

/// The block of group `g` of section `sid` lists each task of that section
/// and group once, in store order, and no other task.
pub proof fn law_block_lists_its_tasks(ts: Seq<TaskView>, sid: Seq<char>, g: Option<Seq<char>>)
    ensures
        lines_in(ts, sid, g) == task_lines(ts.filter(in_block(sid, g))),
    decreases ts.len(),
{
    reveal(Seq::filter);
    if ts.len() > 0 {
        law_block_lists_its_tasks(ts.drop_last(), sid, g);
        let sub = ts.drop_last().filter(in_block(sid, g));
        if in_block(sid, g)(ts.last()) {
            assert(ts.filter(in_block(sid, g)) == sub.push(ts.last()));
            assert(sub.push(ts.last()).drop_last() =~= sub);
        } else {
            assert(ts.filter(in_block(sid, g)) == sub);
        }
    } else {
        assert(ts.filter(in_block(sid, g)) =~= Seq::<TaskView>::empty());
    }
}

proof fn lemma_lines_in_section(ts: Seq<TaskView>, sid: Seq<char>, g: Option<Seq<char>>)
    ensures
        lines_in(ts, sid, g) == lines_in(ts.filter(in_section(sid)), sid, g),
        groups_in(ts, sid) == groups_in(ts.filter(in_section(sid)), sid),
    decreases ts.len(),
{
    reveal(Seq::filter);
    if ts.len() > 0 {
        lemma_lines_in_section(ts.drop_last(), sid, g);
        let sub = ts.drop_last().filter(in_section(sid));
        if in_section(sid)(ts.last()) {
            assert(ts.filter(in_section(sid)) == sub.push(ts.last()));
            assert(sub.push(ts.last()).drop_last() =~= sub);
        } else {
            assert(ts.filter(in_section(sid)) == sub);
        }
    } else {
        assert(ts.filter(in_section(sid)) =~= Seq::<TaskView>::empty());
    }
}

proof fn lemma_groups_text_section(ts: Seq<TaskView>, sid: Seq<char>, gs: Seq<Option<Seq<char>>>)
    ensures
        groups_text(ts, sid, gs) == groups_text(ts.filter(in_section(sid)), sid, gs),
    decreases gs.len(),
{
    if gs.len() > 0 {
        lemma_groups_text_section(ts, sid, gs.drop_last());
        lemma_lines_in_section(ts, sid, gs.last());
    }
}

/// What a section shows depends only on the tasks of that section: tasks
/// of other sections never appear under it.
pub proof fn law_section_shows_only_its_tasks(s: Section, ts: Seq<TaskView>)
    ensures
        section_text(s, ts) == section_text(s, ts.filter(in_section(s.id@))),
{
    lemma_lines_in_section(ts, s.id@, None);
    lemma_groups_text_section(ts, s.id@, groups_in(ts, s.id@));
}

/// The groups of a section are listed once each: every group of a task of
/// the section is listed, and only such groups.
pub proof fn law_groups_listed_once(ts: Seq<TaskView>, sid: Seq<char>)
    ensures
        groups_in(ts, sid).no_duplicates(),
        forall|k: int|
            0 <= k < ts.len() && ts[k].section == sid ==> groups_in(ts, sid).contains(
                #[trigger] ts[k].group,
            ),
        forall|g: Option<Seq<char>>|
            groups_in(ts, sid).contains(g) ==> exists|k: int|
                0 <= k < ts.len() && ts[k].section == sid && #[trigger] ts[k].group == g,
    decreases ts.len(),
{
    if ts.len() > 0 {
        let d = ts.drop_last();
        law_groups_listed_once(d, sid);
        let prev = groups_in(d, sid);
        let t = ts.last();
        let cur = groups_in(ts, sid);
        if !(t.section != sid || prev.contains(t.group)) {
            assert(cur == prev.push(t.group));
            assert forall|a: int, b: int| 0 <= a < cur.len() && 0 <= b < cur.len() && a != b implies cur[a]
                != cur[b] by {
                if a == prev.len() as int {
                    assert(cur[b] == prev[b]);
                } else if b == prev.len() as int {
                    assert(cur[a] == prev[a]);
                } else {
                    assert(cur[a] == prev[a] && cur[b] == prev[b]);
                }
            }
            assert(cur[prev.len() as int] == t.group);
        } else {
            assert(cur == prev);
        }
        assert forall|k: int| 0 <= k < ts.len() && ts[k].section == sid implies cur.contains(
            #[trigger] ts[k].group,
        ) by {
            if k < d.len() {
                assert(d[k] == ts[k]);
                assert(prev.contains(d[k].group));
                let w = choose|w: int| 0 <= w < prev.len() && prev[w] == d[k].group;
                assert(cur[w] == prev[w]);
            } else {
                if prev.contains(t.group) {
                    let w = choose|w: int| 0 <= w < prev.len() && prev[w] == t.group;
                    assert(cur[w] == prev[w]);
                }
            }
        }
        assert forall|g: Option<Seq<char>>| cur.contains(g) implies exists|k: int|
            0 <= k < ts.len() && ts[k].section == sid && #[trigger] ts[k].group == g by {
            let w = choose|w: int| 0 <= w < cur.len() && cur[w] == g;
            if w < prev.len() {
                assert(prev[w] == g);
                assert(prev.contains(g));
                let k = choose|k: int| 0 <= k < d.len() && d[k].section == sid && #[trigger] d[k].group == g;
                assert(ts[k] == d[k]);
            } else {
                assert(ts[ts.len() - 1] == t);
            }
        }
    }
}

} // verus!
