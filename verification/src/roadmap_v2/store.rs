//! Applying commands to the task store.
use vstd::prelude::*;
use crate::error::SlopChopError;
use crate::roadmap_v2::types::{
    RoadmapCommand, RoadmapCommandView, Task, TaskStatus, TaskStore, TaskUpdate, TaskUpdateView,
    TaskView, task_views,
};
use crate::text::{append_str, eq_str, from_chars, to_chars};

verus! {

// ---------------------------------------------------------------------
// Model
// ---------------------------------------------------------------------

/// Position of the first task with id `id`, searching from `i`.
pub open spec fn find_id_from(ts: Seq<TaskView>, id: Seq<char>, i: int) -> Option<int>
    decreases ts.len() - i,
{
    if i < 0 || i >= ts.len() {
        None
    } else if ts[i].id == id {
        Some(i)
    } else {
        find_id_from(ts, id, i + 1)
    }
}

/// Position of the first task with id `id`.
pub open spec fn find_id(ts: Seq<TaskView>, id: Seq<char>) -> Option<int> {
    find_id_from(ts, id, 0)
}

/// `Task not found: <id>`.
pub open spec fn not_found_msg(id: Seq<char>) -> Seq<char> {
    "Task not found: "@ + id
}

/// `Task already exists: <id>`.
pub open spec fn exists_msg(id: Seq<char>) -> Seq<char> {
    "Task already exists: "@ + id
}

/// `t` with the status `s`.
pub open spec fn with_status(t: TaskView, s: TaskStatus) -> TaskView {
    TaskView { status: s, ..t }
}

/// `t` with the fields that `f` sets.
pub open spec fn updated(t: TaskView, f: TaskUpdateView) -> TaskView {
    TaskView {
        text: match f.text {
            Some(x) => x,
            None => t.text,
        },
        test: match f.test {
            Some(x) => Some(x),
            None => t.test,
        },
        section: match f.section {
            Some(x) => x,
            None => t.section,
        },
        group: match f.group {
            Some(x) => Some(x),
            None => t.group,
        },
        ..t
    }
}

/// What a command does to the tasks: the new list, or the message of the
/// error it fails with. Commands that name a task act on the first task
/// with that id.
pub open spec fn apply_spec(ts: Seq<TaskView>, c: RoadmapCommandView) -> Result<
    Seq<TaskView>,
    Seq<char>,
> {
    match c {
        RoadmapCommandView::Check { id } => match find_id(ts, id) {
            None => Err(not_found_msg(id)),
            Some(i) => Ok(ts.update(i, with_status(ts[i], TaskStatus::Done))),
        },
        RoadmapCommandView::Uncheck { id } => match find_id(ts, id) {
            None => Err(not_found_msg(id)),
            Some(i) => Ok(ts.update(i, with_status(ts[i], TaskStatus::Pending))),
        },
        RoadmapCommandView::Add(t) => match find_id(ts, t.id) {
            Some(_) => Err(exists_msg(t.id)),
            None => Ok(ts.push(t)),
        },
        RoadmapCommandView::Update { id, fields } => match find_id(ts, id) {
            None => Err(not_found_msg(id)),
            Some(i) => Ok(ts.update(i, updated(ts[i], fields))),
        },
        RoadmapCommandView::Delete { id } => match find_id(ts, id) {
            None => Err(not_found_msg(id)),
            Some(i) => Ok(ts.remove(i)),
        },
    }
}

/// `new` is `old` after a command with effect `e` on the tasks, and `r` is
/// what the command returned: on failure the store is unchanged and the
/// error carries the message.
pub open spec fn applied(
    old: &TaskStore,
    new: &TaskStore,
    r: Result<(), SlopChopError>,
    e: Result<Seq<TaskView>, Seq<char>>,
) -> bool {
    &&& new.meta == old.meta
    &&& new.sections == old.sections
    &&& match e {
        Ok(ts) => r is Ok && new.task_list() == ts,
        Err(m) => r matches Err(SlopChopError::Other(s)) && s@ == m && new.tasks@ == old.tasks@,
    }
}

/// `find_id_from` finds the first task with the id at or after `i`.
pub proof fn lemma_find_id_from(ts: Seq<TaskView>, id: Seq<char>, i: int)
    requires
        0 <= i,
    ensures
        match find_id_from(ts, id, i) {
            Some(k) => i <= k < ts.len() && ts[k].id == id && forall|j: int|
                i <= j < k ==> #[trigger] ts[j].id != id,
            None => forall|j: int| i <= j < ts.len() ==> #[trigger] ts[j].id != id,
        },
    decreases ts.len() - i,
{
    if i < ts.len() && ts[i].id != id {
        lemma_find_id_from(ts, id, i + 1);
    }
}

// ---------------------------------------------------------------------
// Laws
// ---------------------------------------------------------------------

/// Adding a task whose id is new, then deleting that id, gives back the
/// tasks as they were.
pub proof fn law_add_then_delete(ts: Seq<TaskView>, t: TaskView)
    requires
        find_id(ts, t.id) is None,
    ensures
        apply_spec(ts, RoadmapCommandView::Add(t)) == Ok::<Seq<TaskView>, Seq<char>>(ts.push(t)),
        apply_spec(ts.push(t), RoadmapCommandView::Delete { id: t.id }) == Ok::<
            Seq<TaskView>,
            Seq<char>,
        >(ts),
{
    lemma_find_id_from(ts, t.id, 0);
    let ts2 = ts.push(t);
    lemma_find_id_from(ts2, t.id, 0);
    assert(ts2[ts.len() as int].id == t.id);
    assert(find_id(ts2, t.id) == Some(ts.len() as int));
    assert(ts2.remove(ts.len() as int) =~= ts);
}

/// A task whose id is already taken is refused, and the tasks stay as they
/// were.
pub proof fn law_add_duplicate_refused(ts: Seq<TaskView>, t: TaskView)
    requires
        find_id(ts, t.id) is Some,
    ensures
        apply_spec(ts, RoadmapCommandView::Add(t)) == Err::<Seq<TaskView>, Seq<char>>(
            exists_msg(t.id),
        ),
{
}

/// A command that names an id no task has fails with `Task not found`,
/// except `Add`.
pub proof fn law_missing_id_not_found(ts: Seq<TaskView>, id: Seq<char>, f: TaskUpdateView)
    requires
        find_id(ts, id) is None,
    ensures
        apply_spec(ts, RoadmapCommandView::Check { id }) == Err::<Seq<TaskView>, Seq<char>>(
            not_found_msg(id),
        ),
        apply_spec(ts, RoadmapCommandView::Uncheck { id }) == Err::<Seq<TaskView>, Seq<char>>(
            not_found_msg(id),
        ),
        apply_spec(ts, RoadmapCommandView::Update { id, fields: f }) == Err::<
            Seq<TaskView>,
            Seq<char>,
        >(not_found_msg(id)),
        apply_spec(ts, RoadmapCommandView::Delete { id }) == Err::<Seq<TaskView>, Seq<char>>(
            not_found_msg(id),
        ),
{
}

/// `Check` marks the first task with the id done and changes nothing else;
/// a second `Check` changes nothing more.
pub proof fn law_check_marks_done(ts: Seq<TaskView>, id: Seq<char>)
    requires
        find_id(ts, id) is Some,
    ensures
        apply_spec(ts, RoadmapCommandView::Check { id }) matches Ok(ts2) && {
            &&& ts2.len() == ts.len()
            &&& ts2[find_id(ts, id)->0].status == TaskStatus::Done
            &&& forall|j: int|
                0 <= j < ts.len() && j != find_id(ts, id)->0 ==> #[trigger] ts2[j] == ts[j]
            &&& apply_spec(ts2, RoadmapCommandView::Check { id }) == Ok::<
                Seq<TaskView>,
                Seq<char>,
            >(ts2)
        },
{
    lemma_find_id_from(ts, id, 0);
    let i = find_id(ts, id)->0;
    let ts2 = ts.update(i, with_status(ts[i], TaskStatus::Done));
    lemma_find_id_from(ts2, id, 0);
    assert forall|j: int| 0 <= j < i implies ts2[j].id != id by {
        assert(ts2[j] == ts[j]);
    }
    if find_id(ts2, id) != Some(i) {
        assert(ts2[i].id == id);
    }
    assert(find_id(ts2, id) == Some(i));
    assert(ts2.update(i, with_status(ts2[i], TaskStatus::Done)) =~= ts2);
}

/// `Uncheck` after `Check` leaves the task pending.
pub proof fn law_check_then_uncheck(ts: Seq<TaskView>, id: Seq<char>)
    requires
        find_id(ts, id) is Some,
    ensures
        apply_spec(ts, RoadmapCommandView::Check { id }) matches Ok(ts2) && apply_spec(
            ts2,
            RoadmapCommandView::Uncheck { id },
        ) matches Ok(ts3) && ts3[find_id(ts, id)->0].status == TaskStatus::Pending,
{
    law_check_marks_done(ts, id);
    let i = find_id(ts, id)->0;
    let ts2 = ts.update(i, with_status(ts[i], TaskStatus::Done));
    lemma_find_id_from(ts, id, 0);
    lemma_find_id_from(ts2, id, 0);
    assert forall|j: int| 0 <= j < i implies ts2[j].id != id by {
        assert(ts2[j] == ts[j]);
    }
    if find_id(ts2, id) != Some(i) {
        assert(ts2[i].id == id);
    }
}

/// An update of the first task with the id succeeds and gives that task
/// exactly the value of each field the update sets (text, test anchor,
/// section, group), keeps every field it does not set, and leaves its id,
/// its status and every other task as they were.
pub proof fn law_update_sets_fields(ts: Seq<TaskView>, id: Seq<char>, f: TaskUpdateView, i: int)
    requires
        0 <= i < ts.len(),
        ts[i].id == id,
        forall|j: int| 0 <= j < i ==> #[trigger] ts[j].id != id,
    ensures
        apply_spec(ts, RoadmapCommandView::Update { id, fields: f }) matches Ok(ts2) && {
            &&& ts2.len() == ts.len()
            &&& forall|j: int| 0 <= j < ts.len() && j != i ==> #[trigger] ts2[j] == ts[j]
            &&& ts2[i].id == id
            &&& ts2[i].status == ts[i].status
            &&& (f.text matches Some(x) ==> ts2[i].text == x)
            &&& (f.text is None ==> ts2[i].text == ts[i].text)
            &&& (f.test matches Some(x) ==> ts2[i].test == Some(x))
            &&& (f.test is None ==> ts2[i].test == ts[i].test)
            &&& (f.section matches Some(x) ==> ts2[i].section == x)
            &&& (f.section is None ==> ts2[i].section == ts[i].section)
            &&& (f.group matches Some(x) ==> ts2[i].group == Some(x))
            &&& (f.group is None ==> ts2[i].group == ts[i].group)
        },
{
    lemma_find_id_from(ts, id, 0);
    assert(find_id(ts, id) == Some(i));
}

/// An update that sets no field leaves the tasks as they were.
pub proof fn law_empty_update_keeps(ts: Seq<TaskView>, id: Seq<char>)
    requires
        find_id(ts, id) is Some,
    ensures
        apply_spec(
            ts,
            RoadmapCommandView::Update {
                id,
                fields: TaskUpdateView { text: None, test: None, section: None, group: None },
            },
        ) == Ok::<Seq<TaskView>, Seq<char>>(ts),
{
    lemma_find_id_from(ts, id, 0);
    let i = find_id(ts, id)->0;
    let f = TaskUpdateView { text: None, test: None, section: None, group: None };
    assert(updated(ts[i], f) == ts[i]);
    assert(ts.update(i, ts[i]) =~= ts);
}

// ---------------------------------------------------------------------
// Executable
// ---------------------------------------------------------------------

/// Equality of a string and a string slice.
fn text_eq(a: &String, b: &str) -> (r: bool)
    ensures
        r == (a@ == b@),
{
    let v = to_chars(a.as_str());
    eq_str(&v, b)
}

fn not_found(id: &str) -> (r: SlopChopError)
    ensures
        r matches SlopChopError::Other(s) && s@ == not_found_msg(id@),
{
    let mut out: Vec<char> = Vec::new();
    append_str(&mut out, "Task not found: ");
    append_str(&mut out, id);
    SlopChopError::Other(from_chars(&out))
}

impl TaskStore {
    /// Position of the first task with id `id`.
    fn position(&self, id: &str) -> (r: Option<usize>)
        ensures
            match r {
                Some(i) => find_id(self.task_list(), id@) == Some(i as int),
                None => find_id(self.task_list(), id@) is None,
            },
    {
        let ghost tv = self.task_list();
        let mut i: usize = 0;
        while i < self.tasks.len()
            invariant
                i <= self.tasks.len(),
                tv == self.task_list(),
                find_id(tv, id@) == find_id_from(tv, id@, i as int),
            decreases self.tasks.len() - i,
        {
            assert(tv[i as int] == self.tasks@[i as int]@);
            if text_eq(&self.tasks[i].id, id) {
                return Some(i);
            }
            i += 1;
        }
        None
    }

    /// Applies one command.
    pub fn apply(&mut self, cmd: RoadmapCommand) -> (r: Result<(), SlopChopError>)
        ensures
            applied(&*old(self), &*final(self), r, apply_spec(old(self).task_list(), cmd@)),
    {
        match cmd {
            RoadmapCommand::Check { id } => self.set_status(id.as_str(), TaskStatus::Done),
            RoadmapCommand::Uncheck { id } => self.set_status(id.as_str(), TaskStatus::Pending),
            RoadmapCommand::Add(task) => self.add_task(task),
            RoadmapCommand::Update { id, fields } => self.update_task(id.as_str(), fields),
            RoadmapCommand::Delete { id } => self.delete_task(id.as_str()),
        }
    }

    fn set_status(&mut self, id: &str, status: TaskStatus) -> (r: Result<(), SlopChopError>)
        ensures
            applied(
                &*old(self),
                &*final(self),
                r,
                match find_id(old(self).task_list(), id@) {
                    None => Err(not_found_msg(id@)),
                    Some(i) => Ok(
                        old(self).task_list().update(
                            i,
                            with_status(old(self).task_list()[i], status),
                        ),
                    ),
                },
            ),
    {
        match self.position(id) {
            None => Err(not_found(id)),
            Some(i) => {
                proof {
                    lemma_find_id_from(self.task_list(), id@, 0);
                    assert(find_id(self.task_list(), id@) == Some(i as int));
                }
                let ghost before = self.tasks@;
                let t = self.tasks.remove(i);
                let nt = Task {
                    id: t.id,
                    text: t.text,
                    status,
                    section: t.section,
                    group: t.group,
                    test: t.test,
                };
                self.tasks.insert(i, nt);
                proof {
                    assert(task_views(self.tasks@) =~= task_views(before).update(
                        i as int,
                        with_status(before[i as int]@, status),
                    ));
                }
                Ok(())
            },
        }
    }

    fn add_task(&mut self, task: Task) -> (r: Result<(), SlopChopError>)
        ensures
            applied(
                &*old(self),
                &*final(self),
                r,
                apply_spec(old(self).task_list(), RoadmapCommandView::Add(task@)),
            ),
    {
        match self.position(task.id.as_str()) {
            Some(_) => {
                let mut out: Vec<char> = Vec::new();
                append_str(&mut out, "Task already exists: ");
                append_str(&mut out, task.id.as_str());
                Err(SlopChopError::Other(from_chars(&out)))
            },
            None => {
                let ghost before = self.tasks@;
                self.tasks.push(task);
                proof {
                    assert(task_views(self.tasks@) =~= task_views(before).push(task@));
                }
                Ok(())
            },
        }
    }

    fn update_task(&mut self, id: &str, fields: TaskUpdate) -> (r: Result<(), SlopChopError>)
        ensures
            applied(
                &*old(self),
                &*final(self),
                r,
                match find_id(old(self).task_list(), id@) {
                    None => Err(not_found_msg(id@)),
                    Some(i) => Ok(
                        old(self).task_list().update(
                            i,
                            updated(old(self).task_list()[i], fields@),
                        ),
                    ),
                },
            ),
    {
        match self.position(id) {
            None => Err(not_found(id)),
            Some(i) => {
                proof {
                    lemma_find_id_from(self.task_list(), id@, 0);
                    assert(find_id(self.task_list(), id@) == Some(i as int));
                }
                let ghost before = self.tasks@;
                let ghost fv = fields@;
                let t = self.tasks.remove(i);
                let text = match fields.text {
                    Some(x) => x,
                    None => t.text,
                };
                let test = match fields.test {
                    Some(x) => Some(x),
                    None => t.test,
                };
                let section = match fields.section {
                    Some(x) => x,
                    None => t.section,
                };
                let group = match fields.group {
                    Some(x) => Some(x),
                    None => t.group,
                };
                let nt = Task { id: t.id, text, status: t.status, section, group, test };
                assert(nt@ == updated(before[i as int]@, fv));
                self.tasks.insert(i, nt);
                proof {
                    assert(task_views(self.tasks@) =~= task_views(before).update(
                        i as int,
                        updated(before[i as int]@, fv),
                    ));
                }
                Ok(())
            },
        }
    }

    fn delete_task(&mut self, id: &str) -> (r: Result<(), SlopChopError>)
        ensures
            applied(
                &*old(self),
                &*final(self),
                r,
                apply_spec(old(self).task_list(), RoadmapCommandView::Delete { id: id@ }),
            ),
    {
        match self.position(id) {
            None => {
                let e = not_found(id);
                assert(self.tasks@ == old(self).tasks@);
                Err(e)
            },
            Some(i) => {
                proof {
                    lemma_find_id_from(self.task_list(), id@, 0);
                    assert(find_id(self.task_list(), id@) == Some(i as int));
                }
                let ghost before = self.tasks@;
                self.tasks.remove(i);
                proof {
                    assert(task_views(self.tasks@) =~= task_views(before).remove(i as int));
                    assert(self.meta == old(self).meta);
                    assert(self.sections == old(self).sections);
                    assert(find_id(old(self).task_list(), id@) == Some(i as int));
                }
                Ok(())
            },
        }
    }
}

/// No two tasks share an id.
pub open spec fn ids_distinct(ts: Seq<TaskView>) -> bool {
    forall|i: int, j: int| 0 <= i < j < ts.len() ==> #[trigger] ts[i].id != #[trigger] ts[j].id
}

/// Every command keeps the task ids distinct: a command that succeeds
/// leaves no two tasks with one id (a failing one leaves the tasks as they
/// were).
pub proof fn law_ids_stay_distinct(ts: Seq<TaskView>, c: RoadmapCommandView)
    requires
        ids_distinct(ts),
    ensures
        apply_spec(ts, c) matches Ok(n) ==> ids_distinct(n),
{
    match c {
        RoadmapCommandView::Add(t) => {
            lemma_find_id_from(ts, t.id, 0);
            if find_id(ts, t.id) is None {
                let n = ts.push(t);
                assert forall|i: int, j: int| 0 <= i < j < n.len() implies #[trigger] n[i].id
                    != #[trigger] n[j].id by {
                    if j == ts.len() {
                        assert(ts[i].id != t.id);
                    } else {
                        assert(ts[i].id != ts[j].id);
                    }
                }
            }
        },
        RoadmapCommandView::Delete { id } => {
            lemma_find_id_from(ts, id, 0);
            if let Some(k) = find_id(ts, id) {
                let n = ts.remove(k);
                assert forall|i: int, j: int| 0 <= i < j < n.len() implies #[trigger] n[i].id
                    != #[trigger] n[j].id by {
                    let i2 = if i < k { i } else { i + 1 };
                    let j2 = if j < k { j } else { j + 1 };
                    assert(n[i] == ts[i2]);
                    assert(n[j] == ts[j2]);
                    assert(ts[i2].id != ts[j2].id);
                }
            }
        },
        RoadmapCommandView::Check { id } | RoadmapCommandView::Uncheck { id } => {
            lemma_find_id_from(ts, id, 0);
            if let Some(k) = find_id(ts, id) {
                let s = if c is Check { TaskStatus::Done } else { TaskStatus::Pending };
                let n = ts.update(k, with_status(ts[k], s));
                assert forall|i: int, j: int| 0 <= i < j < n.len() implies #[trigger] n[i].id
                    != #[trigger] n[j].id by {
                    assert(n[i].id == ts[i].id);
                    assert(n[j].id == ts[j].id);
                    assert(ts[i].id != ts[j].id);
                }
            }
        },
        RoadmapCommandView::Update { id, fields } => {
            lemma_find_id_from(ts, id, 0);
            if let Some(k) = find_id(ts, id) {
                let n = ts.update(k, updated(ts[k], fields));
                assert forall|i: int, j: int| 0 <= i < j < n.len() implies #[trigger] n[i].id
                    != #[trigger] n[j].id by {
                    assert(n[i].id == ts[i].id);
                    assert(n[j].id == ts[j].id);
                    assert(ts[i].id != ts[j].id);
                }
            }
        },
    }
}

} // verus!
