//! Commands that turn one legacy roadmap into another.
use vstd::prelude::*;
use crate::roadmap::cmd_parser::command_views;
use crate::roadmap::str_utils::{slugify, slugify_spec};
use crate::roadmap::types::{Command, CommandView, Roadmap, Section, Task, TaskStatus};
use crate::text::{append_str, eq_str, from_chars};

verus! {

/// What the diff reads of a task: its id, its text and its status.
pub type TaskKey = (Seq<char>, Seq<char>, TaskStatus);

/// The key of a task.
pub open spec fn task_key(t: Task) -> TaskKey {
    (t.id@, t.text@, t.status)
}

/// The keys of the tasks of `secs`, section after section.
pub open spec fn keys_of(secs: Seq<Section>) -> Seq<TaskKey>
    decreases secs.len(),
{
    if secs.len() == 0 {
        Seq::empty()
    } else {
        keys_of(secs.drop_last()) + secs.last().tasks@.map_values(|t: Task| task_key(t))
    }
}

/// The keys of all tasks of a roadmap (subsections and sub-tasks are not
/// visited).
pub open spec fn roadmap_keys(r: &Roadmap) -> Seq<TaskKey> {
    keys_of(r.sections@)
}

/// First position at or after `i` of a key with id `id`.
pub open spec fn find_id_from(ks: Seq<TaskKey>, id: Seq<char>, i: int) -> Option<int>
    decreases ks.len() - i,
{
    if i < 0 || i >= ks.len() {
        None
    } else if ks[i].0 == id {
        Some(i)
    } else {
        find_id_from(ks, id, i + 1)
    }
}

/// The commands for one task of the new roadmap: `ADD` under `unknown` when
/// no old task has its id; else `CHECK`/`UNCHECK` when the status changed,
/// then `UPDATE` when the text changed.
pub open spec fn task_changes(old: Seq<TaskKey>, t: TaskKey) -> Seq<CommandView> {
    match find_id_from(old, t.0, 0) {
        None => seq![CommandView::Add { parent: "unknown"@, text: t.1, after: None }],
        Some(k) => {
            let o = old[k];
            let status = if o.2 != t.2 {
                match t.2 {
                    TaskStatus::Complete => seq![CommandView::Check { path: t.0 }],
                    TaskStatus::Pending => seq![CommandView::Uncheck { path: t.0 }],
                }
            } else {
                Seq::empty()
            };
            let text = if o.1 != t.1 {
                seq![CommandView::Update { path: t.0, text: t.1 }]
            } else {
                Seq::empty()
            };
            status + text
        },
    }
}

/// The commands for the new tasks `new`, in order.
pub open spec fn changes(old: Seq<TaskKey>, new: Seq<TaskKey>) -> Seq<CommandView>
    decreases new.len(),
{
    if new.len() == 0 {
        Seq::empty()
    } else {
        changes(old, new.drop_last()) + task_changes(old, new.last())
    }
}

/// `DELETE` for each old task whose id no new task has, in order.
pub open spec fn deletions(old: Seq<TaskKey>, new: Seq<TaskKey>) -> Seq<CommandView>
    decreases old.len(),
{
    if old.len() == 0 {
        Seq::empty()
    } else {
        deletions(old.drop_last(), new) + if find_id_from(new, old.last().0, 0) is None {
            seq![CommandView::Delete { path: old.last().0 }]
        } else {
            Seq::empty()
        }
    }
}

/// The commands that take the tasks `old` to the tasks `new`.
pub open spec fn update_commands(old: Seq<TaskKey>, new: Seq<TaskKey>) -> Seq<CommandView> {
    changes(old, new) + deletions(old, new)
}

/// No two tasks share an id.
pub open spec fn distinct_ids(ks: Seq<TaskKey>) -> bool {
    forall|i: int, j: int| 0 <= i < j < ks.len() ==> #[trigger] ks[i].0 != #[trigger] ks[j].0
}

proof fn lemma_find_own_id(ks: Seq<TaskKey>, n: int)
    requires
        distinct_ids(ks),
        0 <= n < ks.len(),
    ensures
        find_id_from(ks, ks[n].0, 0) == Some(n),
{
    lemma_find_id_from(ks, ks[n].0, 0);
    match find_id_from(ks, ks[n].0, 0) {
        Some(k) => {
            if k < n {
                assert(ks[k].0 != ks[n].0);
            } else if k > n {
                assert(ks[n].0 != ks[k].0);
            }
        },
        None => {
            assert(ks[n].0 == ks[n].0);
        },
    }
}

proof fn lemma_no_changes(ks: Seq<TaskKey>, n: int)
    requires
        distinct_ids(ks),
        0 <= n <= ks.len(),
    ensures
        changes(ks, ks.take(n)) == Seq::<CommandView>::empty(),
        deletions(ks.take(n), ks) == Seq::<CommandView>::empty(),
    decreases n,
{
    if n > 0 {
        lemma_no_changes(ks, n - 1);
        assert(ks.take(n).drop_last() =~= ks.take(n - 1));
        assert(ks.take(n).last() == ks[n - 1]);
        lemma_find_own_id(ks, n - 1);
        assert(task_changes(ks, ks[n - 1]) =~= Seq::<CommandView>::empty());
        assert(changes(ks, ks.take(n)) =~= Seq::<CommandView>::empty());
        assert(deletions(ks.take(n), ks) =~= Seq::<CommandView>::empty());
    } else {
        assert(ks.take(0) =~= Seq::<TaskKey>::empty());
    }
}

/// A roadmap whose task ids are distinct needs no command to become
/// itself.
pub proof fn law_unchanged_needs_no_commands(ks: Seq<TaskKey>)
    requires
        distinct_ids(ks),
    ensures
        update_commands(ks, ks) == Seq::<CommandView>::empty(),
{
    lemma_no_changes(ks, ks.len() as int);
    assert(ks.take(ks.len() as int) =~= ks);
}

/// How many `DELETE x` commands `cs` holds.
pub open spec fn delete_count(cs: Seq<CommandView>, x: Seq<char>) -> nat
    decreases cs.len(),
{
    if cs.len() == 0 {
        0
    } else {
        delete_count(cs.drop_last(), x) + if cs.last() == (CommandView::Delete { path: x }) {
            1nat
        } else {
            0nat
        }
    }
}

/// Some task of `ks` has the id `x`.
pub open spec fn has_id(ks: Seq<TaskKey>, x: Seq<char>) -> bool {
    exists|k: int| 0 <= k < ks.len() && #[trigger] ks[k].0 == x
}

proof fn lemma_delete_count_concat(a: Seq<CommandView>, b: Seq<CommandView>, x: Seq<char>)
    ensures
        delete_count(a + b, x) == delete_count(a, x) + delete_count(b, x),
    decreases b.len(),
{
    if b.len() > 0 {
        lemma_delete_count_concat(a, b.drop_last(), x);
        assert((a + b).drop_last() =~= a + b.drop_last());
        assert((a + b).last() == b.last());
    } else {
        assert(a + b =~= a);
    }
}

proof fn lemma_changes_no_delete(old: Seq<TaskKey>, new: Seq<TaskKey>)
    ensures
        forall|i: int| 0 <= i < changes(old, new).len() ==> !(#[trigger] changes(old, new)[i] is Delete),
    decreases new.len(),
{
    if new.len() > 0 {
        lemma_changes_no_delete(old, new.drop_last());
        let a = changes(old, new.drop_last());
        let b = task_changes(old, new.last());
        assert forall|i: int| 0 <= i < changes(old, new).len() implies !(#[trigger] changes(
            old,
            new,
        )[i] is Delete) by {
            if i < a.len() {
                assert(changes(old, new)[i] == a[i]);
            } else {
                assert(changes(old, new)[i] == b[i - a.len()]);
            }
        }
    }
}

proof fn lemma_changes_count(old: Seq<TaskKey>, new: Seq<TaskKey>, x: Seq<char>)
    ensures
        delete_count(changes(old, new), x) == 0,
    decreases changes(old, new).len(),
{
    lemma_changes_no_delete(old, new);
    lemma_no_delete_count(changes(old, new), x);
}

proof fn lemma_no_delete_count(cs: Seq<CommandView>, x: Seq<char>)
    requires
        forall|i: int| 0 <= i < cs.len() ==> !(#[trigger] cs[i] is Delete),
    ensures
        delete_count(cs, x) == 0,
    decreases cs.len(),
{
    if cs.len() > 0 {
        assert(!(cs[cs.len() - 1] is Delete));
        lemma_no_delete_count(cs.drop_last(), x);
    }
}

proof fn lemma_deletions(old: Seq<TaskKey>, new: Seq<TaskKey>, x: Seq<char>)
    requires
        distinct_ids(old),
    ensures
        forall|i: int| 0 <= i < deletions(old, new).len() ==> #[trigger] deletions(old, new)[i] is Delete,
        delete_count(deletions(old, new), x) == if has_id(old, x) && find_id_from(new, x, 0) is None {
            1nat
        } else {
            0nat
        },
    decreases old.len(),
{
    if old.len() > 0 {
        let d = old.drop_last();
        assert(distinct_ids(d)) by {
            assert forall|i: int, j: int| 0 <= i < j < d.len() implies #[trigger] d[i].0
                != #[trigger] d[j].0 by {
                assert(old[i].0 != old[j].0);
            }
        }
        lemma_deletions(d, new, x);
        let a = deletions(d, new);
        let y = old.last().0;
        let b = if find_id_from(new, y, 0) is None {
            seq![CommandView::Delete { path: y }]
        } else {
            Seq::<CommandView>::empty()
        };
        assert(deletions(old, new) == a + b);
        assert forall|i: int| 0 <= i < deletions(old, new).len() implies #[trigger] deletions(
            old,
            new,
        )[i] is Delete by {
            if i < a.len() {
                assert((a + b)[i] == a[i]);
            } else {
                assert((a + b)[i] == b[i - a.len()]);
            }
        }
        lemma_delete_count_concat(a, b, x);
        if b.len() > 0 {
            assert(b.drop_last() =~= Seq::<CommandView>::empty());
            assert(delete_count(Seq::<CommandView>::empty(), x) == 0);
            assert(delete_count(b, x) == if y == x { 1nat } else { 0nat });
        } else {
            assert(delete_count(b, x) == 0);
        }
        if x == y {
            if has_id(d, x) {
                let k = choose|k: int| 0 <= k < d.len() && #[trigger] d[k].0 == x;
                assert(old[k].0 != old[old.len() - 1].0);
            }
            assert(old[old.len() - 1].0 == x);
            assert(has_id(old, x));
            assert(!has_id(d, x));
        } else {
            if has_id(old, x) {
                let k = choose|k: int| 0 <= k < old.len() && #[trigger] old[k].0 == x;
                assert(k < d.len());
                assert(d[k].0 == x);
            }
            if has_id(d, x) {
                let k = choose|k: int| 0 <= k < d.len() && #[trigger] d[k].0 == x;
                assert(old[k].0 == x);
            }
        }
    }
}

/// When no two old tasks share an id, the commands first bring the new
/// tasks in and only then delete; and each id of an old task that no new
/// task has is deleted exactly once, no other id at all.
pub proof fn law_deletions_once_and_last(old: Seq<TaskKey>, new: Seq<TaskKey>)
    requires
        distinct_ids(old),
    ensures
        forall|i: int|
            0 <= i < changes(old, new).len() ==> !(#[trigger] update_commands(old, new)[i] is Delete),
        forall|i: int|
            changes(old, new).len() <= i < update_commands(old, new).len()
                ==> #[trigger] update_commands(old, new)[i] is Delete,
        forall|x: Seq<char>|
            #[trigger] delete_count(update_commands(old, new), x) == if has_id(old, x) && find_id_from(
                new,
                x,
                0,
            ) is None {
                1nat
            } else {
                0nat
            },
{
    let a = changes(old, new);
    lemma_changes_no_delete(old, new);
    assert forall|i: int| 0 <= i < a.len() implies !(#[trigger] update_commands(old, new)[i] is Delete) by {
        assert(update_commands(old, new)[i] == a[i]);
    }
    assert forall|i: int| a.len() <= i < update_commands(old, new).len() implies #[trigger] update_commands(
        old,
        new,
    )[i] is Delete by {
        lemma_deletions(old, new, Seq::empty());
        assert(update_commands(old, new)[i] == deletions(old, new)[i - a.len()]);
    }
    assert forall|x: Seq<char>| #[trigger] delete_count(update_commands(old, new), x) == if has_id(
        old,
        x,
    ) && find_id_from(new, x, 0) is None {
        1nat
    } else {
        0nat
    } by {
        lemma_delete_count_concat(a, deletions(old, new), x);
        lemma_changes_count(old, new, x);
        lemma_deletions(old, new, x);
    }
}

/// A key as values.
struct KeyRow {
    id: String,
    text: String,
    status: TaskStatus,
}

spec fn key_row_view(k: KeyRow) -> TaskKey {
    (k.id@, k.text@, k.status)
}

spec fn key_rows_view(v: Seq<KeyRow>) -> Seq<TaskKey> {
    v.map_values(|k: KeyRow| key_row_view(k))
}

/// The keys of all tasks of the roadmap, in order.
fn get_all_tasks(roadmap: &Roadmap) -> (r: Vec<KeyRow>)
    ensures
        key_rows_view(r@) == roadmap_keys(roadmap),
{
    let secs = &roadmap.sections;
    let mut out: Vec<KeyRow> = Vec::new();
    let mut i: usize = 0;
    while i < secs.len()
        invariant
            i <= secs.len(),
            key_rows_view(out@) == keys_of(secs@.take(i as int)),
        decreases secs.len() - i,
    {
        let tasks = &secs[i].tasks;
        let ghost base = out@;
        let mut j: usize = 0;
        while j < tasks.len()
            invariant
                j <= tasks.len(),
                tasks@ == secs@[i as int].tasks@,
                key_rows_view(out@) == key_rows_view(base) + tasks@.take(j as int).map_values(
                    |t: Task| task_key(t),
                ),
            decreases tasks.len() - j,
        {
            let t = &tasks[j];
            let ghost o0 = out@;
            out.push(KeyRow { id: t.id.clone(), text: t.text.clone(), status: t.status });
            proof {
                assert(key_rows_view(out@) =~= key_rows_view(o0).push(task_key(tasks@[j as int])));
                assert(tasks@.take(j + 1).map_values(|t: Task| task_key(t)) =~= tasks@.take(
                    j as int,
                ).map_values(|t: Task| task_key(t)).push(task_key(tasks@[j as int])));
            }
            j += 1;
        }
        proof {
            assert(tasks@.take(tasks.len() as int) =~= tasks@);
            assert(secs@.take(i + 1).drop_last() =~= secs@.take(i as int));
        }
        i += 1;
    }
    assert(secs@.take(secs.len() as int) =~= secs@);
    out
}

/// Position of the first key with id `id`.
fn find_id(ks: &Vec<KeyRow>, id: &String) -> (r: Option<usize>)
    ensures
        match find_id_from(key_rows_view(ks@), id@, 0) {
            Some(k) => r == Some(k as usize),
            None => r is None,
        },
{
    let ghost kv = key_rows_view(ks@);
    let mut i: usize = 0;
    while i < ks.len()
        invariant
            i <= ks.len(),
            kv == key_rows_view(ks@),
            find_id_from(kv, id@, 0) == find_id_from(kv, id@, i as int),
        decreases ks.len() - i,
    {
        assert(kv[i as int].0 == ks@[i as int].id@);
        if ks[i].id == *id {
            return Some(i);
        }
        i += 1;
    }
    None
}

proof fn lemma_find_id_from(ks: Seq<TaskKey>, id: Seq<char>, i: int)
    requires
        0 <= i,
    ensures
        match find_id_from(ks, id, i) {
            Some(k) => i <= k < ks.len() && ks[k].0 == id && forall|j: int|
                i <= j < k ==> #[trigger] ks[j].0 != id,
            None => forall|j: int| i <= j < ks.len() ==> #[trigger] ks[j].0 != id,
        },
    decreases ks.len() - i,
{
    if i < ks.len() && ks[i].0 != id {
        lemma_find_id_from(ks, id, i + 1);
    }
}

/// The commands that take the tasks of `old` to those of `new`: for each
/// task of `new`, `ADD` when `old` has no task of its id, else `CHECK` or
/// `UNCHECK` for a changed status and `UPDATE` for a changed text; then
/// `DELETE` for each task of `old` whose id `new` lacks.
pub fn generate_update_commands(old: &Roadmap, new: &Roadmap) -> (r: Vec<Command>)
    ensures
        command_views(r@) == update_commands(roadmap_keys(old), roadmap_keys(new)),
{
    let old_tasks = get_all_tasks(old);
    let new_tasks = get_all_tasks(new);
    let ghost ov = key_rows_view(old_tasks@);
    let ghost nv = key_rows_view(new_tasks@);
    let mut cmds: Vec<Command> = Vec::new();
    let mut i: usize = 0;
    while i < new_tasks.len()
        invariant
            i <= new_tasks.len(),
            ov == key_rows_view(old_tasks@),
            nv == key_rows_view(new_tasks@),
            command_views(cmds@) == changes(ov, nv.take(i as int)),
        decreases new_tasks.len() - i,
    {
        let nt = &new_tasks[i];
        let ghost c0 = command_views(cmds@);
        proof {
            assert(nv.take(i + 1).drop_last() =~= nv.take(i as int));
            assert(nv.take(i + 1).last() == key_row_view(*nt));
        }
        match find_id(&old_tasks, &nt.id) {
            Some(k) => {
                proof {
                    lemma_find_id_from(ov, nt.id@, 0);
                    assert(find_id_from(ov, nt.id@, 0) == Some(k as int));
                }
                let ot = &old_tasks[k];
                assert(ov[k as int] == key_row_view(*ot));
                let ghost c1 = command_views(cmds@);
                if ot.status != nt.status {
                    match nt.status {
                        TaskStatus::Complete => cmds.push(Command::Check { path: nt.id.clone() }),
                        TaskStatus::Pending => cmds.push(Command::Uncheck { path: nt.id.clone() }),
                    }
                }
                let ghost c2 = command_views(cmds@);
                if ot.text != nt.text {
                    cmds.push(Command::Update { path: nt.id.clone(), text: nt.text.clone() });
                }
                proof {
                    let t = key_row_view(*nt);
                    let status = if ov[k as int].2 != t.2 {
                        match t.2 {
                            TaskStatus::Complete => seq![CommandView::Check { path: t.0 }],
                            TaskStatus::Pending => seq![CommandView::Uncheck { path: t.0 }],
                        }
                    } else {
                        Seq::empty()
                    };
                    assert(c2 =~= c1 + status);
                    let text = if ov[k as int].1 != t.1 {
                        seq![CommandView::Update { path: t.0, text: t.1 }]
                    } else {
                        Seq::empty()
                    };
                    assert(command_views(cmds@) =~= c2 + text);
                    assert(find_id_from(ov, t.0, 0) == Some(k as int));
                    assert(task_changes(ov, t) == status + text);
                    assert(command_views(cmds@) =~= c0 + task_changes(ov, t));
                }
            },
            None => {
                cmds.push(
                    Command::Add { parent: "unknown".to_owned(), text: nt.text.clone(), after: None },
                );
                assert(command_views(cmds@) =~= c0 + task_changes(ov, key_row_view(*nt)));
            },
        }
        i += 1;
    }
    proof {
        assert(nv.take(new_tasks.len() as int) =~= nv);
    }
    let ghost ch = command_views(cmds@);
    let mut j: usize = 0;
    while j < old_tasks.len()
        invariant
            j <= old_tasks.len(),
            ov == key_rows_view(old_tasks@),
            nv == key_rows_view(new_tasks@),
            command_views(cmds@) == ch + deletions(ov.take(j as int), nv),
        decreases old_tasks.len() - j,
    {
        let ot = &old_tasks[j];
        let ghost c0 = command_views(cmds@);
        proof {
            assert(ov.take(j + 1).drop_last() =~= ov.take(j as int));
            assert(ov.take(j + 1).last() == key_row_view(*ot));
        }
        match find_id(&new_tasks, &ot.id) {
            Some(_) => {
                assert(find_id_from(nv, ov.take(j + 1).last().0, 0) is Some);
                assert(deletions(ov.take(j + 1), nv) =~= deletions(ov.take(j as int), nv));
                assert(command_views(cmds@) =~= ch + deletions(ov.take(j + 1), nv));
            },
            None => {
                cmds.push(Command::Delete { path: ot.id.clone() });
                assert(find_id_from(nv, ov.take(j + 1).last().0, 0) is None);
                assert(deletions(ov.take(j + 1), nv) =~= deletions(ov.take(j as int), nv).push(
                    CommandView::Delete { path: ot.id@ },
                ));
                assert(command_views(cmds@) =~= c0.push(CommandView::Delete { path: ot.id@ }));
                assert(command_views(cmds@) =~= ch + deletions(ov.take(j + 1), nv));
            },
        }
        j += 1;
    }
    proof {
        assert(ov.take(old_tasks.len() as int) =~= ov);
    }
    cmds
}

/// `"No changes"` for equal texts; else both texts under `OLD:` and `NEW:`.
pub fn diff_text(old_text: &str, new_text: &str) -> (r: String)
    ensures
        r@ == (if old_text@ == new_text@ {
            "No changes"@
        } else {
            "OLD:\n"@ + old_text@ + "\n\nNEW:\n"@ + new_text@
        }),
{
    let a = crate::text::to_chars(old_text);
    if eq_str(&a, new_text) {
        return "No changes".to_owned();
    }
    let mut out: Vec<char> = Vec::new();
    append_str(&mut out, "OLD:\n");
    append_str(&mut out, old_text);
    append_str(&mut out, "\n\nNEW:\n");
    append_str(&mut out, new_text);
    from_chars(&out)
}

/// The one command that turns `old` into `new`: `ADD` under `unknown`
/// without an old task; `CHECK`/`UNCHECK` when the status changed; else
/// `UPDATE` with the new text.
pub fn infer_command(old: Option<&Task>, new: &Task) -> (r: Command)
    ensures
        r@ == (match old {
            Some(o) => if o.status != new.status {
                if new.status == TaskStatus::Complete {
                    CommandView::Check { path: new.id@ }
                } else {
                    CommandView::Uncheck { path: new.id@ }
                }
            } else {
                CommandView::Update { path: new.id@, text: new.text@ }
            },
            None => CommandView::Add { parent: "unknown"@, text: new.text@, after: None },
        }),
{
    match old {
        Some(o) => {
            if o.status != new.status {
                if new.status == TaskStatus::Complete {
                    Command::Check { path: new.id.clone() }
                } else {
                    Command::Uncheck { path: new.id.clone() }
                }
            } else {
                Command::Update { path: new.id.clone(), text: new.text.clone() }
            }
        },
        None => Command::Add { parent: "unknown".to_owned(), text: new.text.clone(), after: None },
    }
}

/// The slug of a legacy title.
pub fn generate_slug_for_legacy(title: &str) -> (r: String)
    ensures
        r@ == slugify_spec(title@),
{
    slugify(title)
}

/// The diff ticks task `t`: an old task has its id, and its status went to
/// complete.
spec fn ticks(old: Seq<TaskKey>, t: TaskKey) -> bool {
    find_id_from(old, t.0, 0) matches Some(k) && old[k].2 != t.2 && t.2 == TaskStatus::Complete
}

/// The diff unticks task `t`: an old task has its id, and its status went
/// back to pending.
spec fn unticks(old: Seq<TaskKey>, t: TaskKey) -> bool {
    find_id_from(old, t.0, 0) matches Some(k) && old[k].2 != t.2 && t.2 == TaskStatus::Pending
}

proof fn lemma_contains_concat(a: Seq<CommandView>, b: Seq<CommandView>, x: CommandView)
    ensures
        (a + b).contains(x) <==> (a.contains(x) || b.contains(x)),
{
    if (a + b).contains(x) {
        let k = choose|k: int| 0 <= k < (a + b).len() && (a + b)[k] == x;
        if k < a.len() {
            assert(a[k] == x);
        } else {
            assert(b[k - a.len()] == x);
        }
    }
    if a.contains(x) {
        let k = choose|k: int| 0 <= k < a.len() && a[k] == x;
        assert((a + b)[k] == x);
    }
    if b.contains(x) {
        let k = choose|k: int| 0 <= k < b.len() && b[k] == x;
        assert((a + b)[a.len() + k] == x);
    }
}

proof fn lemma_contains_single(a: CommandView, x: CommandView)
    ensures
        seq![a].contains(x) <==> a == x,
{
    if a == x {
        assert(seq![a][0] == x);
    }
}

/// The status commands of one task of the new roadmap.
proof fn lemma_task_changes_status(old: Seq<TaskKey>, t: TaskKey, p: Seq<char>)
    ensures
        task_changes(old, t).contains(CommandView::Check { path: p }) <==> (p == t.0 && ticks(old, t)),
        task_changes(old, t).contains(CommandView::Uncheck { path: p }) <==> (p == t.0 && unticks(old, t)),
{
    let c = CommandView::Check { path: p };
    let u = CommandView::Uncheck { path: p };
    match find_id_from(old, t.0, 0) {
        None => {
            let a = CommandView::Add { parent: "unknown"@, text: t.1, after: None };
            lemma_contains_single(a, c);
            lemma_contains_single(a, u);
        },
        Some(k) => {
            let o = old[k];
            let status = if o.2 != t.2 {
                match t.2 {
                    TaskStatus::Complete => seq![CommandView::Check { path: t.0 }],
                    TaskStatus::Pending => seq![CommandView::Uncheck { path: t.0 }],
                }
            } else {
                Seq::empty()
            };
            let text = if o.1 != t.1 {
                seq![CommandView::Update { path: t.0, text: t.1 }]
            } else {
                Seq::empty()
            };
            assert(task_changes(old, t) == status + text);
            lemma_contains_concat(status, text, c);
            lemma_contains_concat(status, text, u);
            if o.2 != t.2 {
                match t.2 {
                    TaskStatus::Complete => {
                        lemma_contains_single(CommandView::Check { path: t.0 }, c);
                        lemma_contains_single(CommandView::Check { path: t.0 }, u);
                    },
                    TaskStatus::Pending => {
                        lemma_contains_single(CommandView::Uncheck { path: t.0 }, c);
                        lemma_contains_single(CommandView::Uncheck { path: t.0 }, u);
                    },
                }
            }
            if o.1 != t.1 {
                lemma_contains_single(CommandView::Update { path: t.0, text: t.1 }, c);
                lemma_contains_single(CommandView::Update { path: t.0, text: t.1 }, u);
            }
        },
    }
}

/// The status commands of the first `n` new tasks name the task `j`
/// only when it is among them.
proof fn lemma_changes_status(old: Seq<TaskKey>, new: Seq<TaskKey>, n: int, j: int)
    requires
        distinct_ids(new),
        0 <= j < new.len(),
        0 <= n <= new.len(),
    ensures
        changes(old, new.take(n)).contains(CommandView::Check { path: new[j].0 }) <==> (j < n
            && ticks(old, new[j])),
        changes(old, new.take(n)).contains(CommandView::Uncheck { path: new[j].0 }) <==> (j < n
            && unticks(old, new[j])),
    decreases n,
{
    let p = new[j].0;
    if n == 0 {
        assert(new.take(0) =~= Seq::<TaskKey>::empty());
    } else {
        lemma_changes_status(old, new, n - 1, j);
        assert(new.take(n).drop_last() =~= new.take(n - 1));
        assert(new.take(n).last() == new[n - 1]);
        let prev = changes(old, new.take(n - 1));
        let last = task_changes(old, new[n - 1]);
        assert(changes(old, new.take(n)) == prev + last);
        lemma_contains_concat(prev, last, CommandView::Check { path: p });
        lemma_contains_concat(prev, last, CommandView::Uncheck { path: p });
        lemma_task_changes_status(old, new[n - 1], p);
        if n - 1 != j {
            if n - 1 < j {
                assert(new[n - 1].0 != new[j].0);
            } else {
                assert(new[j].0 != new[n - 1].0);
            }
        }
    }
}

/// Deletions are only `DELETE` commands.
proof fn lemma_deletions_no_status(old: Seq<TaskKey>, new: Seq<TaskKey>, p: Seq<char>)
    ensures
        !deletions(old, new).contains(CommandView::Check { path: p }),
        !deletions(old, new).contains(CommandView::Uncheck { path: p }),
    decreases old.len(),
{
    if old.len() > 0 {
        lemma_deletions_no_status(old.drop_last(), new, p);
        let prev = deletions(old.drop_last(), new);
        let d = if find_id_from(new, old.last().0, 0) is None {
            seq![CommandView::Delete { path: old.last().0 }]
        } else {
            Seq::empty()
        };
        lemma_contains_concat(prev, d, CommandView::Check { path: p });
        lemma_contains_concat(prev, d, CommandView::Uncheck { path: p });
        if find_id_from(new, old.last().0, 0) is None {
            lemma_contains_single(CommandView::Delete { path: old.last().0 }, CommandView::Check { path: p });
            lemma_contains_single(CommandView::Delete { path: old.last().0 }, CommandView::Uncheck { path: p });
        }
    }
}

/// For a task in both roadmaps (ids distinct in each), the update commands
/// tick it exactly when it went from pending to complete and untick it
/// exactly when it went from complete to pending; a task whose status did
/// not change gets neither. Applying the commands thus gives each such
/// task the status it has in the new roadmap.
pub proof fn law_status_commands_follow_new(old: Seq<TaskKey>, new: Seq<TaskKey>, i: int, j: int)
    requires
        distinct_ids(old),
        distinct_ids(new),
        0 <= i < old.len(),
        0 <= j < new.len(),
        old[i].0 == new[j].0,
    ensures
        update_commands(old, new).contains(CommandView::Check { path: new[j].0 }) <==> (old[i].2
            == TaskStatus::Pending && new[j].2 == TaskStatus::Complete),
        update_commands(old, new).contains(CommandView::Uncheck { path: new[j].0 }) <==> (old[i].2
            == TaskStatus::Complete && new[j].2 == TaskStatus::Pending),
{
    let p = new[j].0;
    lemma_find_own_id(old, i);
    lemma_changes_status(old, new, new.len() as int, j);
    assert(new.take(new.len() as int) =~= new);
    lemma_deletions_no_status(old, new, p);
    lemma_contains_concat(changes(old, new), deletions(old, new), CommandView::Check { path: p });
    lemma_contains_concat(changes(old, new), deletions(old, new), CommandView::Uncheck { path: p });
}

} // verus!
