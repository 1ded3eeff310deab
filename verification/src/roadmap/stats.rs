//! The task list and task counts of a legacy roadmap.
use vstd::prelude::*;
use crate::roadmap::diff::{keys_of, TaskKey};
use crate::roadmap::types::{Roadmap, RoadmapStats, Section, Task, TaskStatus};

verus! {

/// Number of complete tasks among the keys.
pub open spec fn complete_count(ks: Seq<TaskKey>) -> nat
    decreases ks.len(),
{
    if ks.len() == 0 {
        0
    } else {
        complete_count(ks.drop_last()) + if ks.last().2 == TaskStatus::Complete { 1nat } else { 0nat }
    }
}

proof fn lemma_complete_count_bound(ks: Seq<TaskKey>)
    ensures
        complete_count(ks) <= ks.len(),
    decreases ks.len(),
{
    if ks.len() > 0 {
        lemma_complete_count_bound(ks.drop_last());
    }
}

impl Roadmap {
    /// The number of tasks of the sections (not of subsections or
    /// sub-tasks), how many are complete and how many pending.
    pub fn stats(&self) -> (r: RoadmapStats)
        requires
            keys_of(self.sections@).len() <= usize::MAX,
        ensures
            r.total == keys_of(self.sections@).len(),
            r.complete == complete_count(keys_of(self.sections@)),
            r.pending == r.total - r.complete,
    {
        let secs = &self.sections;
        let mut total: usize = 0;
        let mut complete: usize = 0;
        let mut i: usize = 0;
        while i < secs.len()
            invariant
                i <= secs.len(),
                keys_of(secs@).len() <= usize::MAX,
                total == keys_of(secs@.take(i as int)).len(),
                complete == complete_count(keys_of(secs@.take(i as int))),
            decreases secs.len() - i,
        {
            let tasks = &secs[i].tasks;
            let ghost base = keys_of(secs@.take(i as int));
            proof {
                assert(secs@.take(i + 1).drop_last() =~= secs@.take(i as int));
                lemma_keys_prefix(secs@, i + 1);
            }
            let mut j: usize = 0;
            while j < tasks.len()
                invariant
                    j <= tasks.len(),
                    tasks@ == secs@[i as int].tasks@,
                    base.len() + tasks@.len() <= usize::MAX,
                    total == base.len() + j,
                    complete == complete_count(base + tasks@.take(j as int).map_values(
                        |t: Task| crate::roadmap::diff::task_key(t),
                    )),
                decreases tasks.len() - j,
            {
                let ghost ks = base + tasks@.take(j as int).map_values(
                    |t: Task| crate::roadmap::diff::task_key(t),
                );
                let ghost ks2 = base + tasks@.take(j + 1).map_values(
                    |t: Task| crate::roadmap::diff::task_key(t),
                );
                assert(ks2.drop_last() =~= ks);
                assert(ks2.last() == crate::roadmap::diff::task_key(tasks@[j as int]));
                proof {
                    lemma_complete_count_bound(ks);
                }
                if tasks[j].status == TaskStatus::Complete {
                    complete += 1;
                }
                total += 1;
                j += 1;
            }
            proof {
                assert(tasks@.take(tasks.len() as int) =~= tasks@);
            }
            i += 1;
        }
        assert(secs@.take(secs.len() as int) =~= secs@);
        proof {
            lemma_complete_count_bound(keys_of(secs@));
        }
        RoadmapStats { total, complete, pending: total - complete }
    }
}

/// The keys of a prefix of the sections are a prefix of all keys.
proof fn lemma_keys_prefix(secs: Seq<Section>, n: int)
    requires
        0 <= n <= secs.len(),
    ensures
        keys_of(secs.take(n)).len() <= keys_of(secs).len(),
    decreases secs.len() - n,
{
    if n < secs.len() {
        lemma_keys_prefix(secs, n + 1);
        assert(secs.take(n + 1).drop_last() =~= secs.take(n));
    } else {
        assert(secs.take(n) =~= secs);
    }
}

/// The tasks of the sections, section after section (subsections and
/// sub-tasks are not visited).
pub open spec fn section_tasks(secs: Seq<Section>) -> Seq<Task>
    decreases secs.len(),
{
    if secs.len() == 0 {
        Seq::empty()
    } else {
        section_tasks(secs.drop_last()) + secs.last().tasks@
    }
}

impl Roadmap {
    /// The tasks of the sections, section after section.
    pub fn all_tasks(&self) -> (r: Vec<&Task>)
        ensures
            r@.len() == section_tasks(self.sections@).len(),
            forall|k: int| 0 <= k < r@.len() ==> *#[trigger] r@[k] == section_tasks(self.sections@)[k],
    {
        let secs = &self.sections;
        let mut out: Vec<&Task> = Vec::new();
        let mut i: usize = 0;
        while i < secs.len()
            invariant
                i <= secs.len(),
                out@.len() == section_tasks(secs@.take(i as int)).len(),
                forall|k: int|
                    0 <= k < out@.len() ==> *#[trigger] out@[k] == section_tasks(secs@.take(i as int))[k],
            decreases secs.len() - i,
        {
            proof {
                assert(secs@.take(i + 1).drop_last() =~= secs@.take(i as int));
            }
            let ghost base = section_tasks(secs@.take(i as int));
            let tasks = &secs[i].tasks;
            let mut j: usize = 0;
            while j < tasks.len()
                invariant
                    j <= tasks.len(),
                    tasks@ == secs@[i as int].tasks@,
                    out@.len() == base.len() + j,
                    forall|k: int|
                        0 <= k < out@.len() ==> *#[trigger] out@[k] == (base + tasks@.take(j as int))[k],
                decreases tasks.len() - j,
            {
                out.push(&tasks[j]);
                proof {
                    assert forall|k: int| 0 <= k < out@.len() implies *#[trigger] out@[k] == (base
                        + tasks@.take(j + 1))[k] by {
                        if k < out@.len() - 1 {
                            assert((base + tasks@.take(j + 1))[k] == (base + tasks@.take(j as int))[k]);
                        }
                    }
                }
                j += 1;
            }
            proof {
                assert(tasks@.take(tasks.len() as int) =~= tasks@);
                assert(section_tasks(secs@.take(i + 1)) =~= base + tasks@);
            }
            i += 1;
        }
        assert(secs@.take(secs.len() as int) =~= secs@);
        out
    }
}

/// The counts describe the task list: the tasks that `stats` counts are
/// those that `all_tasks` lists, key for key and in the same order.
pub proof fn law_counts_follow_task_list(secs: Seq<Section>)
    ensures
        keys_of(secs) == section_tasks(secs).map_values(|t: Task| crate::roadmap::diff::task_key(t)),
    decreases secs.len(),
{
    if secs.len() > 0 {
        law_counts_follow_task_list(secs.drop_last());
        assert(keys_of(secs) =~= section_tasks(secs).map_values(
            |t: Task| crate::roadmap::diff::task_key(t),
        ));
    }
}

} // verus!
