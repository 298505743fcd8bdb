use vstd::prelude::*;

use crate::error::{EntityKind, TaskServiceError};
use crate::records::{task_wf, Task};
use crate::status::TaskStatus;

verus! {

/// Persistent record of tasks and their lifecycle state. `tasks` is kept
/// sorted by strictly increasing id (FIFO by creation order) and `next_id` is
/// the id the next created task receives.
#[derive(Debug)]
pub struct TaskStore {
    pub tasks: Vec<Task>,
    pub next_id: i32,
}

/// Well-formedness of the store contents: ids strictly increase along the
/// sequence (so they are unique and FIFO order is index order), every id is
/// below `next`, and each record is internally consistent.
pub open spec fn tasks_wf(s: Seq<Task>, next: int) -> bool {
    &&& forall|i: int, j: int|
        #![trigger s[i], s[j]]
        0 <= i < j < s.len() ==> s[i].id < s[j].id
    &&& forall|i: int| 0 <= i < s.len() ==> (#[trigger] s[i]).id < next
    &&& forall|i: int| 0 <= i < s.len() ==> task_wf(#[trigger] s[i])
}

/// Index of the first Pending task, or -1 when none is Pending. With the
/// tasks sorted by id, this is the Pending task with the lowest id.
pub open spec fn first_pending_index(s: Seq<Task>) -> int
    decreases s.len(),
{
    if s.len() == 0 {
        -1
    } else if s[0].status is Pending {
        0
    } else {
        let r = first_pending_index(s.subrange(1, s.len() as int));
        if r == -1 {
            -1
        } else {
            r + 1
        }
    }
}

/// How a task record changes when worker `worker_id` claims it at time `now`.
pub open spec fn claimed_task(t: Task, worker_id: i32, now: i64) -> Task {
    Task {
        worker_id: Some(worker_id),
        status: TaskStatus::InProgress,
        executed_at: Some(now),
        ..t
    }
}

/// The claim transaction as a function of the store contents: select the
/// first Pending task, assign the worker, mark it InProgress and stamp
/// `executed_at`; with no Pending task, leave the store unchanged and hand
/// back no task.
pub open spec fn claim_step(s: Seq<Task>, worker_id: i32, now: i64) -> (Seq<Task>, Option<Task>) {
    let i = first_pending_index(s);
    if i == -1 {
        (s, None)
    } else {
        let t = claimed_task(s[i], worker_id, now);
        (s.update(i, t), Some(t))
    }
}

/// Number of Pending tasks.
pub open spec fn pending_count(s: Seq<Task>) -> nat
    decreases s.len(),
{
    if s.len() == 0 {
        0
    } else {
        pending_count(s.subrange(1, s.len() as int)) + if s[0].status is Pending {
            1nat
        } else {
            0nat
        }
    }
}

/// Index of the task with id `id`, or -1 when the store holds no such task.
pub open spec fn index_of_id(s: Seq<Task>, id: i32) -> int
    decreases s.len(),
{
    if s.len() == 0 {
        -1
    } else if s[0].id == id {
        0
    } else {
        let r = index_of_id(s.subrange(1, s.len() as int), id);
        if r == -1 {
            -1
        } else {
            r + 1
        }
    }
}

/// How a task record changes when it is completed (`success`) or failed.
pub open spec fn finished_task(t: Task, success: bool, now: i64) -> Task {
    Task {
        status: if success {
            TaskStatus::Completed
        } else {
            TaskStatus::Failed
        },
        finished_at: Some(now),
        ..t
    }
}

/// The lifecycle transition as a function of the store contents: an unknown
/// id is NotFound, a task in any state but InProgress is InvalidState (so a
/// terminal task is never overwritten), and an InProgress task moves to its
/// terminal status with `finished_at` stamped.
pub open spec fn finish_step(s: Seq<Task>, task_id: i32, success: bool, now: i64) -> (
    Seq<Task>,
    Result<Task, TaskServiceError>,
) {
    let i = index_of_id(s, task_id);
    if i == -1 {
        (s, Err(TaskServiceError::NotFound(EntityKind::Task)))
    } else if !(s[i].status is InProgress) {
        (s, Err(TaskServiceError::InvalidState(s[i].status)))
    } else {
        let t = finished_task(s[i], success, now);
        (s.update(i, t), Ok(t))
    }
}

/// The record a creation at time `now` inserts: Pending, unassigned, with
/// only `created_at` stamped.
pub open spec fn new_task(
    id: i32,
    plan_id: i32,
    av_id: i32,
    sampler_id: i32,
    simulator_id: i32,
    now: i64,
) -> Task {
    Task {
        id,
        plan_id,
        av_id,
        simulator_id,
        sampler_id,
        worker_id: None,
        status: TaskStatus::Pending,
        created_at: now,
        executed_at: None,
        finished_at: None,
    }
}

/// `first_pending_index` finds exactly the index whose task is Pending while
/// every earlier task is not.
pub proof fn lemma_first_pending_index_is(s: Seq<Task>, i: int)
    requires
        0 <= i < s.len(),
        s[i].status is Pending,
        forall|k: int| 0 <= k < i ==> !((#[trigger] s[k]).status is Pending),
    ensures
        first_pending_index(s) == i,
    decreases s.len(),
{
    if i > 0 {
        let tail = s.subrange(1, s.len() as int);
        assert forall|k: int| 0 <= k < i - 1 implies !((#[trigger] tail[k]).status
            is Pending) by {
            assert(tail[k] == s[k + 1]);
        }
        assert(tail[i - 1] == s[i]);
        lemma_first_pending_index_is(tail, i - 1);
    }
}

/// With no Pending task at all, `first_pending_index` is -1.
pub proof fn lemma_first_pending_index_none(s: Seq<Task>)
    requires
        forall|k: int| 0 <= k < s.len() ==> !((#[trigger] s[k]).status is Pending),
    ensures
        first_pending_index(s) == -1,
    decreases s.len(),
{
    if s.len() > 0 {
        let tail = s.subrange(1, s.len() as int);
        assert forall|k: int| 0 <= k < tail.len() implies !((#[trigger] tail[k]).status
            is Pending) by {
            assert(tail[k] == s[k + 1]);
        }
        lemma_first_pending_index_none(tail);
    }
}

/// What the result of `first_pending_index` guarantees.
pub proof fn lemma_first_pending_index_props(s: Seq<Task>)
    ensures
        first_pending_index(s) == -1 ==> forall|k: int|
            0 <= k < s.len() ==> !((#[trigger] s[k]).status is Pending),
        first_pending_index(s) != -1 ==> {
            let i = first_pending_index(s);
            &&& 0 <= i < s.len()
            &&& s[i].status is Pending
            &&& forall|k: int| 0 <= k < i ==> !((#[trigger] s[k]).status is Pending)
        },
    decreases s.len(),
{
    if s.len() > 0 && !(s[0].status is Pending) {
        let tail = s.subrange(1, s.len() as int);
        lemma_first_pending_index_props(tail);
        if first_pending_index(tail) == -1 {
            assert forall|k: int| 0 <= k < s.len() implies !((#[trigger] s[k]).status
                is Pending) by {
                if k > 0 {
                    assert(tail[k - 1] == s[k]);
                    assert(!(tail[k - 1].status is Pending));
                }
            }
        } else {
            let i = first_pending_index(s);
            assert(s[i] == tail[i - 1]);
            assert forall|k: int| 0 <= k < i implies !((#[trigger] s[k]).status is Pending) by {
                if k > 0 {
                    assert(tail[k - 1] == s[k]);
                    assert(!(tail[k - 1].status is Pending));
                }
            }
        }
    }
}

/// `index_of_id` finds exactly the index holding id `id`.
pub proof fn lemma_index_of_id_is(s: Seq<Task>, id: i32, i: int)
    requires
        0 <= i < s.len(),
        s[i].id == id,
        forall|k: int| 0 <= k < i ==> (#[trigger] s[k]).id != id,
    ensures
        index_of_id(s, id) == i,
    decreases s.len(),
{
    if i > 0 {
        let tail = s.subrange(1, s.len() as int);
        assert forall|k: int| 0 <= k < i - 1 implies (#[trigger] tail[k]).id != id by {
            assert(tail[k] == s[k + 1]);
        }
        assert(tail[i - 1] == s[i]);
        lemma_index_of_id_is(tail, id, i - 1);
    }
}

/// With no task holding id `id`, `index_of_id` is -1.
pub proof fn lemma_index_of_id_none(s: Seq<Task>, id: i32)
    requires
        forall|k: int| 0 <= k < s.len() ==> (#[trigger] s[k]).id != id,
    ensures
        index_of_id(s, id) == -1,
    decreases s.len(),
{
    if s.len() > 0 {
        let tail = s.subrange(1, s.len() as int);
        assert forall|k: int| 0 <= k < tail.len() implies (#[trigger] tail[k]).id != id by {
            assert(tail[k] == s[k + 1]);
        }
        lemma_index_of_id_none(tail, id);
    }
}

/// What the result of `index_of_id` guarantees.
pub proof fn lemma_index_of_id_props(s: Seq<Task>, id: i32)
    ensures
        index_of_id(s, id) == -1 ==> forall|k: int|
            0 <= k < s.len() ==> (#[trigger] s[k]).id != id,
        index_of_id(s, id) != -1 ==> {
            let i = index_of_id(s, id);
            &&& 0 <= i < s.len()
            &&& s[i].id == id
        },
    decreases s.len(),
{
    if s.len() > 0 && s[0].id != id {
        let tail = s.subrange(1, s.len() as int);
        lemma_index_of_id_props(tail, id);
        if index_of_id(tail, id) == -1 {
            assert forall|k: int| 0 <= k < s.len() implies (#[trigger] s[k]).id != id by {
                if k > 0 {
                    assert(tail[k - 1] == s[k]);
                    assert(tail[k - 1].id != id);
                }
            }
        } else {
            let i = index_of_id(s, id);
            assert(s[i] == tail[i - 1]);
        }
    }
}

/// Replacing one record with another of the same id preserves store
/// well-formedness, provided the new record is itself consistent.
proof fn lemma_wf_update_same_id(pre: Seq<Task>, i: int, t: Task, next: int)
    requires
        tasks_wf(pre, next),
        0 <= i < pre.len(),
        t.id == pre[i].id,
        task_wf(t),
    ensures
        tasks_wf(pre.update(i, t), next),
{
    let post = pre.update(i, t);
    assert forall|a: int, b: int|
        #![trigger post[a], post[b]]
        0 <= a < b < post.len() implies post[a].id < post[b].id by {
        assert(pre[a].id < pre[b].id);
    }
    assert forall|a: int| 0 <= a < post.len() implies (#[trigger] post[a]).id < next by {
        assert(pre[a].id < next);
    }
    assert forall|a: int| 0 <= a < post.len() implies task_wf(#[trigger] post[a]) by {
        assert(task_wf(pre[a]));
    }
}

/// Find the index of the first Pending task, scanning in id order.
fn find_first_pending(tasks: &Vec<Task>) -> (r: Option<usize>)
    ensures
        match r {
            Some(i) => i < tasks@.len() && first_pending_index(tasks@) == i as int,
            None => first_pending_index(tasks@) == -1,
        },
{
    let n = tasks.len();
    let mut i: usize = 0;
    while i < n
        invariant
            n == tasks@.len(),
            i <= n,
            forall|k: int| 0 <= k < i ==> !((#[trigger] tasks@[k]).status is Pending),
        decreases n - i,
    {
        if tasks[i].status == TaskStatus::Pending {
            proof {
                lemma_first_pending_index_is(tasks@, i as int);
            }
            return Some(i);
        }
        i = i + 1;
    }
    proof {
        lemma_first_pending_index_none(tasks@);
    }
    None
}

/// Find the index of the task with id `id`.
fn find_index_of_id(tasks: &Vec<Task>, id: i32) -> (r: Option<usize>)
    ensures
        match r {
            Some(i) => i < tasks@.len() && index_of_id(tasks@, id) == i as int,
            None => index_of_id(tasks@, id) == -1,
        },
{
    let n = tasks.len();
    let mut i: usize = 0;
    while i < n
        invariant
            n == tasks@.len(),
            i <= n,
            forall|k: int| 0 <= k < i ==> (#[trigger] tasks@[k]).id != id,
        decreases n - i,
    {
        if tasks[i].id == id {
            proof {
                lemma_index_of_id_is(tasks@, id, i as int);
            }
            return Some(i);
        }
        i = i + 1;
    }
    proof {
        lemma_index_of_id_none(tasks@, id);
    }
    None
}

impl TaskStore {
    /// Store contents are well-formed.
    pub open spec fn wf(&self) -> bool {
        tasks_wf(self.tasks@, self.next_id as int)
    }

    /// An empty store; ids start at 1, as the storage engine's auto-increment
    /// does.
    pub fn new() -> (s: TaskStore)
        ensures
            s.wf(),
            s.tasks@ =~= Seq::<Task>::empty(),
            s.next_id == 1,
    {
        TaskStore { tasks: Vec::new(), next_id: 1 }
    }

    /// Every task, in creation order.
    pub fn find_all(&self) -> (r: &Vec<Task>)
        ensures
            r@ == self.tasks@,
    {
        &self.tasks
    }

    /// Insert a new Pending task referencing the given rows. Reference
    /// validation is the caller's duty; the store only records.
    pub fn create(
        &mut self,
        plan_id: i32,
        av_id: i32,
        sampler_id: i32,
        simulator_id: i32,
        now_micros: i64,
    ) -> (t: Task)
        requires
            old(self).wf(),
            old(self).next_id < i32::MAX,
        ensures
            final(self).wf(),
            t == new_task(old(self).next_id, plan_id, av_id, sampler_id, simulator_id, now_micros),
            final(self).tasks@ == old(self).tasks@.push(t),
            final(self).next_id == old(self).next_id + 1,
    {
        let t = Task {
            id: self.next_id,
            plan_id,
            av_id,
            simulator_id,
            sampler_id,
            worker_id: None,
            status: TaskStatus::Pending,
            created_at: now_micros,
            executed_at: None,
            finished_at: None,
        };
        self.tasks.push(t);
        self.next_id = self.next_id + 1;
        t
    }

    /// The claim transaction: atomically select the Pending task with the
    /// lowest id, assign `worker_id`, mark it InProgress and stamp
    /// `executed_at`; hand back the updated record, or nothing when no task
    /// is Pending. (Against the storage engine the original runs this as one
    /// pessimistic transaction; concurrent callers are serialized, so each
    /// sees this step.)
    pub fn claim_one_unassigned(&mut self, worker_id: i32, now_micros: i64) -> (r: Option<Task>)
        requires
            old(self).wf(),
        ensures
            final(self).wf(),
            final(self).next_id == old(self).next_id,
            final(self).tasks@ == claim_step(old(self).tasks@, worker_id, now_micros).0,
            r == claim_step(old(self).tasks@, worker_id, now_micros).1,
    {
        match find_first_pending(&self.tasks) {
            None => None,
            Some(i) => {
                let prev = self.tasks[i];
                let t = Task {
                    worker_id: Some(worker_id),
                    status: TaskStatus::InProgress,
                    executed_at: Some(now_micros),
                    ..prev
                };
                proof {
                    lemma_first_pending_index_props(old(self).tasks@);
                    assert(task_wf(old(self).tasks@[i as int]));
                    assert(task_wf(t));
                    lemma_wf_update_same_id(
                        old(self).tasks@,
                        i as int,
                        t,
                        old(self).next_id as int,
                    );
                }
                self.tasks.set(i, t);
                Some(t)
            },
        }
    }

    /// The lifecycle transition shared by complete and fail: move the task
    /// with id `task_id` from InProgress to Completed (`success`) or Failed,
    /// stamping `finished_at`; reject an unknown id with NotFound and any
    /// non-InProgress state (Pending or terminal) with InvalidState.
    pub fn finish(&mut self, task_id: i32, success: bool, now_micros: i64) -> (r: Result<
        Task,
        TaskServiceError,
    >)
        requires
            old(self).wf(),
        ensures
            final(self).wf(),
            final(self).next_id == old(self).next_id,
            final(self).tasks@ == finish_step(old(self).tasks@, task_id, success, now_micros).0,
            r == finish_step(old(self).tasks@, task_id, success, now_micros).1,
    {
        match find_index_of_id(&self.tasks, task_id) {
            None => Err(TaskServiceError::NotFound(EntityKind::Task)),
            Some(i) => {
                let prev = self.tasks[i];
                if !(prev.status == TaskStatus::InProgress) {
                    Err(TaskServiceError::InvalidState(prev.status))
                } else {
                    let t = Task {
                        status: if success {
                            TaskStatus::Completed
                        } else {
                            TaskStatus::Failed
                        },
                        finished_at: Some(now_micros),
                        ..prev
                    };
                    proof {
                        assert(task_wf(old(self).tasks@[i as int]));
                        assert(task_wf(t));
                        lemma_wf_update_same_id(
                            old(self).tasks@,
                            i as int,
                            t,
                            old(self).next_id as int,
                        );
                    }
                    self.tasks.set(i, t);
                    Ok(t)
                }
            },
        }
    }
}

} // verus!
