use vstd::math::min;
use vstd::prelude::*;

use crate::catalog::Catalog;
use crate::error::TaskServiceError;
use crate::records::Task;
use crate::service::first_missing_reference;
use crate::service::resolved_bundle;
use crate::status::status_can_advance;
use crate::store::claim_step;
use crate::store::claimed_task;
use crate::store::finish_step;
use crate::store::first_pending_index;
use crate::store::index_of_id;
use crate::store::lemma_first_pending_index_is;
use crate::store::lemma_first_pending_index_none;
use crate::store::lemma_first_pending_index_props;
use crate::store::lemma_index_of_id_props;
use crate::store::new_task;
use crate::store::pending_count;
use crate::store::tasks_wf;
use crate::store::TaskStore;

verus! {

/// Task ids are pairwise distinct.
pub open spec fn task_ids_unique(s: Seq<Task>) -> bool {
    forall|i: int, j: int| #![trigger s[i], s[j]] 0 <= i < j < s.len() ==> s[i].id != s[j].id
}

/// A well-formed store has pairwise distinct task ids.
pub proof fn lemma_wf_ids_unique(s: Seq<Task>, next: int)
    requires
        tasks_wf(s, next),
    ensures
        task_ids_unique(s),
{
    assert forall|i: int, j: int|
        #![trigger s[i], s[j]]
        0 <= i < j < s.len() implies s[i].id != s[j].id by {
        assert(s[i].id < s[j].id);
    }
}

/// Replacing a record with one of the same id keeps ids pairwise distinct.
proof fn lemma_ids_unique_update(s: Seq<Task>, i: int, t: Task)
    requires
        task_ids_unique(s),
        0 <= i < s.len(),
        t.id == s[i].id,
    ensures
        task_ids_unique(s.update(i, t)),
{
    let post = s.update(i, t);
    assert forall|a: int, b: int|
        #![trigger post[a], post[b]]
        0 <= a < b < post.len() implies post[a].id != post[b].id by {
        assert(s[a].id != s[b].id);
    }
}

/// A store's pending count is zero exactly when no task is Pending.
pub proof fn lemma_pending_count_zero(s: Seq<Task>)
    ensures
        (pending_count(s) == 0) <==> (forall|k: int|
            0 <= k < s.len() ==> !((#[trigger] s[k]).status is Pending)),
    decreases s.len(),
{
    if s.len() > 0 {
        let tail = s.subrange(1, s.len() as int);
        lemma_pending_count_zero(tail);
        if pending_count(s) == 0 {
            assert(pending_count(tail) == 0);
            assert forall|k: int| 0 <= k < s.len() implies !((#[trigger] s[k]).status
                is Pending) by {
                if k > 0 {
                    assert(tail[k - 1] == s[k]);
                    assert(!(tail[k - 1].status is Pending));
                }
            }
        }
        if forall|k: int| 0 <= k < s.len() ==> !((#[trigger] s[k]).status is Pending) {
            assert forall|k: int| 0 <= k < tail.len() implies !((#[trigger] tail[k]).status
                is Pending) by {
                assert(tail[k] == s[k + 1]);
            }
            assert(pending_count(tail) == 0);
            assert(pending_count(s) == 0);
        }
    }
}

/// Replacing a Pending task with a non-Pending one lowers the pending count
/// by exactly one.
proof fn lemma_pending_count_update(s: Seq<Task>, i: int, t: Task)
    requires
        0 <= i < s.len(),
        s[i].status is Pending,
        !(t.status is Pending),
    ensures
        pending_count(s.update(i, t)) + 1 == pending_count(s),
    decreases s.len(),
{
    let post = s.update(i, t);
    let tail = s.subrange(1, s.len() as int);
    let post_tail = post.subrange(1, post.len() as int);
    if i == 0 {
        assert(post[0] == t);
        assert(post_tail =~= tail);
    } else {
        assert(post[0] == s[0]);
        assert(tail[i - 1] == s[i]);
        assert(post_tail =~= tail.update(i - 1, t));
        lemma_pending_count_update(tail, i - 1, t);
    }
}

/// What one claim step does to the pending count: with nothing Pending there
/// is no claim and no change; otherwise exactly one Pending task leaves the
/// Pending state.
pub proof fn lemma_claim_step_count(s: Seq<Task>, worker_id: i32, now: i64)
    ensures
        pending_count(s) == 0 ==> claim_step(s, worker_id, now).1 is None && claim_step(
            s,
            worker_id,
            now,
        ).0 == s,
        pending_count(s) != 0 ==> claim_step(s, worker_id, now).1 is Some && pending_count(
            claim_step(s, worker_id, now).0,
        ) + 1 == pending_count(s),
{
    lemma_pending_count_zero(s);
    lemma_first_pending_index_props(s);
    let i = first_pending_index(s);
    if pending_count(s) == 0 {
        lemma_first_pending_index_none(s);
    } else {
        assert(i != -1);
        lemma_pending_count_update(s, i, claimed_task(s[i], worker_id, now));
    }
}

/// The stores and the claimed tasks after a sequence of claim calls, one per
/// claimant, in the order the storage engine serializes them.
pub open spec fn claim_all(s: Seq<Task>, claimants: Seq<i32>, now: i64) -> (Seq<Task>, Seq<Task>)
    decreases claimants.len(),
{
    if claimants.len() == 0 {
        (s, Seq::<Task>::empty())
    } else {
        let step = claim_step(s, claimants[0], now);
        let rest = claim_all(step.0, claimants.subrange(1, claimants.len() as int), now);
        match step.1 {
            Some(t) => (rest.0, seq![t] + rest.1),
            None => (rest.0, rest.1),
        }
    }
}

/// Law: claims are mutually exclusive. When N claimants race against a store
/// holding M Pending tasks (the storage engine serializes them, so they
/// execute as N consecutive claim steps), exactly min(N, M) claims succeed,
/// no task is handed out twice, every claimed task was Pending in the
/// original store, and every one is handed out marked InProgress.
pub proof fn lemma_claims_exclusive(s: Seq<Task>, claimants: Seq<i32>, now: i64)
    requires
        task_ids_unique(s),
    ensures
        ({
            let r = claim_all(s, claimants, now);
            &&& r.1.len() == min(claimants.len() as int, pending_count(s) as int)
            &&& forall|a: int, b: int|
                #![trigger r.1[a], r.1[b]]
                0 <= a < b < r.1.len() ==> r.1[a].id != r.1[b].id
            &&& forall|a: int|
                0 <= a < r.1.len() ==> (#[trigger] r.1[a]).status is InProgress
            &&& forall|a: int|
                0 <= a < r.1.len() ==> exists|k: int|
                    0 <= k < s.len() && (#[trigger] s[k]).id == (#[trigger] r.1[a]).id
                        && s[k].status is Pending
        }),
    decreases claimants.len(),
{
    if claimants.len() == 0 {
    } else {
        let w = claimants[0];
        let step = claim_step(s, w, now);
        let s1 = step.0;
        let rest_claimants = claimants.subrange(1, claimants.len() as int);
        let rest = claim_all(s1, rest_claimants, now);
        lemma_claim_step_count(s, w, now);
        lemma_first_pending_index_props(s);
        if pending_count(s) == 0 {
            lemma_claims_exclusive(s1, rest_claimants, now);
        } else {
            let i = first_pending_index(s);
            let t = claimed_task(s[i], w, now);
            assert(s1 == s.update(i, t));
            lemma_ids_unique_update(s, i, t);
            lemma_claims_exclusive(s1, rest_claimants, now);
            let claimed = claim_all(s, claimants, now).1;
            assert(claimed == seq![t] + rest.1);
            assert(claimed[0] == t);
            assert forall|a: int| 1 <= a < claimed.len() implies claimed[a] == rest.1[a - 1] by {}
            // No later claim hands out t's id: a Pending slot of s1 with t's
            // id would clash with id uniqueness.
            assert forall|a: int| 1 <= a < claimed.len() implies claimed[a].id != t.id by {
                let k = choose|k: int|
                    0 <= k < s1.len() && (#[trigger] s1[k]).id == rest.1[a - 1].id && s1[k].status
                        is Pending;
                if k == i {
                    assert(!(s1[i].status is Pending));
                } else {
                    assert(s1[k] == s[k]);
                    if s1[k].id == t.id {
                        if k < i {
                            assert(s[k].id != s[i].id);
                        } else {
                            assert(s[i].id != s[k].id);
                        }
                    }
                }
            }
            // Every task the later claims hand out was Pending in s as well.
            assert forall|a: int| 0 <= a < claimed.len() implies exists|k: int|
                0 <= k < s.len() && (#[trigger] s[k]).id == (#[trigger] claimed[a]).id && s[k].status
                    is Pending by {
                if a == 0 {
                    assert(s[i].id == t.id && s[i].status is Pending);
                } else {
                    let k = choose|k: int|
                        0 <= k < s1.len() && (#[trigger] s1[k]).id == rest.1[a - 1].id
                            && s1[k].status is Pending;
                    assert(k != i);
                    assert(s1[k] == s[k]);
                    assert(s[k].id == claimed[a].id && s[k].status is Pending);
                }
            }
        }
    }
}

/// Law: the claim engine selects FIFO by creation order: in a well-formed
/// store the task it hands out holds the lowest id among the Pending tasks.
pub proof fn lemma_claim_picks_lowest_id(s: Seq<Task>, next: int, worker_id: i32, now: i64)
    requires
        tasks_wf(s, next),
    ensures
        claim_step(s, worker_id, now).1 matches Some(t) ==> forall|k: int|
            0 <= k < s.len() && (#[trigger] s[k]).status is Pending ==> t.id <= s[k].id,
{
    lemma_first_pending_index_props(s);
    let i = first_pending_index(s);
    if i != -1 {
        let t = claimed_task(s[i], worker_id, now);
        assert forall|k: int|
            0 <= k < s.len() && (#[trigger] s[k]).status is Pending implies t.id <= s[k].id by {
            if k < i {
                assert(!(s[k].status is Pending));
            } else if k > i {
                assert(s[i].id < s[k].id);
            }
        }
    }
}

/// Law: a claim moves statuses only along the lifecycle edge
/// Pending -> InProgress, and touches no other task.
pub proof fn lemma_claim_respects_lifecycle(s: Seq<Task>, worker_id: i32, now: i64)
    ensures
        claim_step(s, worker_id, now).0.len() == s.len(),
        forall|i: int|
            0 <= i < s.len() ==> status_can_advance(
                s[i].status,
                (#[trigger] claim_step(s, worker_id, now).0[i]).status,
            ),
{
    lemma_first_pending_index_props(s);
    let idx = first_pending_index(s);
    let post = claim_step(s, worker_id, now).0;
    assert forall|i: int| 0 <= i < s.len() implies status_can_advance(
        s[i].status,
        (#[trigger] post[i]).status,
    ) by {
        if idx != -1 && i == idx {
            assert(s[i].status is Pending);
            assert(post[i].status is InProgress);
        } else if idx != -1 {
            assert(post[i] == s[i]);
        }
    }
}

/// Law: completing or failing moves statuses only along the lifecycle edges
/// InProgress -> Completed and InProgress -> Failed, touches no other task,
/// and refuses a task that is not InProgress: in particular, completing a
/// Pending task fails with InvalidState and changes nothing, and a terminal
/// task is never moved again.
pub proof fn lemma_finish_respects_lifecycle(s: Seq<Task>, task_id: i32, success: bool, now: i64)
    ensures
        finish_step(s, task_id, success, now).0.len() == s.len(),
        forall|i: int|
            0 <= i < s.len() ==> status_can_advance(
                s[i].status,
                (#[trigger] finish_step(s, task_id, success, now).0[i]).status,
            ),
        ({
            let idx = index_of_id(s, task_id);
            let r = finish_step(s, task_id, success, now);
            (0 <= idx && !(s[idx].status is InProgress)) ==> r.0 == s && (r.1 matches Err(e) && e
                == TaskServiceError::InvalidState(s[idx].status))
        }),
{
    lemma_index_of_id_props(s, task_id);
    let idx = index_of_id(s, task_id);
    let post = finish_step(s, task_id, success, now).0;
    assert forall|i: int| 0 <= i < s.len() implies status_can_advance(
        s[i].status,
        (#[trigger] post[i]).status,
    ) by {
        if idx != -1 && s[idx].status is InProgress {
            if i == idx {
                assert(post[i].status is Completed || post[i].status is Failed);
            } else {
                assert(post[i] == s[i]);
            }
        }
    }
}

/// Law (round trip): creating a task against a store with no Pending task
/// and then claiming hands that very task to the worker, and its execution
/// bundle carries exactly the plan, AV, sampler and simulator ids given at
/// creation.
pub proof fn lemma_create_then_claim_round_trip(
    store: TaskStore,
    c: &Catalog,
    plan_id: i32,
    av_id: i32,
    sampler_id: i32,
    simulator_id: i32,
    t_create: i64,
    worker_id: i32,
    t_claim: i64,
)
    requires
        store.wf(),
        pending_count(store.tasks@) == 0,
        first_missing_reference(c, plan_id, av_id, sampler_id, simulator_id) is None,
    ensures
        ({
            let t = new_task(store.next_id, plan_id, av_id, sampler_id, simulator_id, t_create);
            let created = store.tasks@.push(t);
            let claimed = claimed_task(t, worker_id, t_claim);
            let bundle = resolved_bundle(c, claimed);
            &&& claim_step(created, worker_id, t_claim).1 == Some(claimed)
            &&& claimed.plan_id == plan_id
            &&& claimed.av_id == av_id
            &&& claimed.sampler_id == sampler_id
            &&& claimed.simulator_id == simulator_id
            &&& bundle.task == claimed
            &&& bundle.plan.id == plan_id
            &&& bundle.av.id == av_id
            &&& bundle.sampler.id == sampler_id
            &&& bundle.simulator.id == simulator_id
        }),
{
    let t = new_task(store.next_id, plan_id, av_id, sampler_id, simulator_id, t_create);
    let created = store.tasks@.push(t);
    lemma_pending_count_zero(store.tasks@);
    assert forall|k: int| 0 <= k < created.len() - 1 implies !((#[trigger] created[k]).status
        is Pending) by {
        assert(created[k] == store.tasks@[k]);
    }
    assert(created[created.len() - 1] == t);
    lemma_first_pending_index_is(created, created.len() - 1);
    assert(c.has_plan(plan_id) && c.has_av(av_id) && c.has_sampler(sampler_id) && c.has_simulator(
        simulator_id,
    ));
    let kp = choose|k: int| 0 <= k < c.plans@.len() && (#[trigger] c.plans@[k]).id == plan_id;
    assert(c.plan_of(plan_id) == c.plans@[kp] && c.plans@[kp].id == plan_id);
    let ka = choose|k: int| 0 <= k < c.avs@.len() && (#[trigger] c.avs@[k]).id == av_id;
    assert(c.av_of(av_id) == c.avs@[ka] && c.avs@[ka].id == av_id);
    let ks = choose|k: int| 0 <= k < c.samplers@.len() && (#[trigger] c.samplers@[k]).id
        == sampler_id;
    assert(c.sampler_of(sampler_id) == c.samplers@[ks] && c.samplers@[ks].id == sampler_id);
    let km = choose|k: int| 0 <= k < c.simulators@.len() && (#[trigger] c.simulators@[k]).id
        == simulator_id;
    assert(c.simulator_of(simulator_id) == c.simulators@[km] && c.simulators@[km].id
        == simulator_id);
}

} // verus!
