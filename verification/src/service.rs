use vstd::prelude::*;

use crate::catalog::Catalog;
use crate::clock::now_micros;
use crate::dto::{claim_response_spec, ClaimTaskResponse};
use crate::error::{EntityKind, TaskServiceError};
use crate::records::{Av, MapRecord, Plan, Sampler, Scenario, Simulator, Task};
use crate::store::{claim_step, finish_step, new_task, TaskStore};

verus! {

/// The execution bundle of a claimed task: the task itself and every
/// configuration record it references, directly or through its plan.
#[derive(Debug)]
pub struct ResolvedTask {
    pub task: Task,
    pub plan: Plan,
    pub map: MapRecord,
    pub scenario: Scenario,
    pub av: Av,
    pub simulator: Simulator,
    pub sampler: Sampler,
}

/// The first reference missing at creation, checked in the fixed order plan,
/// AV, sampler, simulator; None when all four exist.
pub open spec fn first_missing_reference(
    c: &Catalog,
    plan_id: i32,
    av_id: i32,
    sampler_id: i32,
    simulator_id: i32,
) -> Option<EntityKind> {
    if !c.has_plan(plan_id) {
        Some(EntityKind::Plan)
    } else if !c.has_av(av_id) {
        Some(EntityKind::Av)
    } else if !c.has_sampler(sampler_id) {
        Some(EntityKind::Sampler)
    } else if !c.has_simulator(simulator_id) {
        Some(EntityKind::Simulator)
    } else {
        None
    }
}

/// The first reference of task `t` the catalog cannot resolve, in the order
/// the resolver fetches them; None when the whole bundle resolves.
pub open spec fn first_unresolvable(c: &Catalog, t: Task) -> Option<EntityKind> {
    if !c.has_plan(t.plan_id) {
        Some(EntityKind::Plan)
    } else if !c.has_av(t.av_id) {
        Some(EntityKind::Av)
    } else if !c.has_simulator(t.simulator_id) {
        Some(EntityKind::Simulator)
    } else if !c.has_sampler(t.sampler_id) {
        Some(EntityKind::Sampler)
    } else if !c.has_map(c.plan_of(t.plan_id).map_id) {
        Some(EntityKind::MapRecord)
    } else if !c.has_scenario(c.plan_of(t.plan_id).scenario_id) {
        Some(EntityKind::Scenario)
    } else {
        None
    }
}

/// The complete execution bundle of task `t`, read from the catalog;
/// meaningful when `first_unresolvable(c, t)` is None.
pub open spec fn resolved_bundle(c: &Catalog, t: Task) -> ResolvedTask {
    ResolvedTask {
        task: t,
        plan: c.plan_of(t.plan_id),
        map: c.map_of(c.plan_of(t.plan_id).map_id),
        scenario: c.scenario_of(c.plan_of(t.plan_id).scenario_id),
        av: c.av_of(t.av_id),
        simulator: c.simulator_of(t.simulator_id),
        sampler: c.sampler_of(t.sampler_id),
    }
}

/// Everything creation guarantees, relating the store before and after to
/// the result, given the clock reading `now`: the first missing reference is
/// reported as a Validation error and nothing is inserted, and with all four
/// references present exactly one Pending row is appended.
pub open spec fn create_task_outcome(
    pre: TaskStore,
    post: TaskStore,
    c: &Catalog,
    r: Result<Task, TaskServiceError>,
    plan_id: i32,
    av_id: i32,
    sampler_id: i32,
    simulator_id: i32,
    now: i64,
) -> bool {
    match first_missing_reference(c, plan_id, av_id, sampler_id, simulator_id) {
        Some(k) => {
            &&& r matches Err(e) && e == TaskServiceError::Validation(k)
            &&& post.tasks@ == pre.tasks@
            &&& post.next_id == pre.next_id
        },
        None => {
            let t = new_task(pre.next_id, plan_id, av_id, sampler_id, simulator_id, now);
            &&& r matches Ok(created) && created == t
            &&& post.tasks@ == pre.tasks@.push(t)
            &&& post.next_id == pre.next_id + 1
        },
    }
}

/// Everything a claim-and-resolve guarantees, given the clock reading `now`:
/// the store evolves exactly by the claim step (even when resolution then
/// fails, since the claim has already committed), no Pending task yields
/// Ok(None), and a claimed task either resolves into its full bundle or
/// reports the first missing reference as a DataInconsistency.
pub open spec fn claim_outcome(
    pre: TaskStore,
    post: TaskStore,
    c: &Catalog,
    r: Result<Option<ResolvedTask>, TaskServiceError>,
    worker_id: i32,
    now: i64,
) -> bool {
    &&& post.next_id == pre.next_id
    &&& post.tasks@ == claim_step(pre.tasks@, worker_id, now).0
    &&& match claim_step(pre.tasks@, worker_id, now).1 {
        None => r matches Ok(opt) && opt is None,
        Some(t) => match first_unresolvable(c, t) {
            Some(k) => r matches Err(e) && e == TaskServiceError::DataInconsistency(k),
            None => r matches Ok(opt) && opt matches Some(b) && b == resolved_bundle(c, t),
        },
    }
}

/// Everything the claim endpoint guarantees, given the clock reading `now`:
/// an unknown worker is rejected with NotFound and the store is untouched;
/// otherwise as `claim_outcome`, with the bundle mapped onto the response.
pub open spec fn claim_for_worker_outcome(
    pre: TaskStore,
    post: TaskStore,
    c: &Catalog,
    r: Result<Option<ClaimTaskResponse>, TaskServiceError>,
    worker_id: i32,
    now: i64,
) -> bool {
    if !c.has_worker(worker_id) {
        &&& r matches Err(e) && e == TaskServiceError::NotFound(EntityKind::Worker)
        &&& post.tasks@ == pre.tasks@
        &&& post.next_id == pre.next_id
    } else {
        &&& post.next_id == pre.next_id
        &&& post.tasks@ == claim_step(pre.tasks@, worker_id, now).0
        &&& match claim_step(pre.tasks@, worker_id, now).1 {
            None => r matches Ok(opt) && opt is None,
            Some(t) => match first_unresolvable(c, t) {
                Some(k) => r matches Err(e) && e == TaskServiceError::DataInconsistency(k),
                None => r matches Ok(opt) && opt matches Some(resp) && resp
                    == claim_response_spec(resolved_bundle(c, t)),
            },
        }
    }
}

/// Everything a lifecycle transition guarantees, given the clock reading
/// `now`: the store and the result are exactly those of the finish step.
pub open spec fn finish_outcome(
    pre: TaskStore,
    post: TaskStore,
    r: Result<Task, TaskServiceError>,
    task_id: i32,
    success: bool,
    now: i64,
) -> bool {
    &&& post.next_id == pre.next_id
    &&& post.tasks@ == finish_step(pre.tasks@, task_id, success, now).0
    &&& r == finish_step(pre.tasks@, task_id, success, now).1
}

/// Validate the four creation references in order (plan, AV, sampler,
/// simulator) against the catalog, and insert a Pending task stamped with
/// the explicit creation time; the first missing reference is reported as a
/// Validation error naming it, and then nothing is inserted.
pub fn create_task_at(
    store: &mut TaskStore,
    catalog: &Catalog,
    plan_id: i32,
    av_id: i32,
    sampler_id: i32,
    simulator_id: i32,
    now_micros_arg: i64,
) -> (r: Result<Task, TaskServiceError>)
    requires
        old(store).wf(),
        old(store).next_id < i32::MAX,
    ensures
        final(store).wf(),
        create_task_outcome(
            *old(store),
            *final(store),
            catalog,
            r,
            plan_id,
            av_id,
            sampler_id,
            simulator_id,
            now_micros_arg,
        ),
{
    if !catalog.plan_exists(plan_id) {
        return Err(TaskServiceError::Validation(EntityKind::Plan));
    }
    if !catalog.av_exists(av_id) {
        return Err(TaskServiceError::Validation(EntityKind::Av));
    }
    if !catalog.sampler_exists(sampler_id) {
        return Err(TaskServiceError::Validation(EntityKind::Sampler));
    }
    if !catalog.simulator_exists(simulator_id) {
        return Err(TaskServiceError::Validation(EntityKind::Simulator));
    }
    Ok(store.create(plan_id, av_id, sampler_id, simulator_id, now_micros_arg))
}

/// As `create_task_at`, with the creation time read from the system clock.
pub fn create_task(
    store: &mut TaskStore,
    catalog: &Catalog,
    plan_id: i32,
    av_id: i32,
    sampler_id: i32,
    simulator_id: i32,
) -> (r: Result<Task, TaskServiceError>)
    requires
        old(store).wf(),
        old(store).next_id < i32::MAX,
    ensures
        final(store).wf(),
        exists|now: i64|
            create_task_outcome(
                *old(store),
                *final(store),
                catalog,
                r,
                plan_id,
                av_id,
                sampler_id,
                simulator_id,
                now,
            ),
{
    let now = now_micros();
    let r = create_task_at(store, catalog, plan_id, av_id, sampler_id, simulator_id, now);
    proof {
        assert(create_task_outcome(
            *old(store),
            *store,
            catalog,
            r,
            plan_id,
            av_id,
            sampler_id,
            simulator_id,
            now,
        ));
    }
    r
}

/// Expand a task's foreign keys into its complete execution bundle: the
/// plan, and through it the map and the scenario, plus the AV, simulator and
/// sampler the task references directly. Read-only; the first reference that
/// fails to resolve is reported as a DataInconsistency naming it.
pub fn resolve_task(catalog: &Catalog, task: &Task) -> (r: Result<ResolvedTask, TaskServiceError>)
    requires
        catalog.wf(),
    ensures
        match first_unresolvable(catalog, *task) {
            Some(k) => r matches Err(e) && e == TaskServiceError::DataInconsistency(k),
            None => r matches Ok(b) && b == resolved_bundle(catalog, *task),
        },
{
    let plan = match catalog.get_plan(task.plan_id) {
        Some(p) => p,
        None => {
            return Err(TaskServiceError::DataInconsistency(EntityKind::Plan));
        },
    };
    let av = match catalog.get_av(task.av_id) {
        Some(a) => a,
        None => {
            return Err(TaskServiceError::DataInconsistency(EntityKind::Av));
        },
    };
    let simulator = match catalog.get_simulator(task.simulator_id) {
        Some(sm) => sm,
        None => {
            return Err(TaskServiceError::DataInconsistency(EntityKind::Simulator));
        },
    };
    let sampler = match catalog.get_sampler(task.sampler_id) {
        Some(sp) => sp,
        None => {
            return Err(TaskServiceError::DataInconsistency(EntityKind::Sampler));
        },
    };
    let map = match catalog.get_map(plan.map_id) {
        Some(m) => m,
        None => {
            return Err(TaskServiceError::DataInconsistency(EntityKind::MapRecord));
        },
    };
    let scenario = match catalog.get_scenario(plan.scenario_id) {
        Some(sc) => sc,
        None => {
            return Err(TaskServiceError::DataInconsistency(EntityKind::Scenario));
        },
    };
    Ok(ResolvedTask { task: *task, plan, map, scenario, av, simulator, sampler })
}

/// Claim the oldest Pending task for the worker at an explicit time and
/// resolve it into its execution bundle; no Pending task is Ok(None), not an
/// error. The claim commits even when resolution then fails.
pub fn claim_and_resolve_task_at(
    store: &mut TaskStore,
    catalog: &Catalog,
    worker_id: i32,
    now_micros_arg: i64,
) -> (r: Result<Option<ResolvedTask>, TaskServiceError>)
    requires
        old(store).wf(),
        catalog.wf(),
    ensures
        final(store).wf(),
        claim_outcome(*old(store), *final(store), catalog, r, worker_id, now_micros_arg),
{
    let claimed = store.claim_one_unassigned(worker_id, now_micros_arg);
    match claimed {
        None => Ok(None),
        Some(t) => match resolve_task(catalog, &t) {
            Ok(b) => Ok(Some(b)),
            Err(e) => Err(e),
        },
    }
}

/// As `claim_and_resolve_task_at`, with the claim time read from the system
/// clock.
pub fn claim_and_resolve_task(store: &mut TaskStore, catalog: &Catalog, worker_id: i32) -> (r:
    Result<Option<ResolvedTask>, TaskServiceError>)
    requires
        old(store).wf(),
        catalog.wf(),
    ensures
        final(store).wf(),
        exists|now: i64| claim_outcome(*old(store), *final(store), catalog, r, worker_id, now),
{
    let now = now_micros();
    let r = claim_and_resolve_task_at(store, catalog, worker_id, now);
    proof {
        assert(claim_outcome(*old(store), *store, catalog, r, worker_id, now));
    }
    r
}

/// The claim endpoint at an explicit time: reject an unknown worker with
/// NotFound, otherwise claim and resolve, mapping the bundle onto the
/// response handed to the worker.
pub fn claim_task_for_worker_at(
    store: &mut TaskStore,
    catalog: &Catalog,
    worker_id: i32,
    now_micros_arg: i64,
) -> (r: Result<Option<ClaimTaskResponse>, TaskServiceError>)
    requires
        old(store).wf(),
        catalog.wf(),
    ensures
        final(store).wf(),
        claim_for_worker_outcome(
            *old(store),
            *final(store),
            catalog,
            r,
            worker_id,
            now_micros_arg,
        ),
{
    if !catalog.worker_exists(worker_id) {
        return Err(TaskServiceError::NotFound(EntityKind::Worker));
    }
    match claim_and_resolve_task_at(store, catalog, worker_id, now_micros_arg) {
        Err(e) => Err(e),
        Ok(None) => Ok(None),
        Ok(Some(b)) => Ok(Some(ClaimTaskResponse::from(b))),
    }
}

/// As `claim_task_for_worker_at`, with the claim time read from the system
/// clock.
pub fn claim_task_for_worker(store: &mut TaskStore, catalog: &Catalog, worker_id: i32) -> (r:
    Result<Option<ClaimTaskResponse>, TaskServiceError>)
    requires
        old(store).wf(),
        catalog.wf(),
    ensures
        final(store).wf(),
        exists|now: i64|
            claim_for_worker_outcome(*old(store), *final(store), catalog, r, worker_id, now),
{
    let now = now_micros();
    let r = claim_task_for_worker_at(store, catalog, worker_id, now);
    proof {
        assert(claim_for_worker_outcome(*old(store), *store, catalog, r, worker_id, now));
    }
    r
}

/// Mark an InProgress task Completed at an explicit time; an unknown id is
/// NotFound, and a Pending or already-terminal task is InvalidState, so a
/// terminal task's `finished_at` is never overwritten.
pub fn complete_task_at(store: &mut TaskStore, task_id: i32, now_micros_arg: i64) -> (r: Result<
    Task,
    TaskServiceError,
>)
    requires
        old(store).wf(),
    ensures
        final(store).wf(),
        finish_outcome(*old(store), *final(store), r, task_id, true, now_micros_arg),
{
    store.finish(task_id, true, now_micros_arg)
}

/// As `complete_task_at`, with the finish time read from the system clock.
pub fn complete_task(store: &mut TaskStore, task_id: i32) -> (r: Result<Task, TaskServiceError>)
    requires
        old(store).wf(),
    ensures
        final(store).wf(),
        exists|now: i64| finish_outcome(*old(store), *final(store), r, task_id, true, now),
{
    let now = now_micros();
    let r = complete_task_at(store, task_id, now);
    proof {
        assert(finish_outcome(*old(store), *store, r, task_id, true, now));
    }
    r
}

/// Mark an InProgress task Failed at an explicit time, with the same
/// preconditions as completion. The failure reason is accepted for the
/// caller's logging and audit trail; the store has no column for it, so the
/// record deliberately does not change with it.
#[allow(unused_variables)]
pub fn fail_task_at(store: &mut TaskStore, task_id: i32, reason: &str, now_micros_arg: i64) -> (r:
    Result<Task, TaskServiceError>)
    requires
        old(store).wf(),
    ensures
        final(store).wf(),
        finish_outcome(*old(store), *final(store), r, task_id, false, now_micros_arg),
{
    store.finish(task_id, false, now_micros_arg)
}

/// As `fail_task_at`, with the finish time read from the system clock.
pub fn fail_task(store: &mut TaskStore, task_id: i32, reason: &str) -> (r: Result<
    Task,
    TaskServiceError,
>)
    requires
        old(store).wf(),
    ensures
        final(store).wf(),
        exists|now: i64| finish_outcome(*old(store), *final(store), r, task_id, false, now),
{
    let now = now_micros();
    let r = fail_task_at(store, task_id, reason, now);
    proof {
        assert(finish_outcome(*old(store), *store, r, task_id, false, now));
    }
    r
}

} // verus!
