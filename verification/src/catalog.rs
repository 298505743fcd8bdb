use vstd::prelude::*;

use crate::error::{EntityKind, TaskServiceError};
use crate::records::{Av, MapRecord, Plan, Sampler, Scenario, Simulator, Worker};

verus! {

/// The reference-data tables the task engine validates against and resolves
/// from: plans, AVs, maps, scenarios, simulators, samplers and workers, each
/// a single-row CRUD table with unique ids handed out by a counter.
#[derive(Debug)]
pub struct Catalog {
    pub plans: Vec<Plan>,
    pub avs: Vec<Av>,
    pub maps: Vec<MapRecord>,
    pub scenarios: Vec<Scenario>,
    pub simulators: Vec<Simulator>,
    pub samplers: Vec<Sampler>,
    pub workers: Vec<Worker>,
    pub next_plan_id: i32,
    pub next_av_id: i32,
    pub next_map_id: i32,
    pub next_scenario_id: i32,
    pub next_simulator_id: i32,
    pub next_sampler_id: i32,
    pub next_worker_id: i32,
}

/// All tables other than the one named by `k` are untouched.
pub open spec fn tables_unchanged_except(pre: &Catalog, post: &Catalog, k: EntityKind) -> bool {
    &&& k != EntityKind::Plan ==> post.plans@ == pre.plans@ && post.next_plan_id
        == pre.next_plan_id
    &&& k != EntityKind::Av ==> post.avs@ == pre.avs@ && post.next_av_id == pre.next_av_id
    &&& k != EntityKind::MapRecord ==> post.maps@ == pre.maps@ && post.next_map_id
        == pre.next_map_id
    &&& k != EntityKind::Scenario ==> post.scenarios@ == pre.scenarios@ && post.next_scenario_id
        == pre.next_scenario_id
    &&& k != EntityKind::Simulator ==> post.simulators@ == pre.simulators@
        && post.next_simulator_id == pre.next_simulator_id
    &&& k != EntityKind::Sampler ==> post.samplers@ == pre.samplers@ && post.next_sampler_id
        == pre.next_sampler_id
    &&& k != EntityKind::Worker ==> post.workers@ == pre.workers@ && post.next_worker_id
        == pre.next_worker_id
}

impl Catalog {
    /// Well-formedness: within each table ids are unique and below the
    /// table's counter.
    pub open spec fn wf(&self) -> bool {
        &&& forall|i: int, j: int|
            #![trigger self.plans@[i], self.plans@[j]]
            0 <= i < j < self.plans@.len() ==> self.plans@[i].id != self.plans@[j].id
        &&& forall|i: int|
            0 <= i < self.plans@.len() ==> (#[trigger] self.plans@[i]).id < self.next_plan_id
        &&& forall|i: int, j: int|
            #![trigger self.avs@[i], self.avs@[j]]
            0 <= i < j < self.avs@.len() ==> self.avs@[i].id != self.avs@[j].id
        &&& forall|i: int|
            0 <= i < self.avs@.len() ==> (#[trigger] self.avs@[i]).id < self.next_av_id
        &&& forall|i: int, j: int|
            #![trigger self.maps@[i], self.maps@[j]]
            0 <= i < j < self.maps@.len() ==> self.maps@[i].id != self.maps@[j].id
        &&& forall|i: int|
            0 <= i < self.maps@.len() ==> (#[trigger] self.maps@[i]).id < self.next_map_id
        &&& forall|i: int, j: int|
            #![trigger self.scenarios@[i], self.scenarios@[j]]
            0 <= i < j < self.scenarios@.len() ==> self.scenarios@[i].id != self.scenarios@[j].id
        &&& forall|i: int|
            0 <= i < self.scenarios@.len() ==> (#[trigger] self.scenarios@[i]).id
                < self.next_scenario_id
        &&& forall|i: int, j: int|
            #![trigger self.simulators@[i], self.simulators@[j]]
            0 <= i < j < self.simulators@.len() ==> self.simulators@[i].id
                != self.simulators@[j].id
        &&& forall|i: int|
            0 <= i < self.simulators@.len() ==> (#[trigger] self.simulators@[i]).id
                < self.next_simulator_id
        &&& forall|i: int, j: int|
            #![trigger self.samplers@[i], self.samplers@[j]]
            0 <= i < j < self.samplers@.len() ==> self.samplers@[i].id != self.samplers@[j].id
        &&& forall|i: int|
            0 <= i < self.samplers@.len() ==> (#[trigger] self.samplers@[i]).id
                < self.next_sampler_id
        &&& forall|i: int, j: int|
            #![trigger self.workers@[i], self.workers@[j]]
            0 <= i < j < self.workers@.len() ==> self.workers@[i].id != self.workers@[j].id
        &&& forall|i: int|
            0 <= i < self.workers@.len() ==> (#[trigger] self.workers@[i]).id
                < self.next_worker_id
    }

    /// A plan with id `id` exists.
    pub open spec fn has_plan(&self, id: i32) -> bool {
        exists|i: int| 0 <= i < self.plans@.len() && (#[trigger] self.plans@[i]).id == id
    }

    /// An AV with id `id` exists.
    pub open spec fn has_av(&self, id: i32) -> bool {
        exists|i: int| 0 <= i < self.avs@.len() && (#[trigger] self.avs@[i]).id == id
    }

    /// A map with id `id` exists.
    pub open spec fn has_map(&self, id: i32) -> bool {
        exists|i: int| 0 <= i < self.maps@.len() && (#[trigger] self.maps@[i]).id == id
    }

    /// A scenario with id `id` exists.
    pub open spec fn has_scenario(&self, id: i32) -> bool {
        exists|i: int| 0 <= i < self.scenarios@.len() && (#[trigger] self.scenarios@[i]).id == id
    }

    /// A simulator with id `id` exists.
    pub open spec fn has_simulator(&self, id: i32) -> bool {
        exists|i: int| 0 <= i < self.simulators@.len() && (#[trigger] self.simulators@[i]).id == id
    }

    /// A sampler with id `id` exists.
    pub open spec fn has_sampler(&self, id: i32) -> bool {
        exists|i: int| 0 <= i < self.samplers@.len() && (#[trigger] self.samplers@[i]).id == id
    }

    /// A worker with id `id` exists.
    pub open spec fn has_worker(&self, id: i32) -> bool {
        exists|i: int| 0 <= i < self.workers@.len() && (#[trigger] self.workers@[i]).id == id
    }

    /// An empty catalog; ids start at 1, as the storage engine's
    /// auto-increment does.
    pub fn new() -> (c: Catalog)
        ensures
            c.wf(),
            c.plans@.len() == 0,
            c.avs@.len() == 0,
            c.maps@.len() == 0,
            c.scenarios@.len() == 0,
            c.simulators@.len() == 0,
            c.samplers@.len() == 0,
            c.workers@.len() == 0,
    {
        Catalog {
            plans: Vec::new(),
            avs: Vec::new(),
            maps: Vec::new(),
            scenarios: Vec::new(),
            simulators: Vec::new(),
            samplers: Vec::new(),
            workers: Vec::new(),
            next_plan_id: 1,
            next_av_id: 1,
            next_map_id: 1,
            next_scenario_id: 1,
            next_simulator_id: 1,
            next_sampler_id: 1,
            next_worker_id: 1,
        }
    }

    /// Does a plan with this id exist?
    pub fn plan_exists(&self, plan_id: i32) -> (r: bool)
        ensures
            r == self.has_plan(plan_id),
    {
        let n = self.plans.len();
        let mut i: usize = 0;
        while i < n
            invariant
                n == self.plans@.len(),
                i <= n,
                forall|k: int| 0 <= k < i ==> (#[trigger] self.plans@[k]).id != plan_id,
            decreases n - i,
        {
            if self.plans[i].id == plan_id {
                return true;
            }
            i = i + 1;
        }
        false
    }

    /// Does an AV with this id exist?
    pub fn av_exists(&self, av_id: i32) -> (r: bool)
        ensures
            r == self.has_av(av_id),
    {
        let n = self.avs.len();
        let mut i: usize = 0;
        while i < n
            invariant
                n == self.avs@.len(),
                i <= n,
                forall|k: int| 0 <= k < i ==> (#[trigger] self.avs@[k]).id != av_id,
            decreases n - i,
        {
            if self.avs[i].id == av_id {
                return true;
            }
            i = i + 1;
        }
        false
    }

    /// Does a map with this id exist?
    pub fn map_exists(&self, map_id: i32) -> (r: bool)
        ensures
            r == self.has_map(map_id),
    {
        let n = self.maps.len();
        let mut i: usize = 0;
        while i < n
            invariant
                n == self.maps@.len(),
                i <= n,
                forall|k: int| 0 <= k < i ==> (#[trigger] self.maps@[k]).id != map_id,
            decreases n - i,
        {
            if self.maps[i].id == map_id {
                return true;
            }
            i = i + 1;
        }
        false
    }

    /// Does a scenario with this id exist?
    pub fn scenario_exists(&self, scenario_id: i32) -> (r: bool)
        ensures
            r == self.has_scenario(scenario_id),
    {
        let n = self.scenarios.len();
        let mut i: usize = 0;
        while i < n
            invariant
                n == self.scenarios@.len(),
                i <= n,
                forall|k: int| 0 <= k < i ==> (#[trigger] self.scenarios@[k]).id != scenario_id,
            decreases n - i,
        {
            if self.scenarios[i].id == scenario_id {
                return true;
            }
            i = i + 1;
        }
        false
    }

    /// Does a simulator with this id exist?
    pub fn simulator_exists(&self, simulator_id: i32) -> (r: bool)
        ensures
            r == self.has_simulator(simulator_id),
    {
        let n = self.simulators.len();
        let mut i: usize = 0;
        while i < n
            invariant
                n == self.simulators@.len(),
                i <= n,
                forall|k: int| 0 <= k < i ==> (#[trigger] self.simulators@[k]).id != simulator_id,
            decreases n - i,
        {
            if self.simulators[i].id == simulator_id {
                return true;
            }
            i = i + 1;
        }
        false
    }

    /// Does a sampler with this id exist?
    pub fn sampler_exists(&self, sampler_id: i32) -> (r: bool)
        ensures
            r == self.has_sampler(sampler_id),
    {
        let n = self.samplers.len();
        let mut i: usize = 0;
        while i < n
            invariant
                n == self.samplers@.len(),
                i <= n,
                forall|k: int| 0 <= k < i ==> (#[trigger] self.samplers@[k]).id != sampler_id,
            decreases n - i,
        {
            if self.samplers[i].id == sampler_id {
                return true;
            }
            i = i + 1;
        }
        false
    }

    /// Does a worker with this id exist?
    pub fn worker_exists(&self, worker_id: i32) -> (r: bool)
        ensures
            r == self.has_worker(worker_id),
    {
        let n = self.workers.len();
        let mut i: usize = 0;
        while i < n
            invariant
                n == self.workers@.len(),
                i <= n,
                forall|k: int| 0 <= k < i ==> (#[trigger] self.workers@[k]).id != worker_id,
            decreases n - i,
        {
            if self.workers[i].id == worker_id {
                return true;
            }
            i = i + 1;
        }
        false
    }

    /// The plan with this id, as an owned copy of the stored row.
    pub fn get_plan(&self, plan_id: i32) -> (r: Option<Plan>)
        requires
            self.wf(),
        ensures
            match r {
                Some(row) => self.has_plan(plan_id) && row.id == plan_id && row == self.plan_of(
                    plan_id,
                ),
                None => !self.has_plan(plan_id),
            },
    {
        let n = self.plans.len();
        let mut i: usize = 0;
        while i < n
            invariant
                self.wf(),
                n == self.plans@.len(),
                i <= n,
                forall|k: int| 0 <= k < i ==> (#[trigger] self.plans@[k]).id != plan_id,
            decreases n - i,
        {
            if self.plans[i].id == plan_id {
                proof {
                    lemma_plan_of_is(self, plan_id, i as int);
                }
                return Some(self.plans[i].duplicate());
            }
            i = i + 1;
        }
        None
    }

    /// The AV with this id, as an owned copy of the stored row.
    pub fn get_av(&self, av_id: i32) -> (r: Option<Av>)
        requires
            self.wf(),
        ensures
            match r {
                Some(row) => self.has_av(av_id) && row.id == av_id && row == self.av_of(
                    av_id,
                ),
                None => !self.has_av(av_id),
            },
    {
        let n = self.avs.len();
        let mut i: usize = 0;
        while i < n
            invariant
                self.wf(),
                n == self.avs@.len(),
                i <= n,
                forall|k: int| 0 <= k < i ==> (#[trigger] self.avs@[k]).id != av_id,
            decreases n - i,
        {
            if self.avs[i].id == av_id {
                proof {
                    lemma_av_of_is(self, av_id, i as int);
                }
                return Some(self.avs[i].duplicate());
            }
            i = i + 1;
        }
        None
    }

    /// The map with this id, as an owned copy of the stored row.
    pub fn get_map(&self, map_id: i32) -> (r: Option<MapRecord>)
        requires
            self.wf(),
        ensures
            match r {
                Some(row) => self.has_map(map_id) && row.id == map_id && row == self.map_of(
                    map_id,
                ),
                None => !self.has_map(map_id),
            },
    {
        let n = self.maps.len();
        let mut i: usize = 0;
        while i < n
            invariant
                self.wf(),
                n == self.maps@.len(),
                i <= n,
                forall|k: int| 0 <= k < i ==> (#[trigger] self.maps@[k]).id != map_id,
            decreases n - i,
        {
            if self.maps[i].id == map_id {
                proof {
                    lemma_map_of_is(self, map_id, i as int);
                }
                return Some(self.maps[i].duplicate());
            }
            i = i + 1;
        }
        None
    }

    /// The scenario with this id, as an owned copy of the stored row.
    pub fn get_scenario(&self, scenario_id: i32) -> (r: Option<Scenario>)
        requires
            self.wf(),
        ensures
            match r {
                Some(row) => self.has_scenario(scenario_id) && row.id == scenario_id && row == self.scenario_of(
                    scenario_id,
                ),
                None => !self.has_scenario(scenario_id),
            },
    {
        let n = self.scenarios.len();
        let mut i: usize = 0;
        while i < n
            invariant
                self.wf(),
                n == self.scenarios@.len(),
                i <= n,
                forall|k: int| 0 <= k < i ==> (#[trigger] self.scenarios@[k]).id != scenario_id,
            decreases n - i,
        {
            if self.scenarios[i].id == scenario_id {
                proof {
                    lemma_scenario_of_is(self, scenario_id, i as int);
                }
                return Some(self.scenarios[i].duplicate());
            }
            i = i + 1;
        }
        None
    }

    /// The simulator with this id, as an owned copy of the stored row.
    pub fn get_simulator(&self, simulator_id: i32) -> (r: Option<Simulator>)
        requires
            self.wf(),
        ensures
            match r {
                Some(row) => self.has_simulator(simulator_id) && row.id == simulator_id && row == self.simulator_of(
                    simulator_id,
                ),
                None => !self.has_simulator(simulator_id),
            },
    {
        let n = self.simulators.len();
        let mut i: usize = 0;
        while i < n
            invariant
                self.wf(),
                n == self.simulators@.len(),
                i <= n,
                forall|k: int| 0 <= k < i ==> (#[trigger] self.simulators@[k]).id != simulator_id,
            decreases n - i,
        {
            if self.simulators[i].id == simulator_id {
                proof {
                    lemma_simulator_of_is(self, simulator_id, i as int);
                }
                return Some(self.simulators[i].duplicate());
            }
            i = i + 1;
        }
        None
    }

    /// The sampler with this id, as an owned copy of the stored row.
    pub fn get_sampler(&self, sampler_id: i32) -> (r: Option<Sampler>)
        requires
            self.wf(),
        ensures
            match r {
                Some(row) => self.has_sampler(sampler_id) && row.id == sampler_id && row == self.sampler_of(
                    sampler_id,
                ),
                None => !self.has_sampler(sampler_id),
            },
    {
        let n = self.samplers.len();
        let mut i: usize = 0;
        while i < n
            invariant
                self.wf(),
                n == self.samplers@.len(),
                i <= n,
                forall|k: int| 0 <= k < i ==> (#[trigger] self.samplers@[k]).id != sampler_id,
            decreases n - i,
        {
            if self.samplers[i].id == sampler_id {
                proof {
                    lemma_sampler_of_is(self, sampler_id, i as int);
                }
                return Some(self.samplers[i].duplicate());
            }
            i = i + 1;
        }
        None
    }
}

impl Catalog {
    /// The plan row holding id `id`; meaningful when `has_plan` holds and the
    /// catalog is well-formed, so that ids are unique.
    pub open spec fn plan_of(&self, id: i32) -> Plan {
        self.plans@[choose|k: int|
            0 <= k < self.plans@.len() && (#[trigger] self.plans@[k]).id == id]
    }

    /// The AV row holding id `id`; meaningful when `has_av` holds and the
    /// catalog is well-formed, so that ids are unique.
    pub open spec fn av_of(&self, id: i32) -> Av {
        self.avs@[choose|k: int|
            0 <= k < self.avs@.len() && (#[trigger] self.avs@[k]).id == id]
    }

    /// The map row holding id `id`; meaningful when `has_map` holds and the
    /// catalog is well-formed, so that ids are unique.
    pub open spec fn map_of(&self, id: i32) -> MapRecord {
        self.maps@[choose|k: int|
            0 <= k < self.maps@.len() && (#[trigger] self.maps@[k]).id == id]
    }

    /// The scenario row holding id `id`; meaningful when `has_scenario` holds and the
    /// catalog is well-formed, so that ids are unique.
    pub open spec fn scenario_of(&self, id: i32) -> Scenario {
        self.scenarios@[choose|k: int|
            0 <= k < self.scenarios@.len() && (#[trigger] self.scenarios@[k]).id == id]
    }

    /// The simulator row holding id `id`; meaningful when `has_simulator` holds and the
    /// catalog is well-formed, so that ids are unique.
    pub open spec fn simulator_of(&self, id: i32) -> Simulator {
        self.simulators@[choose|k: int|
            0 <= k < self.simulators@.len() && (#[trigger] self.simulators@[k]).id == id]
    }

    /// The sampler row holding id `id`; meaningful when `has_sampler` holds and the
    /// catalog is well-formed, so that ids are unique.
    pub open spec fn sampler_of(&self, id: i32) -> Sampler {
        self.samplers@[choose|k: int|
            0 <= k < self.samplers@.len() && (#[trigger] self.samplers@[k]).id == id]
    }
}

/// With unique ids, any plan row holding id `id` is the row `plan_of` denotes.
proof fn lemma_plan_of_is(c: &Catalog, id: i32, i: int)
    requires
        c.wf(),
        0 <= i < c.plans@.len(),
        c.plans@[i].id == id,
    ensures
        c.plan_of(id) == c.plans@[i],
{
    assert(0 <= i < c.plans@.len() && (#[trigger] c.plans@[i]).id == id);
    let j = choose|k: int| 0 <= k < c.plans@.len() && (#[trigger] c.plans@[k]).id == id;
    if j < i {
        assert(c.plans@[j].id != c.plans@[i].id);
    } else if i < j {
        assert(c.plans@[i].id != c.plans@[j].id);
    }
}

/// With unique ids, any AV row holding id `id` is the row `av_of` denotes.
proof fn lemma_av_of_is(c: &Catalog, id: i32, i: int)
    requires
        c.wf(),
        0 <= i < c.avs@.len(),
        c.avs@[i].id == id,
    ensures
        c.av_of(id) == c.avs@[i],
{
    assert(0 <= i < c.avs@.len() && (#[trigger] c.avs@[i]).id == id);
    let j = choose|k: int| 0 <= k < c.avs@.len() && (#[trigger] c.avs@[k]).id == id;
    if j < i {
        assert(c.avs@[j].id != c.avs@[i].id);
    } else if i < j {
        assert(c.avs@[i].id != c.avs@[j].id);
    }
}

/// With unique ids, any map row holding id `id` is the row `map_of` denotes.
proof fn lemma_map_of_is(c: &Catalog, id: i32, i: int)
    requires
        c.wf(),
        0 <= i < c.maps@.len(),
        c.maps@[i].id == id,
    ensures
        c.map_of(id) == c.maps@[i],
{
    assert(0 <= i < c.maps@.len() && (#[trigger] c.maps@[i]).id == id);
    let j = choose|k: int| 0 <= k < c.maps@.len() && (#[trigger] c.maps@[k]).id == id;
    if j < i {
        assert(c.maps@[j].id != c.maps@[i].id);
    } else if i < j {
        assert(c.maps@[i].id != c.maps@[j].id);
    }
}

/// With unique ids, any scenario row holding id `id` is the row `scenario_of` denotes.
proof fn lemma_scenario_of_is(c: &Catalog, id: i32, i: int)
    requires
        c.wf(),
        0 <= i < c.scenarios@.len(),
        c.scenarios@[i].id == id,
    ensures
        c.scenario_of(id) == c.scenarios@[i],
{
    assert(0 <= i < c.scenarios@.len() && (#[trigger] c.scenarios@[i]).id == id);
    let j = choose|k: int| 0 <= k < c.scenarios@.len() && (#[trigger] c.scenarios@[k]).id == id;
    if j < i {
        assert(c.scenarios@[j].id != c.scenarios@[i].id);
    } else if i < j {
        assert(c.scenarios@[i].id != c.scenarios@[j].id);
    }
}

/// With unique ids, any simulator row holding id `id` is the row `simulator_of` denotes.
proof fn lemma_simulator_of_is(c: &Catalog, id: i32, i: int)
    requires
        c.wf(),
        0 <= i < c.simulators@.len(),
        c.simulators@[i].id == id,
    ensures
        c.simulator_of(id) == c.simulators@[i],
{
    assert(0 <= i < c.simulators@.len() && (#[trigger] c.simulators@[i]).id == id);
    let j = choose|k: int| 0 <= k < c.simulators@.len() && (#[trigger] c.simulators@[k]).id == id;
    if j < i {
        assert(c.simulators@[j].id != c.simulators@[i].id);
    } else if i < j {
        assert(c.simulators@[i].id != c.simulators@[j].id);
    }
}

/// With unique ids, any sampler row holding id `id` is the row `sampler_of` denotes.
proof fn lemma_sampler_of_is(c: &Catalog, id: i32, i: int)
    requires
        c.wf(),
        0 <= i < c.samplers@.len(),
        c.samplers@[i].id == id,
    ensures
        c.sampler_of(id) == c.samplers@[i],
{
    assert(0 <= i < c.samplers@.len() && (#[trigger] c.samplers@[i]).id == id);
    let j = choose|k: int| 0 <= k < c.samplers@.len() && (#[trigger] c.samplers@[k]).id == id;
    if j < i {
        assert(c.samplers@[j].id != c.samplers@[i].id);
    } else if i < j {
        assert(c.samplers@[i].id != c.samplers@[j].id);
    }
}

impl Catalog {
    /// Register a plan with a fresh id, after validating that the map and
    /// the scenario it pairs both exist; the first missing reference is
    /// reported as a Validation error naming it, and nothing is inserted.
    pub fn create_plan(&mut self, name: String, map_id: i32, scenario_id: i32) -> (r: Result<
        Plan,
        TaskServiceError,
    >)
        requires
            old(self).wf(),
            old(self).next_plan_id < i32::MAX,
        ensures
            final(self).wf(),
            tables_unchanged_except(old(self), final(self), EntityKind::Plan),
            ({
                if !old(self).has_map(map_id) {
                    &&& r matches Err(e) && e == TaskServiceError::Validation(
                        EntityKind::MapRecord,
                    )
                    &&& final(self).plans@ == old(self).plans@
                    &&& final(self).next_plan_id == old(self).next_plan_id
                } else if !old(self).has_scenario(scenario_id) {
                    &&& r matches Err(e) && e == TaskServiceError::Validation(EntityKind::Scenario)
                    &&& final(self).plans@ == old(self).plans@
                    &&& final(self).next_plan_id == old(self).next_plan_id
                } else {
                    &&& r matches Ok(p)
                    &&& p.id == old(self).next_plan_id && p.name == name && p.map_id == map_id
                        && p.scenario_id == scenario_id
                    &&& final(self).plans@ == old(self).plans@.push(p)
                    &&& final(self).next_plan_id == old(self).next_plan_id + 1
                }
            }),
    {
        if !self.map_exists(map_id) {
            return Err(TaskServiceError::Validation(EntityKind::MapRecord));
        }
        if !self.scenario_exists(scenario_id) {
            return Err(TaskServiceError::Validation(EntityKind::Scenario));
        }
        let row = Plan { id: self.next_plan_id, name, map_id, scenario_id };
        let copy = row.duplicate();
        self.plans.push(row);
        self.next_plan_id = self.next_plan_id + 1;
        Ok(copy)
    }

    /// Register an AV configuration row with a fresh id.
    pub fn create_av(&mut self, name: String, image_path: String, config_path: String, nv_runtime: bool) -> (r: Av)
        requires
            old(self).wf(),
            old(self).next_av_id < i32::MAX,
        ensures
            final(self).wf(),
            tables_unchanged_except(old(self), final(self), EntityKind::Av),
            r.id == old(self).next_av_id,
            r.name == name && r.image_path == image_path && r.config_path == config_path
                && r.nv_runtime == nv_runtime,
            final(self).avs@ == old(self).avs@.push(r),
            final(self).next_av_id == old(self).next_av_id + 1,
    {
        let row = Av { id: self.next_av_id, name, image_path, config_path, nv_runtime };
        let copy = row.duplicate();
        self.avs.push(row);
        self.next_av_id = self.next_av_id + 1;
        copy
    }

    /// Register a map row with a fresh id.
    pub fn create_map(&mut self, name: String, xodr_path: Option<String>, osm_path: Option<String>) -> (r: MapRecord)
        requires
            old(self).wf(),
            old(self).next_map_id < i32::MAX,
        ensures
            final(self).wf(),
            tables_unchanged_except(old(self), final(self), EntityKind::MapRecord),
            r.id == old(self).next_map_id,
            r.name == name && r.xodr_path == xodr_path && r.osm_path == osm_path,
            final(self).maps@ == old(self).maps@.push(r),
            final(self).next_map_id == old(self).next_map_id + 1,
    {
        let row = MapRecord { id: self.next_map_id, name, xodr_path, osm_path };
        let copy = row.duplicate();
        self.maps.push(row);
        self.next_map_id = self.next_map_id + 1;
        copy
    }

    /// Register a scenario row with a fresh id.
    pub fn create_scenario(&mut self, title: Option<String>, description: Option<String>, scenario_path: String, param_path: Option<String>) -> (r: Scenario)
        requires
            old(self).wf(),
            old(self).next_scenario_id < i32::MAX,
        ensures
            final(self).wf(),
            tables_unchanged_except(old(self), final(self), EntityKind::Scenario),
            r.id == old(self).next_scenario_id,
            r.title == title && r.description == description && r.scenario_path
                == scenario_path && r.param_path == param_path,
            final(self).scenarios@ == old(self).scenarios@.push(r),
            final(self).next_scenario_id == old(self).next_scenario_id + 1,
    {
        let row = Scenario { id: self.next_scenario_id, title, description, scenario_path, param_path };
        let copy = row.duplicate();
        self.scenarios.push(row);
        self.next_scenario_id = self.next_scenario_id + 1;
        copy
    }

    /// Register a simulator row with a fresh id.
    pub fn create_simulator(&mut self, name: String, image_path: String, config_path: String, nv_runtime: bool) -> (r: Simulator)
        requires
            old(self).wf(),
            old(self).next_simulator_id < i32::MAX,
        ensures
            final(self).wf(),
            tables_unchanged_except(old(self), final(self), EntityKind::Simulator),
            r.id == old(self).next_simulator_id,
            r.name == name && r.image_path == image_path && r.config_path == config_path
                && r.nv_runtime == nv_runtime,
            final(self).simulators@ == old(self).simulators@.push(r),
            final(self).next_simulator_id == old(self).next_simulator_id + 1,
    {
        let row = Simulator { id: self.next_simulator_id, name, image_path, config_path, nv_runtime };
        let copy = row.duplicate();
        self.simulators.push(row);
        self.next_simulator_id = self.next_simulator_id + 1;
        copy
    }

    /// Register a sampler row with a fresh id.
    pub fn create_sampler(&mut self, name: String, module_file: String, config_path: Option<String>) -> (r: Sampler)
        requires
            old(self).wf(),
            old(self).next_sampler_id < i32::MAX,
        ensures
            final(self).wf(),
            tables_unchanged_except(old(self), final(self), EntityKind::Sampler),
            r.id == old(self).next_sampler_id,
            r.name == name && r.module_file == module_file && r.config_path == config_path,
            final(self).samplers@ == old(self).samplers@.push(r),
            final(self).next_sampler_id == old(self).next_sampler_id + 1,
    {
        let row = Sampler { id: self.next_sampler_id, name, module_file, config_path };
        let copy = row.duplicate();
        self.samplers.push(row);
        self.next_sampler_id = self.next_sampler_id + 1;
        copy
    }

    /// Register a worker row with a fresh id.
    pub fn create_worker(&mut self, job_id: i32, node_list: String, hostname: String) -> (r: Worker)
        requires
            old(self).wf(),
            old(self).next_worker_id < i32::MAX,
        ensures
            final(self).wf(),
            tables_unchanged_except(old(self), final(self), EntityKind::Worker),
            r.id == old(self).next_worker_id,
            r.job_id == job_id && r.node_list == node_list && r.hostname == hostname,
            final(self).workers@ == old(self).workers@.push(r),
            final(self).next_worker_id == old(self).next_worker_id + 1,
    {
        let row = Worker { id: self.next_worker_id, job_id, node_list, hostname };
        let copy = row.duplicate();
        self.workers.push(row);
        self.next_worker_id = self.next_worker_id + 1;
        copy
    }
}

} // verus!
