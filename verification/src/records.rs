use vstd::prelude::*;

use crate::status::TaskStatus;

verus! {

/// One simulation-run request: a Plan, an AV, a Simulator and a Sampler,
/// together with its lifecycle state and timestamps (microseconds since the
/// Unix epoch).
#[derive(Clone, Copy, Debug, PartialEq, Eq, Structural)]
pub struct Task {
    pub id: i32,
    pub plan_id: i32,
    pub av_id: i32,
    pub simulator_id: i32,
    pub sampler_id: i32,
    pub worker_id: Option<i32>,
    pub status: TaskStatus,
    pub created_at: i64,
    pub executed_at: Option<i64>,
    pub finished_at: Option<i64>,
}

/// Field consistency of a single task record: a task is unassigned exactly
/// while it is Pending, carries `executed_at` once it has been claimed, and
/// carries `finished_at` exactly once it has reached a terminal status.
pub open spec fn task_wf(t: Task) -> bool {
    &&& t.worker_id is None <==> t.status is Pending
    &&& t.status is Pending ==> t.executed_at is None
    &&& t.status is InProgress || t.status.is_terminal() ==> t.executed_at is Some
    &&& t.finished_at is Some <==> t.status.is_terminal()
}

/// Pairing of a map and a scenario defining the content of a simulation run.
#[derive(Debug)]
pub struct Plan {
    pub id: i32,
    pub name: String,
    pub map_id: i32,
    pub scenario_id: i32,
}

/// Autonomous-vehicle stack configuration.
#[derive(Debug)]
pub struct Av {
    pub id: i32,
    pub name: String,
    pub image_path: String,
    pub config_path: String,
    pub nv_runtime: bool,
}

/// Road-network description used by a simulation run.
#[derive(Debug)]
pub struct MapRecord {
    pub id: i32,
    pub name: String,
    pub xodr_path: Option<String>,
    pub osm_path: Option<String>,
}

/// Scenario definition referenced by a plan.
#[derive(Debug)]
pub struct Scenario {
    pub id: i32,
    pub title: Option<String>,
    pub description: Option<String>,
    pub scenario_path: String,
    pub param_path: Option<String>,
}

/// Simulator configuration.
#[derive(Debug)]
pub struct Simulator {
    pub id: i32,
    pub name: String,
    pub image_path: String,
    pub config_path: String,
    pub nv_runtime: bool,
}

/// Sampler configuration.
#[derive(Debug)]
pub struct Sampler {
    pub id: i32,
    pub name: String,
    pub module_file: String,
    pub config_path: Option<String>,
}

/// A registered worker process.
#[derive(Debug)]
pub struct Worker {
    pub id: i32,
    pub job_id: i32,
    pub node_list: String,
    pub hostname: String,
}

/// An owned copy of an optional string; contracts know nothing of a derived
/// `Clone`, so the copy is spelled out.
fn clone_opt_string(s: &Option<String>) -> (r: Option<String>)
    ensures
        r == *s,
{
    match s {
        Some(x) => Some(x.clone()),
        None => None,
    }
}

impl Plan {
    /// An owned copy equal to the original.
    pub fn duplicate(&self) -> (r: Plan)
        ensures
            r == *self,
    {
        Plan {
            id: self.id,
            name: self.name.clone(),
            map_id: self.map_id,
            scenario_id: self.scenario_id,
        }
    }
}

impl Av {
    /// An owned copy equal to the original.
    pub fn duplicate(&self) -> (r: Av)
        ensures
            r == *self,
    {
        Av {
            id: self.id,
            name: self.name.clone(),
            image_path: self.image_path.clone(),
            config_path: self.config_path.clone(),
            nv_runtime: self.nv_runtime,
        }
    }
}

impl MapRecord {
    /// An owned copy equal to the original.
    pub fn duplicate(&self) -> (r: MapRecord)
        ensures
            r == *self,
    {
        MapRecord {
            id: self.id,
            name: self.name.clone(),
            xodr_path: clone_opt_string(&self.xodr_path),
            osm_path: clone_opt_string(&self.osm_path),
        }
    }
}

impl Scenario {
    /// An owned copy equal to the original.
    pub fn duplicate(&self) -> (r: Scenario)
        ensures
            r == *self,
    {
        Scenario {
            id: self.id,
            title: clone_opt_string(&self.title),
            description: clone_opt_string(&self.description),
            scenario_path: self.scenario_path.clone(),
            param_path: clone_opt_string(&self.param_path),
        }
    }
}

impl Simulator {
    /// An owned copy equal to the original.
    pub fn duplicate(&self) -> (r: Simulator)
        ensures
            r == *self,
    {
        Simulator {
            id: self.id,
            name: self.name.clone(),
            image_path: self.image_path.clone(),
            config_path: self.config_path.clone(),
            nv_runtime: self.nv_runtime,
        }
    }
}

impl Sampler {
    /// An owned copy equal to the original.
    pub fn duplicate(&self) -> (r: Sampler)
        ensures
            r == *self,
    {
        Sampler {
            id: self.id,
            name: self.name.clone(),
            module_file: self.module_file.clone(),
            config_path: clone_opt_string(&self.config_path),
        }
    }
}

impl Worker {
    /// An owned copy equal to the original.
    pub fn duplicate(&self) -> (r: Worker)
        ensures
            r == *self,
    {
        Worker {
            id: self.id,
            job_id: self.job_id,
            node_list: self.node_list.clone(),
            hostname: self.hostname.clone(),
        }
    }
}

} // verus!
