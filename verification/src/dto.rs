use vstd::prelude::*;
use vstd::std_specs::convert::FromSpec;

use crate::records::{Av, MapRecord, Plan, Sampler, Scenario, Simulator, Task, Worker};
use crate::service::ResolvedTask;
use crate::status::TaskStatus;

verus! {

/// Request to create a task referencing four configuration rows.
#[derive(Debug)]
pub struct CreateTaskRequest {
    pub plan_id: i32,
    pub av_id: i32,
    pub sampler_id: i32,
    pub simulator_id: i32,
}

/// Request of a worker asking to claim one task.
#[derive(Debug)]
pub struct ClaimTaskRequest {
    pub worker_id: i32,
}

/// Request to move a task to a terminal state.
#[derive(Debug)]
pub struct CompleteTaskRequest {
    pub task_id: i32,
}

/// Task lifecycle state as presented at the service boundary.
#[derive(Clone, Copy, Debug, PartialEq, Eq, Structural)]
pub enum TaskStatusDto {
    Pending,
    InProgress,
    Completed,
    Failed,
}

impl vstd::std_specs::convert::FromSpecImpl<TaskStatus> for TaskStatusDto {
    open spec fn obeys_from_spec() -> bool {
        true
    }

    open spec fn from_spec(v: TaskStatus) -> TaskStatusDto {
        match v {
            TaskStatus::Pending => TaskStatusDto::Pending,
            TaskStatus::InProgress => TaskStatusDto::InProgress,
            TaskStatus::Completed => TaskStatusDto::Completed,
            TaskStatus::Failed => TaskStatusDto::Failed,
        }
    }
}

impl From<TaskStatus> for TaskStatusDto {
    fn from(v: TaskStatus) -> (r: TaskStatusDto) {
        match v {
            TaskStatus::Pending => TaskStatusDto::Pending,
            TaskStatus::InProgress => TaskStatusDto::InProgress,
            TaskStatus::Completed => TaskStatusDto::Completed,
            TaskStatus::Failed => TaskStatusDto::Failed,
        }
    }
}

/// A task row as presented at the service boundary; timestamps are
/// microseconds since the Unix epoch.
#[derive(Debug)]
pub struct TaskResponse {
    pub id: i32,
    pub plan_id: i32,
    pub av_id: i32,
    pub simulator_id: i32,
    pub sampler_id: i32,
    pub worker_id: Option<i32>,
    pub status: TaskStatusDto,
    pub created_at: i64,
    pub executed_at: Option<i64>,
    pub finished_at: Option<i64>,
}

impl vstd::std_specs::convert::FromSpecImpl<Task> for TaskResponse {
    open spec fn obeys_from_spec() -> bool {
        true
    }

    open spec fn from_spec(m: Task) -> TaskResponse {
        TaskResponse {
            id: m.id,
            plan_id: m.plan_id,
            av_id: m.av_id,
            simulator_id: m.simulator_id,
            sampler_id: m.sampler_id,
            worker_id: m.worker_id,
            status: <TaskStatusDto as FromSpec<TaskStatus>>::from_spec(m.status),
            created_at: m.created_at,
            executed_at: m.executed_at,
            finished_at: m.finished_at,
        }
    }
}

impl From<Task> for TaskResponse {
    fn from(m: Task) -> (r: TaskResponse) {
        TaskResponse {
            id: m.id,
            plan_id: m.plan_id,
            av_id: m.av_id,
            simulator_id: m.simulator_id,
            sampler_id: m.sampler_id,
            worker_id: m.worker_id,
            status: TaskStatusDto::from(m.status),
            created_at: m.created_at,
            executed_at: m.executed_at,
            finished_at: m.finished_at,
        }
    }
}

/// The slice of a task a worker needs in order to report back: its id.
#[derive(Clone, Copy, Debug, PartialEq, Eq, Structural)]
pub struct TaskExecutionDto {
    pub id: i32,
}

impl vstd::std_specs::convert::FromSpecImpl<Task> for TaskExecutionDto {
    open spec fn obeys_from_spec() -> bool {
        true
    }

    open spec fn from_spec(m: Task) -> TaskExecutionDto {
        TaskExecutionDto { id: m.id }
    }
}

impl From<Task> for TaskExecutionDto {
    fn from(m: Task) -> (r: TaskExecutionDto) {
        TaskExecutionDto { id: m.id }
    }
}

/// Request to register an AV configuration.
#[derive(Debug)]
pub struct CreateAvRequest {
    pub name: String,
    pub image_path: String,
    pub config_path: String,
    pub nv_runtime: bool,
}

/// An AV row as presented at the service boundary.
#[derive(Debug)]
pub struct AvResponse {
    pub id: i32,
    pub name: String,
    pub image_path: String,
    pub config_path: String,
    pub nv_runtime: bool,
}

impl vstd::std_specs::convert::FromSpecImpl<Av> for AvResponse {
    open spec fn obeys_from_spec() -> bool {
        true
    }

    open spec fn from_spec(m: Av) -> AvResponse {
        AvResponse {
            id: m.id,
            name: m.name,
            image_path: m.image_path,
            config_path: m.config_path,
            nv_runtime: m.nv_runtime,
        }
    }
}

impl From<Av> for AvResponse {
    fn from(m: Av) -> (r: AvResponse) {
        AvResponse {
            id: m.id,
            name: m.name,
            image_path: m.image_path,
            config_path: m.config_path,
            nv_runtime: m.nv_runtime,
        }
    }
}

/// The slice of an AV a worker needs to run it.
#[derive(Debug)]
pub struct AvExecutionDto {
    pub name: String,
    pub image_path: String,
    pub config_path: String,
    pub nv_runtime: bool,
}

impl vstd::std_specs::convert::FromSpecImpl<Av> for AvExecutionDto {
    open spec fn obeys_from_spec() -> bool {
        true
    }

    open spec fn from_spec(m: Av) -> AvExecutionDto {
        AvExecutionDto {
            name: m.name,
            image_path: m.image_path,
            config_path: m.config_path,
            nv_runtime: m.nv_runtime,
        }
    }
}

impl From<Av> for AvExecutionDto {
    fn from(m: Av) -> (r: AvExecutionDto) {
        AvExecutionDto {
            name: m.name,
            image_path: m.image_path,
            config_path: m.config_path,
            nv_runtime: m.nv_runtime,
        }
    }
}

/// Request to register a map.
#[derive(Debug)]
pub struct CreateMapRequest {
    pub name: String,
    pub xodr_path: Option<String>,
    pub osm_path: Option<String>,
}

/// A map row as presented at the service boundary.
#[derive(Debug)]
pub struct MapResponse {
    pub id: i32,
    pub name: String,
    pub xodr_path: Option<String>,
    pub osm_path: Option<String>,
}

impl vstd::std_specs::convert::FromSpecImpl<MapRecord> for MapResponse {
    open spec fn obeys_from_spec() -> bool {
        true
    }

    open spec fn from_spec(m: MapRecord) -> MapResponse {
        MapResponse { id: m.id, name: m.name, xodr_path: m.xodr_path, osm_path: m.osm_path }
    }
}

impl From<MapRecord> for MapResponse {
    fn from(m: MapRecord) -> (r: MapResponse) {
        MapResponse { id: m.id, name: m.name, xodr_path: m.xodr_path, osm_path: m.osm_path }
    }
}

/// The slice of a map a worker needs to run against it.
#[derive(Debug)]
pub struct MapExecutionDto {
    pub name: String,
    pub xodr_path: Option<String>,
    pub osm_path: Option<String>,
}

impl vstd::std_specs::convert::FromSpecImpl<MapRecord> for MapExecutionDto {
    open spec fn obeys_from_spec() -> bool {
        true
    }

    open spec fn from_spec(m: MapRecord) -> MapExecutionDto {
        MapExecutionDto { name: m.name, xodr_path: m.xodr_path, osm_path: m.osm_path }
    }
}

impl From<MapRecord> for MapExecutionDto {
    fn from(m: MapRecord) -> (r: MapExecutionDto) {
        MapExecutionDto { name: m.name, xodr_path: m.xodr_path, osm_path: m.osm_path }
    }
}

/// Request to register a plan pairing a map and a scenario.
#[derive(Debug)]
pub struct CreatePlanRequest {
    pub name: String,
    pub map_id: i32,
    pub scenario_id: i32,
}

/// A plan row as presented at the service boundary.
#[derive(Debug)]
pub struct PlanResponse {
    pub id: i32,
    pub name: String,
    pub map_id: i32,
    pub scenario_id: i32,
}

impl vstd::std_specs::convert::FromSpecImpl<Plan> for PlanResponse {
    open spec fn obeys_from_spec() -> bool {
        true
    }

    open spec fn from_spec(m: Plan) -> PlanResponse {
        PlanResponse { id: m.id, name: m.name, map_id: m.map_id, scenario_id: m.scenario_id }
    }
}

impl From<Plan> for PlanResponse {
    fn from(m: Plan) -> (r: PlanResponse) {
        PlanResponse { id: m.id, name: m.name, map_id: m.map_id, scenario_id: m.scenario_id }
    }
}

/// Request to register a sampler.
#[derive(Debug)]
pub struct CreateSamplerRequest {
    pub name: String,
    pub module_file: String,
    pub config_path: Option<String>,
}

/// A sampler row as presented at the service boundary.
#[derive(Debug)]
pub struct SamplerResponse {
    pub id: i32,
    pub name: String,
    pub module_file: String,
}

impl vstd::std_specs::convert::FromSpecImpl<Sampler> for SamplerResponse {
    open spec fn obeys_from_spec() -> bool {
        true
    }

    open spec fn from_spec(m: Sampler) -> SamplerResponse {
        SamplerResponse { id: m.id, name: m.name, module_file: m.module_file }
    }
}

impl From<Sampler> for SamplerResponse {
    fn from(m: Sampler) -> (r: SamplerResponse) {
        SamplerResponse { id: m.id, name: m.name, module_file: m.module_file }
    }
}

/// Request to register a scenario.
#[derive(Debug)]
pub struct CreateScenarioRequest {
    pub title: Option<String>,
    pub description: Option<String>,
    pub scenario_path: String,
    pub param_path: Option<String>,
}

/// A scenario row as presented at the service boundary.
#[derive(Debug)]
pub struct ScenarioResponse {
    pub id: i32,
    pub title: Option<String>,
    pub description: Option<String>,
    pub scenario_path: String,
    pub param_path: Option<String>,
}

impl vstd::std_specs::convert::FromSpecImpl<Scenario> for ScenarioResponse {
    open spec fn obeys_from_spec() -> bool {
        true
    }

    open spec fn from_spec(m: Scenario) -> ScenarioResponse {
        ScenarioResponse {
            id: m.id,
            title: m.title,
            description: m.description,
            scenario_path: m.scenario_path,
            param_path: m.param_path,
        }
    }
}

impl From<Scenario> for ScenarioResponse {
    fn from(m: Scenario) -> (r: ScenarioResponse) {
        ScenarioResponse {
            id: m.id,
            title: m.title,
            description: m.description,
            scenario_path: m.scenario_path,
            param_path: m.param_path,
        }
    }
}

/// The slice of a scenario a worker needs to run it.
#[derive(Debug)]
pub struct ScenarioExecutionDto {
    pub title: Option<String>,
    pub description: Option<String>,
    pub scenario_path: String,
    pub param_path: Option<String>,
}

impl vstd::std_specs::convert::FromSpecImpl<Scenario> for ScenarioExecutionDto {
    open spec fn obeys_from_spec() -> bool {
        true
    }

    open spec fn from_spec(m: Scenario) -> ScenarioExecutionDto {
        ScenarioExecutionDto {
            title: m.title,
            description: m.description,
            scenario_path: m.scenario_path,
            param_path: m.param_path,
        }
    }
}

impl From<Scenario> for ScenarioExecutionDto {
    fn from(m: Scenario) -> (r: ScenarioExecutionDto) {
        ScenarioExecutionDto {
            title: m.title,
            description: m.description,
            scenario_path: m.scenario_path,
            param_path: m.param_path,
        }
    }
}

/// Request to register a simulator.
#[derive(Debug)]
pub struct CreateSimulatorRequest {
    pub name: String,
    pub image_path: String,
    pub config_path: String,
    pub nv_runtime: bool,
}

/// A simulator row as presented at the service boundary.
#[derive(Debug)]
pub struct SimulatorResponse {
    pub id: i32,
    pub name: String,
    pub image_path: String,
    pub config_path: String,
    pub nv_runtime: bool,
}

impl vstd::std_specs::convert::FromSpecImpl<Simulator> for SimulatorResponse {
    open spec fn obeys_from_spec() -> bool {
        true
    }

    open spec fn from_spec(m: Simulator) -> SimulatorResponse {
        SimulatorResponse {
            id: m.id,
            name: m.name,
            image_path: m.image_path,
            config_path: m.config_path,
            nv_runtime: m.nv_runtime,
        }
    }
}

impl From<Simulator> for SimulatorResponse {
    fn from(m: Simulator) -> (r: SimulatorResponse) {
        SimulatorResponse {
            id: m.id,
            name: m.name,
            image_path: m.image_path,
            config_path: m.config_path,
            nv_runtime: m.nv_runtime,
        }
    }
}

/// The slice of a simulator a worker needs to run it.
#[derive(Debug)]
pub struct SimulatorExecutionDto {
    pub name: String,
    pub image_path: String,
    pub config_path: String,
    pub nv_runtime: bool,
}

impl vstd::std_specs::convert::FromSpecImpl<Simulator> for SimulatorExecutionDto {
    open spec fn obeys_from_spec() -> bool {
        true
    }

    open spec fn from_spec(m: Simulator) -> SimulatorExecutionDto {
        SimulatorExecutionDto {
            name: m.name,
            image_path: m.image_path,
            config_path: m.config_path,
            nv_runtime: m.nv_runtime,
        }
    }
}

impl From<Simulator> for SimulatorExecutionDto {
    fn from(m: Simulator) -> (r: SimulatorExecutionDto) {
        SimulatorExecutionDto {
            name: m.name,
            image_path: m.image_path,
            config_path: m.config_path,
            nv_runtime: m.nv_runtime,
        }
    }
}

/// Request to register a worker.
#[derive(Debug)]
pub struct CreateWorkerRequest {
    pub job_id: i32,
    pub node_list: String,
    pub hostname: String,
}

/// A worker row as presented at the service boundary.
#[derive(Debug)]
pub struct WorkerResponse {
    pub id: i32,
    pub job_id: i32,
    pub node_list: String,
    pub hostname: String,
}

impl vstd::std_specs::convert::FromSpecImpl<Worker> for WorkerResponse {
    open spec fn obeys_from_spec() -> bool {
        true
    }

    open spec fn from_spec(m: Worker) -> WorkerResponse {
        WorkerResponse { id: m.id, job_id: m.job_id, node_list: m.node_list, hostname: m.hostname }
    }
}

impl From<Worker> for WorkerResponse {
    fn from(m: Worker) -> (r: WorkerResponse) {
        WorkerResponse { id: m.id, job_id: m.job_id, node_list: m.node_list, hostname: m.hostname }
    }
}

/// Everything handed to a worker that claims a task: the claimed task's id
/// and every configuration record of its execution bundle.
#[derive(Debug)]
pub struct ClaimTaskResponse {
    pub task: TaskExecutionDto,
    pub plan: PlanResponse,
    pub av: AvExecutionDto,
    pub map: MapExecutionDto,
    pub scenario: ScenarioExecutionDto,
    pub simulator: SimulatorExecutionDto,
    pub sampler: SamplerResponse,
}

/// The claim response a resolved bundle maps to, field by field.
pub open spec fn claim_response_spec(b: ResolvedTask) -> ClaimTaskResponse {
    ClaimTaskResponse {
        task: <TaskExecutionDto as FromSpec<Task>>::from_spec(b.task),
        plan: <PlanResponse as FromSpec<Plan>>::from_spec(b.plan),
        av: <AvExecutionDto as FromSpec<Av>>::from_spec(b.av),
        map: <MapExecutionDto as FromSpec<MapRecord>>::from_spec(b.map),
        scenario: <ScenarioExecutionDto as FromSpec<Scenario>>::from_spec(b.scenario),
        simulator: <SimulatorExecutionDto as FromSpec<Simulator>>::from_spec(b.simulator),
        sampler: <SamplerResponse as FromSpec<Sampler>>::from_spec(b.sampler),
    }
}

impl vstd::std_specs::convert::FromSpecImpl<ResolvedTask> for ClaimTaskResponse {
    open spec fn obeys_from_spec() -> bool {
        true
    }

    open spec fn from_spec(b: ResolvedTask) -> ClaimTaskResponse {
        claim_response_spec(b)
    }
}

impl From<ResolvedTask> for ClaimTaskResponse {
    fn from(b: ResolvedTask) -> (r: ClaimTaskResponse) {
        ClaimTaskResponse {
            task: TaskExecutionDto::from(b.task),
            plan: PlanResponse::from(b.plan),
            av: AvExecutionDto::from(b.av),
            map: MapExecutionDto::from(b.map),
            scenario: ScenarioExecutionDto::from(b.scenario),
            simulator: SimulatorExecutionDto::from(b.simulator),
            sampler: SamplerResponse::from(b.sampler),
        }
    }
}

} // verus!
