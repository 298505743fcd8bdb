use manager::catalog::Catalog;
use manager::dto::{TaskResponse, TaskStatusDto, WorkerResponse};
use manager::error::{EntityKind, TaskServiceError};
use manager::records::{Task, Worker};
use manager::status::TaskStatus;

#[test]
fn catalog_creation_hands_out_fresh_ids() {
    let mut c = Catalog::new();
    let m = c.create_map("town".to_string(), Some("/maps/town.xodr".to_string()), None);
    assert_eq!(m.id, 1);
    let s = c.create_scenario(Some("crossing".to_string()), None, "/sc".to_string(), None);
    assert_eq!(s.id, 1);
    let a1 = c.create_av("a1".to_string(), "/i1".to_string(), "/c1".to_string(), false);
    let a2 = c.create_av("a2".to_string(), "/i2".to_string(), "/c2".to_string(), true);
    assert_eq!(a1.id, 1);
    assert_eq!(a2.id, 2);
    let p = c.create_plan("plan".to_string(), m.id, s.id).unwrap();
    assert_eq!(p.id, 1);
    assert!(c.plan_exists(p.id));
    assert!(c.av_exists(a2.id));
    assert!(!c.av_exists(99));
}

#[test]
fn plan_creation_validates_map_and_scenario() {
    let mut c = Catalog::new();
    let r = c.create_plan("plan".to_string(), 7, 7);
    assert_eq!(r.unwrap_err(), TaskServiceError::Validation(EntityKind::MapRecord));
    let m = c.create_map("town".to_string(), None, None);
    let r = c.create_plan("plan".to_string(), m.id, 7);
    assert_eq!(r.unwrap_err(), TaskServiceError::Validation(EntityKind::Scenario));
    assert_eq!(c.plans.len(), 0);
}

#[test]
fn lookups_return_the_stored_row() {
    let mut c = Catalog::new();
    let sm = c.create_simulator("sim".to_string(), "/i".to_string(), "/c".to_string(), true);
    let got = c.get_simulator(sm.id).expect("the simulator was just created");
    assert_eq!(got.id, sm.id);
    assert_eq!(got.name, "sim");
    assert_eq!(got.image_path, "/i");
    assert_eq!(got.config_path, "/c");
    assert!(got.nv_runtime);
    assert!(c.get_simulator(42).is_none());
}

#[test]
fn worker_registration_and_lookup() {
    let mut c = Catalog::new();
    let w = c.create_worker(9, "node1,node2".to_string(), "host".to_string());
    assert_eq!(w.id, 1);
    assert!(c.worker_exists(1));
    assert!(!c.worker_exists(2));
    let resp = WorkerResponse::from(Worker {
        id: w.id,
        job_id: w.job_id,
        node_list: w.node_list.clone(),
        hostname: w.hostname.clone(),
    });
    assert_eq!(resp.id, 1);
    assert_eq!(resp.job_id, 9);
    assert_eq!(resp.node_list, "node1,node2");
    assert_eq!(resp.hostname, "host");
}

#[test]
fn task_response_mirrors_the_record() {
    let t = Task {
        id: 8,
        plan_id: 1,
        av_id: 2,
        simulator_id: 4,
        sampler_id: 3,
        worker_id: Some(5),
        status: TaskStatus::InProgress,
        created_at: 100,
        executed_at: Some(200),
        finished_at: None,
    };
    let resp = TaskResponse::from(t);
    assert_eq!(resp.id, 8);
    assert_eq!(resp.plan_id, 1);
    assert_eq!(resp.av_id, 2);
    assert_eq!(resp.simulator_id, 4);
    assert_eq!(resp.sampler_id, 3);
    assert_eq!(resp.worker_id, Some(5));
    assert_eq!(resp.status, TaskStatusDto::InProgress);
    assert_eq!(resp.created_at, 100);
    assert_eq!(resp.executed_at, Some(200));
    assert_eq!(resp.finished_at, None);
}

#[test]
fn status_dto_covers_every_state() {
    assert_eq!(TaskStatusDto::from(TaskStatus::Pending), TaskStatusDto::Pending);
    assert_eq!(TaskStatusDto::from(TaskStatus::InProgress), TaskStatusDto::InProgress);
    assert_eq!(TaskStatusDto::from(TaskStatus::Completed), TaskStatusDto::Completed);
    assert_eq!(TaskStatusDto::from(TaskStatus::Failed), TaskStatusDto::Failed);
}

#[test]
fn error_kinds_map_to_their_status_codes() {
    assert_eq!(TaskServiceError::Database.status_code(), 500);
    assert_eq!(TaskServiceError::Validation(EntityKind::Av).status_code(), 400);
    assert_eq!(TaskServiceError::NotFound(EntityKind::Worker).status_code(), 404);
    assert_eq!(TaskServiceError::InvalidState(TaskStatus::Pending).status_code(), 400);
    assert_eq!(TaskServiceError::DataInconsistency(EntityKind::Plan).status_code(), 500);
}
