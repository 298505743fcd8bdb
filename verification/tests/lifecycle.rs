use manager::catalog::Catalog;
use manager::error::{EntityKind, TaskServiceError};
use manager::records::{Av, MapRecord, Plan, Sampler, Scenario, Simulator, Worker};
use manager::service;
use manager::status::TaskStatus;
use manager::store::TaskStore;

fn full_catalog() -> Catalog {
    Catalog {
        plans: vec![Plan { id: 1, name: "plan".to_string(), map_id: 1, scenario_id: 1 }],
        avs: vec![Av {
            id: 2,
            name: "av".to_string(),
            image_path: "/img/av".to_string(),
            config_path: "/cfg/av".to_string(),
            nv_runtime: false,
        }],
        maps: vec![MapRecord { id: 1, name: "town".to_string(), xodr_path: None, osm_path: None }],
        scenarios: vec![Scenario {
            id: 1,
            title: None,
            description: None,
            scenario_path: "/scenarios/s".to_string(),
            param_path: None,
        }],
        simulators: vec![Simulator {
            id: 4,
            name: "sim".to_string(),
            image_path: "/img/sim".to_string(),
            config_path: "/cfg/sim".to_string(),
            nv_runtime: false,
        }],
        samplers: vec![Sampler {
            id: 3,
            name: "sampler".to_string(),
            module_file: "/mod/sampler".to_string(),
            config_path: None,
        }],
        workers: vec![Worker {
            id: 5,
            job_id: 1,
            node_list: "n1".to_string(),
            hostname: "h1".to_string(),
        }],
        next_plan_id: 2,
        next_av_id: 3,
        next_map_id: 2,
        next_scenario_id: 2,
        next_simulator_id: 5,
        next_sampler_id: 4,
        next_worker_id: 6,
    }
}

#[test]
fn create_with_missing_av_is_a_validation_error_and_inserts_nothing() {
    let mut store = TaskStore::new();
    let catalog = full_catalog();
    let r = service::create_task_at(&mut store, &catalog, 1, 999, 3, 4, 500);
    match r {
        Err(e) => assert_eq!(e, TaskServiceError::Validation(EntityKind::Av)),
        Ok(_) => panic!("a dangling av reference must be rejected"),
    }
    assert_eq!(store.find_all().len(), 0);
}

#[test]
fn create_reports_the_first_missing_reference_in_fixed_order() {
    let mut store = TaskStore::new();
    let catalog = full_catalog();
    // Every reference dangling: the plan is the one named.
    let r = service::create_task_at(&mut store, &catalog, 99, 99, 99, 99, 500);
    assert_eq!(r.unwrap_err(), TaskServiceError::Validation(EntityKind::Plan));
    // Plan fine, the rest dangling: the AV is next.
    let r = service::create_task_at(&mut store, &catalog, 1, 99, 99, 99, 500);
    assert_eq!(r.unwrap_err(), TaskServiceError::Validation(EntityKind::Av));
    // Then the sampler.
    let r = service::create_task_at(&mut store, &catalog, 1, 2, 99, 99, 500);
    assert_eq!(r.unwrap_err(), TaskServiceError::Validation(EntityKind::Sampler));
    // Then the simulator.
    let r = service::create_task_at(&mut store, &catalog, 1, 2, 3, 99, 500);
    assert_eq!(r.unwrap_err(), TaskServiceError::Validation(EntityKind::Simulator));
    assert_eq!(store.find_all().len(), 0);
}

#[test]
fn complete_on_a_pending_task_is_invalid_state() {
    let mut store = TaskStore::new();
    let catalog = full_catalog();
    let t = service::create_task_at(&mut store, &catalog, 1, 2, 3, 4, 500).unwrap();
    let r = service::complete_task_at(&mut store, t.id, 900);
    assert_eq!(r.unwrap_err(), TaskServiceError::InvalidState(TaskStatus::Pending));
    assert_eq!(store.find_all()[0].status, TaskStatus::Pending);
}

#[test]
fn complete_on_an_unknown_task_is_not_found() {
    let mut store = TaskStore::new();
    let r = service::complete_task_at(&mut store, 123, 900);
    assert_eq!(r.unwrap_err(), TaskServiceError::NotFound(EntityKind::Task));
}

#[test]
fn terminal_tasks_cannot_be_moved_again() {
    let mut store = TaskStore::new();
    let catalog = full_catalog();
    let t = service::create_task_at(&mut store, &catalog, 1, 2, 3, 4, 500).unwrap();
    service::claim_and_resolve_task_at(&mut store, &catalog, 5, 1000).unwrap();
    service::complete_task_at(&mut store, t.id, 2000).unwrap();
    let again = service::complete_task_at(&mut store, t.id, 3000);
    assert_eq!(again.unwrap_err(), TaskServiceError::InvalidState(TaskStatus::Completed));
    let failed = service::fail_task_at(&mut store, t.id, "worker crashed", 3000);
    assert_eq!(failed.unwrap_err(), TaskServiceError::InvalidState(TaskStatus::Completed));
    // finished_at was not overwritten.
    assert_eq!(store.find_all()[0].finished_at, Some(2000));
}

#[test]
fn fail_moves_an_in_progress_task_to_failed() {
    let mut store = TaskStore::new();
    let catalog = full_catalog();
    let t = service::create_task_at(&mut store, &catalog, 1, 2, 3, 4, 500).unwrap();
    service::claim_and_resolve_task_at(&mut store, &catalog, 5, 1000).unwrap();
    let failed = service::fail_task_at(&mut store, t.id, "simulator crashed", 2000).unwrap();
    assert_eq!(failed.status, TaskStatus::Failed);
    assert_eq!(failed.finished_at, Some(2000));
    assert_eq!(failed.worker_id, Some(5));
}

#[test]
fn end_to_end_lifecycle_with_explicit_times() {
    let mut store = TaskStore { tasks: vec![], next_id: 10 };
    let catalog = full_catalog();
    let t0: i64 = 100;
    let t1: i64 = 1000;
    let t2: i64 = 2000;

    let created = service::create_task_at(&mut store, &catalog, 1, 2, 3, 4, t0).unwrap();
    assert_eq!(created.id, 10);
    assert_eq!(created.status, TaskStatus::Pending);
    assert_eq!(created.worker_id, None);
    assert_eq!(created.executed_at, None);
    assert_eq!(created.finished_at, None);

    let bundle = service::claim_and_resolve_task_at(&mut store, &catalog, 5, t1)
        .unwrap()
        .expect("the created task is pending");
    assert_eq!(bundle.task.id, 10);
    assert_eq!(bundle.task.status, TaskStatus::InProgress);
    assert_eq!(bundle.task.worker_id, Some(5));
    assert_eq!(bundle.task.executed_at, Some(t1));

    let done = service::complete_task_at(&mut store, 10, t2).unwrap();
    assert_eq!(done.id, 10);
    assert_eq!(done.status, TaskStatus::Completed);
    assert_eq!(done.finished_at, Some(t2));
    assert!(done.finished_at.unwrap() >= done.executed_at.unwrap());
}

#[test]
fn complete_uses_the_system_clock() {
    let mut store = TaskStore::new();
    let catalog = full_catalog();
    let t = service::create_task(&mut store, &catalog, 1, 2, 3, 4).unwrap();
    service::claim_task_for_worker(&mut store, &catalog, 5).unwrap();
    let done = service::complete_task(&mut store, t.id).unwrap();
    assert!(done.finished_at.unwrap() > 0);
}
