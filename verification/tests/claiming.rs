use manager::catalog::Catalog;
use manager::error::{EntityKind, TaskServiceError};
use manager::records::{Av, MapRecord, Plan, Sampler, Scenario, Simulator, Worker};
use manager::service;
use manager::status::TaskStatus;
use manager::store::TaskStore;

fn full_catalog() -> Catalog {
    Catalog {
        plans: vec![Plan { id: 1, name: "plan".to_string(), map_id: 1, scenario_id: 1 }],
        avs: vec![Av {
            id: 2,
            name: "av".to_string(),
            image_path: "/img/av".to_string(),
            config_path: "/cfg/av".to_string(),
            nv_runtime: true,
        }],
        maps: vec![MapRecord {
            id: 1,
            name: "town".to_string(),
            xodr_path: Some("/maps/town.xodr".to_string()),
            osm_path: None,
        }],
        scenarios: vec![Scenario {
            id: 1,
            title: Some("crossing".to_string()),
            description: None,
            scenario_path: "/scenarios/crossing".to_string(),
            param_path: None,
        }],
        simulators: vec![Simulator {
            id: 4,
            name: "sim".to_string(),
            image_path: "/img/sim".to_string(),
            config_path: "/cfg/sim".to_string(),
            nv_runtime: false,
        }],
        samplers: vec![Sampler {
            id: 3,
            name: "sampler".to_string(),
            module_file: "/mod/sampler".to_string(),
            config_path: None,
        }],
        workers: vec![Worker {
            id: 5,
            job_id: 77,
            node_list: "node1".to_string(),
            hostname: "host1".to_string(),
        }],
        next_plan_id: 2,
        next_av_id: 3,
        next_map_id: 2,
        next_scenario_id: 2,
        next_simulator_id: 5,
        next_sampler_id: 4,
        next_worker_id: 6,
    }
}

#[test]
fn claim_with_no_pending_task_is_no_task_not_an_error() {
    let mut store = TaskStore::new();
    let catalog = full_catalog();
    let r = service::claim_task_for_worker_at(&mut store, &catalog, 5, 1000);
    assert!(matches!(r, Ok(None)));
    assert_eq!(store.find_all().len(), 0);
}

#[test]
fn claim_for_unknown_worker_is_not_found() {
    let mut store = TaskStore::new();
    let catalog = full_catalog();
    let r = service::claim_task_for_worker_at(&mut store, &catalog, 42, 1000);
    match r {
        Err(e) => assert_eq!(e, TaskServiceError::NotFound(EntityKind::Worker)),
        Ok(_) => panic!("unknown worker must be rejected"),
    }
}

#[test]
fn concurrent_claimants_each_get_a_distinct_task() {
    let mut store = TaskStore::new();
    let catalog = full_catalog();
    for _ in 0..3 {
        service::create_task_at(&mut store, &catalog, 1, 2, 3, 4, 500).unwrap();
    }
    // Five workers race; the storage engine serializes them, so the claimed
    // set must hold exactly min(5, 3) = 3 tasks, none handed out twice.
    let mut claimed_ids: Vec<i32> = Vec::new();
    let mut misses = 0;
    for w in 0..5 {
        let r = service::claim_and_resolve_task_at(&mut store, &catalog, 10 + w, 1000 + w as i64)
            .unwrap();
        match r {
            Some(bundle) => claimed_ids.push(bundle.task.id),
            None => misses += 1,
        }
    }
    assert_eq!(claimed_ids.len(), 3);
    assert_eq!(misses, 2);
    for i in 0..claimed_ids.len() {
        for j in (i + 1)..claimed_ids.len() {
            assert_ne!(claimed_ids[i], claimed_ids[j]);
        }
    }
}

#[test]
fn claim_hands_out_tasks_in_creation_order() {
    let mut store = TaskStore::new();
    let catalog = full_catalog();
    let t1 = service::create_task_at(&mut store, &catalog, 1, 2, 3, 4, 500).unwrap();
    let t2 = service::create_task_at(&mut store, &catalog, 1, 2, 3, 4, 600).unwrap();
    assert!(t1.id < t2.id);
    let first = service::claim_and_resolve_task_at(&mut store, &catalog, 5, 1000)
        .unwrap()
        .unwrap();
    let second = service::claim_and_resolve_task_at(&mut store, &catalog, 5, 1100)
        .unwrap()
        .unwrap();
    assert_eq!(first.task.id, t1.id);
    assert_eq!(second.task.id, t2.id);
}

#[test]
fn round_trip_bundle_matches_creation_ids() {
    let mut store = TaskStore::new();
    let catalog = full_catalog();
    service::create_task_at(&mut store, &catalog, 1, 2, 3, 4, 500).unwrap();
    let bundle = service::claim_and_resolve_task_at(&mut store, &catalog, 5, 1000)
        .unwrap()
        .expect("one task is pending");
    assert_eq!(bundle.plan.id, 1);
    assert_eq!(bundle.av.id, 2);
    assert_eq!(bundle.sampler.id, 3);
    assert_eq!(bundle.simulator.id, 4);
    assert_eq!(bundle.task.plan_id, 1);
    assert_eq!(bundle.task.av_id, 2);
    assert_eq!(bundle.task.sampler_id, 3);
    assert_eq!(bundle.task.simulator_id, 4);
    assert_eq!(bundle.map.id, 1);
    assert_eq!(bundle.scenario.id, 1);
    assert_eq!(bundle.task.worker_id, Some(5));
}

#[test]
fn claim_response_carries_the_full_bundle() {
    let mut store = TaskStore::new();
    let catalog = full_catalog();
    let created = service::create_task_at(&mut store, &catalog, 1, 2, 3, 4, 500).unwrap();
    let resp = service::claim_task_for_worker_at(&mut store, &catalog, 5, 1000)
        .unwrap()
        .expect("one task is pending");
    assert_eq!(resp.task.id, created.id);
    assert_eq!(resp.plan.id, 1);
    assert_eq!(resp.plan.map_id, 1);
    assert_eq!(resp.plan.scenario_id, 1);
    assert_eq!(resp.av.name, "av");
    assert_eq!(resp.av.image_path, "/img/av");
    assert!(resp.av.nv_runtime);
    assert_eq!(resp.map.name, "town");
    assert_eq!(resp.map.xodr_path.as_deref(), Some("/maps/town.xodr"));
    assert_eq!(resp.scenario.scenario_path, "/scenarios/crossing");
    assert_eq!(resp.simulator.name, "sim");
    assert_eq!(resp.sampler.id, 3);
    assert_eq!(resp.sampler.module_file, "/mod/sampler");
}

#[test]
fn missing_reference_after_claim_is_a_data_inconsistency() {
    let mut store = TaskStore::new();
    let mut catalog = full_catalog();
    service::create_task_at(&mut store, &catalog, 1, 2, 3, 4, 500).unwrap();
    // Out-of-band mutation: the AV row disappears after creation-time
    // validation has already passed.
    catalog.avs.clear();
    let r = service::claim_and_resolve_task_at(&mut store, &catalog, 5, 1000);
    match r {
        Err(e) => assert_eq!(e, TaskServiceError::DataInconsistency(EntityKind::Av)),
        Ok(_) => panic!("a dangling reference must be a server fault"),
    }
    // The claim itself has committed: the task is InProgress even though
    // resolution failed.
    assert_eq!(store.find_all()[0].status, TaskStatus::InProgress);
    assert_eq!(store.find_all()[0].worker_id, Some(5));
}

#[test]
fn claim_uses_the_system_clock() {
    let mut store = TaskStore::new();
    let catalog = full_catalog();
    service::create_task(&mut store, &catalog, 1, 2, 3, 4).unwrap();
    let bundle = service::claim_and_resolve_task(&mut store, &catalog, 5)
        .unwrap()
        .expect("one task is pending");
    // A wall-clock reading is a positive microsecond count.
    assert!(bundle.task.created_at > 0);
    assert!(bundle.task.executed_at.unwrap() > 0);
}
