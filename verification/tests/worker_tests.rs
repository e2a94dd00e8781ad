use claw10::domain::WorkerId;
use claw10::worker::{WorkerError, WorkerHeartbeat, WorkerService, WorkerState, WorkerType};

#[test]
fn worker_lifecycle() {
    let mut svc = WorkerService::new();
    let w = svc.register("w1".into(), WorkerType::Local, vec!["shell".into()], "1.0".into());
    assert_eq!(w.state, WorkerState::Online);
    svc.heartbeat(&w.id, WorkerHeartbeat { timestamp: 1_000, active_runtimes: 0 }).ok().unwrap();
    svc.drain(&w.id).ok().unwrap();
    assert!(matches!(svc.drain(&w.id), Err(WorkerError::AlreadyDraining(_))));
    svc.mark_offline(&w.id).ok().unwrap();
    assert_eq!(svc.get(&w.id).ok().unwrap().unwrap().state, WorkerState::Offline);
    svc.quarantine(&w.id).ok().unwrap();
    assert!(matches!(
        svc.heartbeat(&w.id, WorkerHeartbeat { timestamp: 2_000, active_runtimes: 0 }),
        Err(WorkerError::Quarantined(_))
    ));
}

#[test]
fn unknown_worker_is_not_found() {
    let mut svc = WorkerService::new();
    match svc.drain(&WorkerId(3)) {
        Err(WorkerError::NotFound(id)) => assert_eq!(id, "00000000-0000-0000-0000-000000000003"),
        _ => panic!("expected not found"),
    }
    assert!(svc.get(&WorkerId(3)).ok().unwrap().is_none());
}

#[test]
fn stale_detection_counts_whole_seconds() {
    let mut svc = WorkerService::new();
    let a = svc.register("a".into(), WorkerType::Local, vec![], "1".into());
    let b = svc.register("b".into(), WorkerType::Remote, vec![], "1".into());
    let _c = svc.register("c".into(), WorkerType::Remote, vec![], "1".into());
    svc.heartbeat(&a.id, WorkerHeartbeat { timestamp: 100_000, active_runtimes: 1 }).ok().unwrap();
    svc.heartbeat(&b.id, WorkerHeartbeat { timestamp: 139_500, active_runtimes: 1 }).ok().unwrap();
    // At 160_000: a is 60 s old, b 20.5 s (20 whole seconds), c never beat.
    let stale: Vec<String> = svc.stale_at(160_000, 30).into_iter().map(|w| w.name).collect();
    let mut stale = stale;
    stale.sort();
    assert_eq!(stale, vec!["a".to_string(), "c".to_string()]);
}

#[test]
fn counts_by_state() {
    let mut svc = WorkerService::new();
    let a = svc.register("a".into(), WorkerType::Local, vec![], "1".into());
    let _b = svc.register("b".into(), WorkerType::Local, vec![], "1".into());
    svc.mark_offline(&a.id).ok().unwrap();
    let counts = svc.count_by_state().ok().unwrap();
    let get = |name: &str| counts.iter().find(|(k, _)| k == name).map(|(_, n)| *n).unwrap_or(0);
    assert_eq!(get("Online"), 1);
    assert_eq!(get("Offline"), 1);
    assert_eq!(svc.list(Some(&WorkerState::Online)).ok().unwrap().len(), 1);
    assert_eq!(svc.list(None).ok().unwrap().len(), 2);
}
