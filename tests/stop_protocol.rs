use proxy_supervisor::error::SupervisorError;
use proxy_supervisor::record::ProxyConfig;
use proxy_supervisor::registry::Registry;
use proxy_supervisor::stop::{StopAction, StopAll, StopPhase, StopSession};
use proxy_supervisor::store::ConfigStore;

/// Runs one stop against the store; `deliver` says whether the signal goes out.
fn run_stop(
    store: &mut ConfigStore,
    registry: &mut Registry,
    id: &str,
    deliver: bool,
    signalled: &mut Vec<u32>,
) -> bool {
    let (mut s, mut action) = StopSession::begin(id.to_string(), 500);
    loop {
        action = match action {
            StopAction::FetchRecord { id } => s.on_fetched(registry, store.get(&id)),
            StopAction::Terminate { pid } => {
                signalled.push(pid);
                s.on_terminated(deliver)
            }
            StopAction::Wait { ms } => {
                assert_eq!(ms, 500);
                s.on_waited(registry)
            }
            StopAction::DeleteRecord { id } => {
                store.delete(&id);
                s.on_deleted()
            }
            StopAction::Finish { stopped } => {
                assert_eq!(s.phase, StopPhase::Finished);
                return stopped;
            }
        };
    }
}

fn record(id: &str, pid: Option<u32>) -> ProxyConfig {
    let mut r = ProxyConfig::new(id.to_string(), "DIRECT".to_string(), 0);
    r.pid = pid;
    r
}

#[test]
fn stop_unknown_id_is_nothing_to_stop() {
    let mut store = ConfigStore::new();
    store.save(record("other", Some(9)));
    let mut registry = Registry::new();
    let mut signalled = Vec::new();
    assert!(!run_stop(&mut store, &mut registry, "absent", true, &mut signalled));
    assert!(signalled.is_empty());
    assert_eq!(store.len(), 1);
}

#[test]
fn stop_deletes_record_and_forgets_pid() {
    let mut store = ConfigStore::new();
    store.save(record("a", Some(100)));
    store.save(record("b", Some(200)));
    let mut registry = Registry::new();
    registry.record("a".to_string(), 100);
    let mut signalled = Vec::new();
    assert!(run_stop(&mut store, &mut registry, "a", true, &mut signalled));
    assert_eq!(signalled, vec![100]);
    assert!(store.get(&"a".to_string()).is_none());
    assert!(store.get(&"b".to_string()).is_some());
    assert_eq!(registry.pid_of(&"a".to_string()), None);
}

#[test]
fn stop_deletes_record_when_signal_fails() {
    let mut store = ConfigStore::new();
    store.save(record("a", Some(100)));
    let mut registry = Registry::new();
    let mut signalled = Vec::new();
    assert!(run_stop(&mut store, &mut registry, "a", false, &mut signalled));
    assert!(store.get(&"a".to_string()).is_none());
}

#[test]
fn stop_twice_second_is_nothing_to_stop() {
    let mut store = ConfigStore::new();
    store.save(record("a", Some(100)));
    let mut registry = Registry::new();
    let mut signalled = Vec::new();
    assert!(run_stop(&mut store, &mut registry, "a", true, &mut signalled));
    assert!(!run_stop(&mut store, &mut registry, "a", true, &mut signalled));
    assert_eq!(signalled, vec![100]);
    assert_eq!(store.len(), 0);
}

#[test]
fn stop_deletes_record_without_pid() {
    let mut store = ConfigStore::new();
    store.save(record("unspawned", None));
    let mut registry = Registry::new();
    // Spawned, but the record with the process id was never saved.
    registry.record("unspawned".to_string(), 55);
    let mut signalled = Vec::new();
    assert!(run_stop(&mut store, &mut registry, "unspawned", true, &mut signalled));
    assert!(signalled.is_empty());
    assert!(store.get(&"unspawned".to_string()).is_none());
    assert_eq!(registry.pid_of(&"unspawned".to_string()), None);
    assert!(!run_stop(&mut store, &mut registry, "unspawned", true, &mut signalled));
}

#[test]
fn stop_all_empties_store_with_pidless_record() {
    let mut store = ConfigStore::new();
    store.save(record("a", Some(1)));
    store.save(record("b", None));
    let mut registry = Registry::new();
    registry.record("a".to_string(), 1);
    registry.record("b".to_string(), 2);
    registry.record("other".to_string(), 3);
    let mut fan = StopAll::new(store.list_ids());
    let mut signalled = Vec::new();
    while let Some(id) = fan.next_id() {
        let stopped = run_stop(&mut store, &mut registry, &id, false, &mut signalled);
        fan.record(Ok(stopped));
    }
    assert_eq!(store.len(), 0);
    assert_eq!(signalled, vec![1]);
    assert_eq!(registry.len(), 1);
    assert_eq!(registry.pid_of(&"other".to_string()), Some(3));
}

#[test]
fn stop_all_empties_store_despite_a_failed_signal() {
    let mut store = ConfigStore::new();
    for (i, id) in ["x", "y", "z"].iter().enumerate() {
        store.save(record(id, Some(10 + i as u32)));
    }
    let mut registry = Registry::new();
    let mut fan = StopAll::new(store.list_ids());
    let mut signalled = Vec::new();
    while let Some(id) = fan.next_id() {
        // The signal to the second worker cannot be delivered.
        let deliver = id != "y";
        let stopped = run_stop(&mut store, &mut registry, &id, deliver, &mut signalled);
        fan.record(Ok(stopped));
    }
    assert!(fan.is_done());
    assert_eq!(store.len(), 0);
    let reports = fan.into_reports();
    assert_eq!(reports.len(), 3);
    assert!(reports.iter().all(|r| matches!(r.outcome, Ok(true))));
    signalled.sort();
    assert_eq!(signalled, vec![10, 11, 12]);
}

#[test]
fn stop_all_keeps_going_after_an_error() {
    let mut fan = StopAll::new(vec!["p".to_string(), "q".to_string()]);
    assert_eq!(fan.next_id(), Some("p".to_string()));
    fan.record(Err(SupervisorError::ConfigIoFailure { reason: "locked".to_string() }));
    assert_eq!(fan.next_id(), Some("q".to_string()));
    fan.record(Ok(false));
    assert_eq!(fan.next_id(), None);
    let reports = fan.into_reports();
    assert_eq!(reports[0].id, "p");
    assert!(matches!(reports[0].outcome, Err(SupervisorError::ConfigIoFailure { .. })));
    assert_eq!(reports[1].id, "q");
    assert!(matches!(reports[1].outcome, Ok(false)));
}
