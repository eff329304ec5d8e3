use proxy_supervisor::diagnostics::WorkerLog;
use proxy_supervisor::error::SupervisorError;
use proxy_supervisor::platform::{Platform, PollPolicy};
use proxy_supervisor::record::ProxyConfig;
use proxy_supervisor::registry::Registry;
use proxy_supervisor::start::{StartAction, StartPhase, StartSession};
use proxy_supervisor::store::ConfigStore;

struct Mocks {
    spawn: Result<u32, String>,
    save_fails: bool,
    /// Poll number (from 1) after which the worker publishes its port.
    publish_after: Option<u32>,
    published_port: u16,
    probe_ok: bool,
    alive: bool,
    log: Option<String>,
}

struct Run {
    outcome: Result<ProxyConfig, SupervisorError>,
    polls: u32,
    waits: Vec<u64>,
    log_file: Option<String>,
}

fn drive(store: &mut ConfigStore, registry: &mut Registry, id: &str, m: &Mocks) -> Run {
    let policy = PollPolicy::for_platform(Platform::Unix);
    let (mut s, mut action) = StartSession::start(id.to_string(), None, None, None, policy);
    let mut polls = 0u32;
    let mut waits = Vec::new();
    let mut log_file = None;
    loop {
        action = match action {
            StartAction::SaveRecord { record } => {
                if m.save_fails {
                    s.on_saved(Err("disk full".to_string()))
                } else {
                    store.save(record);
                    s.on_saved(Ok(()))
                }
            }
            StartAction::Spawn { id: spawned } => {
                assert_eq!(spawned, id);
                s.on_spawned(registry, m.spawn.clone())
            }
            StartAction::Wait { ms } => {
                waits.push(ms);
                s.on_waited()
            }
            StartAction::FetchRecord { id: wanted } => {
                if s.phase == StartPhase::Fetching {
                    polls += 1;
                    if m.publish_after == Some(polls) {
                        let mut rec = store.get(&wanted).unwrap();
                        rec.local_port = Some(m.published_port);
                        rec.local_url = Some(format!("http://127.0.0.1:{}", m.published_port));
                        store.save(rec);
                    }
                }
                let fetched = store.get(&wanted);
                s.on_fetched(fetched)
            }
            StartAction::Probe { port, .. } => {
                assert_eq!(port, m.published_port);
                s.on_probed(m.probe_ok)
            }
            StartAction::CheckAlive { pid } => {
                assert_eq!(pid, 4242);
                s.on_alive(m.alive)
            }
            StartAction::ReadLog { file_name } => {
                log_file = Some(file_name);
                let log = match &m.log {
                    Some(text) => WorkerLog::from_text(text),
                    None => WorkerLog::Missing { path: "/tmp/missing.log".to_string() },
                };
                s.on_log(log)
            }
            StartAction::Finish { outcome } => {
                return Run { outcome, polls, waits, log_file };
            }
        };
    }
}

fn mocks() -> Mocks {
    Mocks {
        spawn: Ok(4242),
        save_fails: false,
        publish_after: Some(1),
        published_port: 51234,
        probe_ok: true,
        alive: true,
        log: None,
    }
}

#[test]
fn start_reports_ready_record_after_one_poll() {
    let mut store = ConfigStore::new();
    let mut registry = Registry::new();
    let run = drive(&mut store, &mut registry, "w1", &mocks());
    let rec = run.outcome.expect("start succeeds");
    assert_eq!(rec.id, "w1");
    assert_eq!(rec.pid, Some(4242));
    assert_eq!(rec.local_port, Some(51234));
    assert!(!rec.local_url.clone().unwrap().is_empty());
    assert_eq!(rec.upstream_url, "DIRECT");
    assert_eq!(rec.requested_port, 0);
    assert_eq!(run.polls, 1);
    assert_eq!(run.waits, vec![100, 100]);
    assert_eq!(registry.pid_of(&"w1".to_string()), Some(4242));
    assert_eq!(store.get(&"w1".to_string()).unwrap().pid, Some(4242));
}

#[test]
fn start_keeps_given_upstream_port_and_profile() {
    let policy = PollPolicy::for_platform(Platform::Windows);
    let (s, action) = StartSession::start(
        "w2".to_string(),
        Some("socks5://up:1080".to_string()),
        Some(8080),
        Some("profile-7".to_string()),
        policy,
    );
    assert_eq!(s.phase, StartPhase::SavingInitial);
    match action {
        StartAction::SaveRecord { record } => {
            assert_eq!(record.upstream_url, "socks5://up:1080");
            assert_eq!(record.requested_port, 8080);
            assert_eq!(record.profile_id, Some("profile-7".to_string()));
            assert_eq!(record.pid, None);
            assert_eq!(record.local_port, None);
            assert_eq!(record.local_url, None);
        }
        other => panic!("unexpected first action {:?}", other),
    }
}

#[test]
fn start_times_out_with_last_ten_log_lines() {
    let mut store = ConfigStore::new();
    let mut registry = Registry::new();
    let mut m = mocks();
    m.publish_after = None;
    let lines: Vec<String> = (1..=15).map(|i| format!("line {}", i)).collect();
    m.log = Some(lines.join("\n"));
    let run = drive(&mut store, &mut registry, "slow-worker", &m);
    assert_eq!(run.polls, 80);
    assert_eq!(run.log_file.as_deref(), Some("foxia-proxy-slow-worker.log"));
    match run.outcome {
        Err(SupervisorError::ReadinessTimeout { id, message }) => {
            assert_eq!(id, "slow-worker");
            assert!(message.contains("slow-worker"));
            let expected_tail = lines[5..].join("\n");
            assert!(message.contains(&format!(
                "\n--- Last 10 lines of worker log ---\n{}\n--- End of log ---",
                expected_tail
            )));
            assert!(!message.contains("line 5\n"));
            assert_eq!(
                message,
                format!(
                    "Proxy worker failed to start in time after 80 attempts. Config: id=slow-worker, local_url=none, local_port=none, pid=4242, process_running=true\n--- Last 10 lines of worker log ---\n{}\n--- End of log ---",
                    expected_tail
                )
            );
        }
        other => panic!("expected a readiness timeout, got {:?}", other),
    }
    // The worker is left running and registered; its record stays.
    assert_eq!(registry.pid_of(&"slow-worker".to_string()), Some(4242));
    assert!(store.get(&"slow-worker".to_string()).is_some());
}

#[test]
fn start_times_out_when_probe_never_connects() {
    let mut store = ConfigStore::new();
    let mut registry = Registry::new();
    let mut m = mocks();
    m.probe_ok = false;
    m.alive = false;
    let run = drive(&mut store, &mut registry, "w3", &m);
    assert_eq!(run.polls, 80);
    match run.outcome {
        Err(SupervisorError::ReadinessTimeout { message, .. }) => {
            assert_eq!(
                message,
                "Proxy worker failed to start in time after 80 attempts. Config: id=w3, local_url=http://127.0.0.1:51234, local_port=51234, pid=4242, process_running=false (log file not found at /tmp/missing.log)"
            );
        }
        other => panic!("expected a readiness timeout, got {:?}", other),
    }
}

#[test]
fn start_timeout_reports_missing_record() {
    let policy = PollPolicy { max_attempts: 1, ..PollPolicy::for_platform(Platform::Unix) };
    let (mut s, _) = StartSession::start("gone".to_string(), None, None, None, policy);
    let mut registry = Registry::new();
    let _ = s.on_saved(Ok(()));
    let _ = s.on_spawned(&mut registry, Ok(7));
    let _ = s.on_saved(Ok(()));
    let _ = s.on_waited();
    let _ = s.on_waited();
    let a = s.on_fetched(None);
    assert!(matches!(a, StartAction::FetchRecord { .. }));
    assert_eq!(s.phase, StartPhase::FinalFetch);
    match s.on_fetched(None) {
        StartAction::ReadLog { file_name } => assert_eq!(file_name, "foxia-proxy-gone.log"),
        other => panic!("unexpected {:?}", other),
    }
    let lines: Vec<String> = (1..=15).map(|i| format!("entry {:02}", i)).collect();
    match s.on_log(WorkerLog::from_text(&lines.join("\n"))) {
        StartAction::Finish { outcome: Err(SupervisorError::ReadinessTimeout { id, message }) } => {
            assert_eq!(id, "gone");
            assert_eq!(
                message,
                format!(
                    "Proxy worker failed to start in time. Config not found for id: gone\n--- Last 10 lines of worker log ---\n{}\n--- End of log ---",
                    lines[5..].join("\n")
                )
            );
            for early in &lines[..5] {
                assert!(!message.contains(early.as_str()));
            }
        }
        other => panic!("unexpected {:?}", other),
    }
}

#[test]
fn start_timeout_missing_record_and_missing_log() {
    let policy = PollPolicy { max_attempts: 1, ..PollPolicy::for_platform(Platform::Unix) };
    let (mut s, _) = StartSession::start("g2".to_string(), None, None, None, policy);
    let mut registry = Registry::new();
    let _ = s.on_saved(Ok(()));
    let _ = s.on_spawned(&mut registry, Ok(7));
    let _ = s.on_saved(Ok(()));
    let _ = s.on_waited();
    let _ = s.on_waited();
    let _ = s.on_fetched(None);
    let _ = s.on_fetched(None);
    match s.on_log(WorkerLog::Missing { path: "/tmp/foxia-proxy-g2.log".to_string() }) {
        StartAction::Finish { outcome: Err(SupervisorError::ReadinessTimeout { message, .. }) } => {
            assert_eq!(
                message,
                "Proxy worker failed to start in time. Config not found for id: g2 (log file not found at /tmp/foxia-proxy-g2.log)"
            );
        }
        other => panic!("unexpected {:?}", other),
    }
}

#[test]
fn start_spawn_failure_registers_nothing() {
    let mut store = ConfigStore::new();
    let mut registry = Registry::new();
    let mut m = mocks();
    m.spawn = Err("permission denied".to_string());
    let run = drive(&mut store, &mut registry, "w4", &m);
    match run.outcome {
        Err(e @ SupervisorError::SpawnFailure { .. }) => {
            assert_eq!(e.message(), "Failed to spawn proxy worker: permission denied");
        }
        other => panic!("expected a spawn failure, got {:?}", other),
    }
    assert_eq!(registry.len(), 0);
    // The record stays for inspection, without a process id.
    assert_eq!(store.get(&"w4".to_string()).unwrap().pid, None);
}

#[test]
fn start_store_failure_is_reported() {
    let mut store = ConfigStore::new();
    let mut registry = Registry::new();
    let mut m = mocks();
    m.save_fails = true;
    let run = drive(&mut store, &mut registry, "w5", &m);
    match run.outcome {
        Err(e @ SupervisorError::ConfigIoFailure { .. }) => {
            assert_eq!(e.message(), "Proxy config store failure: disk full");
        }
        other => panic!("expected a store failure, got {:?}", other),
    }
}

#[test]
fn start_never_succeeds_without_published_url() {
    // A record with a port but an empty URL is not ready, even if a probe would connect.
    let mut store = ConfigStore::new();
    let mut registry = Registry::new();
    let policy = PollPolicy { max_attempts: 3, ..PollPolicy::for_platform(Platform::Unix) };
    let (mut s, mut action) = StartSession::start("w6".to_string(), None, None, None, policy);
    let mut probes = 0;
    loop {
        action = match action {
            StartAction::SaveRecord { record } => {
                store.save(record);
                s.on_saved(Ok(()))
            }
            StartAction::Spawn { .. } => s.on_spawned(&mut registry, Ok(11)),
            StartAction::Wait { .. } => s.on_waited(),
            StartAction::FetchRecord { id } => {
                let mut rec = store.get(&id).unwrap();
                rec.local_port = Some(4000);
                rec.local_url = Some(String::new());
                s.on_fetched(Some(rec))
            }
            StartAction::Probe { .. } => {
                probes += 1;
                s.on_probed(true)
            }
            StartAction::CheckAlive { .. } => s.on_alive(true),
            StartAction::ReadLog { .. } => s.on_log(WorkerLog::Unreadable { reason: "denied".to_string() }),
            StartAction::Finish { outcome } => {
                assert_eq!(probes, 0);
                match outcome {
                    Err(SupervisorError::ReadinessTimeout { message, .. }) => {
                        assert!(message.ends_with(" (failed to read log file: denied)"));
                    }
                    other => panic!("unexpected {:?}", other),
                }
                break;
            }
        };
    }
}
