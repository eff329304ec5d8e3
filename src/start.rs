//! The start protocol: persist a record, launch the worker, then poll until
//! the worker has published its port and a socket probe to it succeeds.
//!
//! `StartSession` decides; its driver performs each `StartAction` it is
//! handed and reports the outcome back through the matching `on_*` method.
use vstd::prelude::*;
use crate::diagnostics::{
    missing_record_message, missing_record_report, timeout_message, timeout_report, WorkerLog,
};
use crate::error::SupervisorError;
use crate::platform::{log_file_name_of, worker_log_file_name, PollPolicy};
use crate::record::{is_ready, probe_port_of, ProxyConfig, DIRECT_UPSTREAM};
use crate::registry::Registry;

verus! {

/// Where a start stands: which outcome it waits for.
#[derive(Debug, Clone, Copy, PartialEq, Eq, Structural)]
pub enum StartPhase {
    /// The initial record is being saved.
    SavingInitial,
    /// The worker is being launched.
    Spawning,
    /// The record with the process id is being saved.
    SavingPid,
    /// The pause after the launch is running.
    Settling,
    /// The pause before the next poll is running.
    Waiting,
    /// The record is being read for a poll.
    Fetching,
    /// The advertised port is being probed.
    Probing,
    /// The budget is spent; the record is read one last time.
    FinalFetch,
    /// It is being checked whether the process still runs.
    CheckingAlive,
    /// The worker's log is being read.
    ReadingLog,
    /// The start has its outcome.
    Finished,
}

/// What the driver is asked to do next.
#[derive(Debug)]
pub enum StartAction {
    /// Save `record` in the configuration store (replacing any earlier one).
    SaveRecord { record: ProxyConfig },
    /// Launch the worker of `id`, detached (see `platform`).
    Spawn { id: String },
    /// Sleep without blocking other tasks.
    Wait { ms: u64 },
    /// Read the record of `id` from the store.
    FetchRecord { id: String },
    /// Try a TCP connection to `127.0.0.1:port`, giving up after `timeout_ms`.
    Probe { port: u16, timeout_ms: u64 },
    /// Tell whether process `pid` is alive.
    CheckAlive { pid: u32 },
    /// Read the log file called `file_name` in the temporary-files directory.
    ReadLog { file_name: String },
    /// The start is over with `outcome`.
    Finish { outcome: Result<ProxyConfig, SupervisorError> },
}

/// A successful outcome only ever carries a ready record.
pub open spec fn success_is_ready(a: StartAction) -> bool {
    match a {
        StartAction::Finish { outcome: Ok(r) } => is_ready(r),
        _ => true,
    }
}

/// `a` ends the start of `id` with a readiness timeout reported as `text`.
pub open spec fn is_timeout(a: StartAction, id: String, text: Seq<char>) -> bool {
    a matches StartAction::Finish {
        outcome: Err(SupervisorError::ReadinessTimeout { id: i, message }),
    } && i == id && message@ == text
}

/// `a` asks for the log of worker `id`.
pub open spec fn is_log_read(a: StartAction, id: Seq<char>) -> bool {
    a matches StartAction::ReadLog { file_name } && file_name@ == log_file_name_of(id)
}

/// `r` is the record a start of `id` creates: direct upstream unless one is
/// given, port 0 (any free port) unless one is asked for, nothing bound yet.
pub open spec fn is_initial_record(
    r: ProxyConfig,
    id: String,
    upstream: Option<String>,
    port: Option<u16>,
    profile_id: Option<String>,
) -> bool {
    &&& r.id == id
    &&& r.upstream_url@ == match upstream {
        Some(u) => u@,
        None => DIRECT_UPSTREAM@,
    }
    &&& r.requested_port == match port {
        Some(p) => p,
        None => 0u16,
    }
    &&& r.local_port is None
    &&& r.local_url is None
    &&& r.pid is None
    &&& r.profile_id == profile_id
}

/// One start in progress.
#[derive(Debug)]
pub struct StartSession {
    /// Identifier of the worker being started.
    pub id: String,
    /// Timing and budget.
    pub policy: PollPolicy,
    /// The outcome being waited for.
    pub phase: StartPhase,
    /// Polls made that did not end in readiness.
    pub attempts: u32,
    /// The record as the supervisor last wrote or read it.
    pub record: ProxyConfig,
    /// Whether the process was found alive, once checked.
    pub process_running: bool,
    /// Whether the record was gone when it was read after the budget ran out.
    pub record_gone: bool,
}

impl StartSession {
    pub open spec fn wf(&self) -> bool {
        &&& self.record.id@ == self.id@
        &&& (self.phase == StartPhase::Waiting || self.phase == StartPhase::Fetching
            || self.phase == StartPhase::Probing) ==> (self.attempts == 0 || self.attempts
            < self.policy.max_attempts)
        &&& self.phase == StartPhase::Probing ==> is_ready(self.record)
        &&& (self.phase == StartPhase::SavingInitial || self.phase == StartPhase::Spawning
            || self.phase == StartPhase::SavingPid || self.phase == StartPhase::Settling)
            ==> self.attempts == 0
    }

    /// Begins the start of worker `id`: the first action saves its initial
    /// record, before anything is launched.
    pub fn start(
        id: String,
        upstream: Option<String>,
        port: Option<u16>,
        profile_id: Option<String>,
        policy: PollPolicy,
    ) -> (r: (StartSession, StartAction))
        ensures
            r.0.wf(),
            r.0.id == id,
            r.0.policy == policy,
            r.0.phase == StartPhase::SavingInitial,
            r.0.attempts == 0,
            is_initial_record(r.0.record, id, upstream, port, profile_id),
            r.1 == (StartAction::SaveRecord { record: r.0.record }),
    {
        let upstream_url = match upstream {
            Some(u) => u,
            None => String::from_str(DIRECT_UPSTREAM),
        };
        let requested_port = match port {
            Some(p) => p,
            None => 0,
        };
        let record = ProxyConfig::new(id.clone(), upstream_url, requested_port).with_profile_id(
            profile_id,
        );
        let action = StartAction::SaveRecord { record: record.duplicate() };
        let session = StartSession {
            id,
            policy,
            phase: StartPhase::SavingInitial,
            attempts: 0,
            record,
            process_running: false,
            record_gone: false,
        };
        (session, action)
    }

    /// A save of the record is done, or failed with `reason`. A failure ends
    /// the start; after the initial record the worker is launched next, after
    /// the record with the process id the settling pause begins.
    pub fn on_saved(&mut self, outcome: Result<(), String>) -> (r: StartAction)
        requires
            old(self).wf(),
            old(self).phase == StartPhase::SavingInitial || old(self).phase
                == StartPhase::SavingPid,
        ensures
            final(self).wf(),
            success_is_ready(r),
            final(self).id == old(self).id,
            final(self).record == old(self).record,
            final(self).attempts == old(self).attempts,
            final(self).policy == old(self).policy,
            match outcome {
                Err(reason) => final(self).phase == StartPhase::Finished && r == (StartAction::Finish {
                    outcome: Err(SupervisorError::ConfigIoFailure { reason }),
                }),
                Ok(_) => if old(self).phase == StartPhase::SavingInitial {
                    final(self).phase == StartPhase::Spawning && r == (StartAction::Spawn {
                        id: old(self).id,
                    })
                } else {
                    final(self).phase == StartPhase::Settling && r == (StartAction::Wait {
                        ms: old(self).policy.initial_delay_ms,
                    })
                },
            },
    {
        match outcome {
            Err(reason) => {
                self.phase = StartPhase::Finished;
                StartAction::Finish { outcome: Err(SupervisorError::ConfigIoFailure { reason }) }
            },
            Ok(_) => {
                if self.phase == StartPhase::SavingInitial {
                    self.phase = StartPhase::Spawning;
                    StartAction::Spawn { id: self.id.clone() }
                } else {
                    self.phase = StartPhase::Settling;
                    StartAction::Wait { ms: self.policy.initial_delay_ms }
                }
            },
        }
    }

    /// The launch gave process id `pid`, or failed with `reason`. On success
    /// the id is cached in `registry` and the record with it is saved; on
    /// failure the start ends and nothing is cached.
    pub fn on_spawned(&mut self, registry: &mut Registry, outcome: Result<u32, String>) -> (r:
        StartAction)
        requires
            old(self).wf(),
            old(registry).wf(),
            old(self).phase == StartPhase::Spawning,
        ensures
            final(self).wf(),
            final(registry).wf(),
            success_is_ready(r),
            final(self).id == old(self).id,
            final(self).attempts == old(self).attempts,
            final(self).policy == old(self).policy,
            match outcome {
                Err(reason) => final(self).phase == StartPhase::Finished
                    && final(self).record == old(self).record
                    && final(registry)@ == old(registry)@
                    && r == (StartAction::Finish {
                    outcome: Err(SupervisorError::SpawnFailure { reason }),
                }),
                Ok(pid) => final(self).phase == StartPhase::SavingPid
                    && final(self).record == (ProxyConfig { pid: Some(pid), ..old(self).record })
                    && final(registry)@ == old(registry)@.insert(old(self).id@, pid)
                    && r == (StartAction::SaveRecord { record: final(self).record }),
            },
    {
        match outcome {
            Err(reason) => {
                self.phase = StartPhase::Finished;
                StartAction::Finish { outcome: Err(SupervisorError::SpawnFailure { reason }) }
            },
            Ok(pid) => {
                registry.record(self.id.clone(), pid);
                self.record = self.record.with_pid(pid);
                self.phase = StartPhase::SavingPid;
                StartAction::SaveRecord { record: self.record.duplicate() }
            },
        }
    }

    /// A pause is over: after the settling pause comes the pause before the
    /// first poll, after that pause the record is read.
    pub fn on_waited(&mut self) -> (r: StartAction)
        requires
            old(self).wf(),
            old(self).phase == StartPhase::Settling || old(self).phase == StartPhase::Waiting,
        ensures
            final(self).wf(),
            success_is_ready(r),
            final(self).id == old(self).id,
            final(self).record == old(self).record,
            final(self).attempts == old(self).attempts,
            final(self).policy == old(self).policy,
            old(self).phase == StartPhase::Settling ==> final(self).phase == StartPhase::Waiting
                && r == (StartAction::Wait { ms: old(self).policy.interval_ms }),
            old(self).phase == StartPhase::Waiting ==> final(self).phase == StartPhase::Fetching
                && r == (StartAction::FetchRecord { id: old(self).id }),
    {
        if self.phase == StartPhase::Settling {
            self.phase = StartPhase::Waiting;
            StartAction::Wait { ms: self.policy.interval_ms }
        } else {
            self.phase = StartPhase::Fetching;
            StartAction::FetchRecord { id: self.id.clone() }
        }
    }

    /// Counts a poll that did not end in readiness: once the budget is spent
    /// the record is read a last time, else the next pause begins.
    fn count_attempt(&mut self) -> (r: StartAction)
        requires
            old(self).wf(),
            old(self).phase == StartPhase::Fetching || old(self).phase == StartPhase::Probing,
        ensures
            final(self).wf(),
            final(self).id == old(self).id,
            final(self).record == old(self).record,
            final(self).policy == old(self).policy,
            final(self).attempts == old(self).attempts + 1,
            final(self).attempts >= old(self).policy.max_attempts ==> final(self).phase
                == StartPhase::FinalFetch && r == (StartAction::FetchRecord { id: old(self).id }),
            final(self).attempts < old(self).policy.max_attempts ==> final(self).phase
                == StartPhase::Waiting && r == (StartAction::Wait {
                ms: old(self).policy.interval_ms,
            }),
    {
        self.attempts = self.attempts + 1;
        if self.attempts >= self.policy.max_attempts {
            self.phase = StartPhase::FinalFetch;
            StartAction::FetchRecord { id: self.id.clone() }
        } else {
            self.phase = StartPhase::Waiting;
            StartAction::Wait { ms: self.policy.interval_ms }
        }
    }

    /// The store gave `fetched` for the worker's identifier.
    ///
    /// While polling, a ready record is probed at its port; anything else
    /// counts as a poll without readiness. After the budget is spent, a
    /// record with a process id leads to a liveness check; a missing record,
    /// or one without a process id, straight to the log.
    pub fn on_fetched(&mut self, fetched: Option<ProxyConfig>) -> (r: StartAction)
        requires
            old(self).wf(),
            old(self).phase == StartPhase::Fetching || old(self).phase == StartPhase::FinalFetch,
            fetched matches Some(c) ==> c.id@ == old(self).id@,
        ensures
            final(self).wf(),
            success_is_ready(r),
            final(self).id == old(self).id,
            final(self).policy == old(self).policy,
            old(self).phase == StartPhase::Fetching ==> match fetched {
                Some(c) if probe_port_of(c) is Some => final(self).phase == StartPhase::Probing
                    && final(self).record == c
                    && final(self).attempts == old(self).attempts
                    && r == (StartAction::Probe {
                    port: probe_port_of(c)->0,
                    timeout_ms: old(self).policy.probe_timeout_ms,
                }),
                _ => final(self).record == old(self).record && final(self).attempts
                    == old(self).attempts + 1 && if final(self).attempts
                    >= old(self).policy.max_attempts {
                    final(self).phase == StartPhase::FinalFetch && r == (StartAction::FetchRecord {
                        id: old(self).id,
                    })
                } else {
                    final(self).phase == StartPhase::Waiting && r == (StartAction::Wait {
                        ms: old(self).policy.interval_ms,
                    })
                },
            },
            old(self).phase == StartPhase::FinalFetch ==> final(self).attempts
                == old(self).attempts && match fetched {
                None => final(self).phase == StartPhase::ReadingLog && final(self).record_gone
                    && final(self).record == old(self).record
                    && is_log_read(r, old(self).id@),
                Some(c) => final(self).record == c && !final(self).record_gone && match c.pid {
                    Some(pid) => final(self).phase == StartPhase::CheckingAlive && r
                        == (StartAction::CheckAlive { pid }),
                    None => final(self).phase == StartPhase::ReadingLog
                        && !final(self).process_running && is_log_read(r, old(self).id@),
                },
            },
    {
        if self.phase == StartPhase::Fetching {
            match fetched {
                Some(c) => {
                    match c.probe_port() {
                        Some(port) => {
                            self.record = c;
                            self.phase = StartPhase::Probing;
                            StartAction::Probe { port, timeout_ms: self.policy.probe_timeout_ms }
                        },
                        None => self.count_attempt(),
                    }
                },
                None => self.count_attempt(),
            }
        } else {
            match fetched {
                None => {
                    self.record_gone = true;
                    self.process_running = false;
                    self.phase = StartPhase::ReadingLog;
                    StartAction::ReadLog { file_name: worker_log_file_name(&self.id) }
                },
                Some(c) => {
                    let pid = c.pid;
                    self.record = c;
                    self.record_gone = false;
                    match pid {
                        Some(pid) => {
                            self.phase = StartPhase::CheckingAlive;
                            StartAction::CheckAlive { pid }
                        },
                        None => {
                            self.process_running = false;
                            self.phase = StartPhase::ReadingLog;
                            StartAction::ReadLog { file_name: worker_log_file_name(&self.id) }
                        },
                    }
                },
            }
        }
    }

    /// The probe of the advertised port connected, or not. A connection ends
    /// the start with the record that advertised the port; otherwise the poll
    /// counts as one without readiness.
    pub fn on_probed(&mut self, reachable: bool) -> (r: StartAction)
        requires
            old(self).wf(),
            old(self).phase == StartPhase::Probing,
        ensures
            final(self).wf(),
            success_is_ready(r),
            final(self).id == old(self).id,
            final(self).record == old(self).record,
            final(self).policy == old(self).policy,
            reachable ==> final(self).phase == StartPhase::Finished && final(self).attempts
                == old(self).attempts && r == (StartAction::Finish {
                outcome: Ok(old(self).record),
            }),
            !reachable ==> final(self).attempts == old(self).attempts + 1 && if final(self).attempts
                >= old(self).policy.max_attempts {
                final(self).phase == StartPhase::FinalFetch && r == (StartAction::FetchRecord {
                    id: old(self).id,
                })
            } else {
                final(self).phase == StartPhase::Waiting && r == (StartAction::Wait {
                    ms: old(self).policy.interval_ms,
                })
            },
    {
        if reachable {
            self.phase = StartPhase::Finished;
            StartAction::Finish { outcome: Ok(self.record.duplicate()) }
        } else {
            self.count_attempt()
        }
    }

    /// Whether the worker's process is still alive; the log is read next.
    pub fn on_alive(&mut self, alive: bool) -> (r: StartAction)
        requires
            old(self).wf(),
            old(self).phase == StartPhase::CheckingAlive,
        ensures
            final(self).wf(),
            success_is_ready(r),
            final(self).id == old(self).id,
            final(self).record == old(self).record,
            final(self).attempts == old(self).attempts,
            final(self).policy == old(self).policy,
            final(self).phase == StartPhase::ReadingLog,
            final(self).process_running == alive,
            final(self).record_gone == old(self).record_gone,
            is_log_read(r, old(self).id@),
    {
        self.process_running = alive;
        self.phase = StartPhase::ReadingLog;
        StartAction::ReadLog { file_name: worker_log_file_name(&self.id) }
    }

    /// The worker's log, as it could be read; the start ends with a timeout
    /// whose report names the worker and quotes the end of the log, after the
    /// record as last read or the news that it was gone.
    pub fn on_log(&mut self, log: WorkerLog) -> (r: StartAction)
        requires
            old(self).wf(),
            old(self).phase == StartPhase::ReadingLog,
        ensures
            final(self).wf(),
            success_is_ready(r),
            final(self).id == old(self).id,
            final(self).phase == StartPhase::Finished,
            is_timeout(
                r,
                old(self).id,
                if old(self).record_gone {
                    missing_record_report(old(self).id@, log)
                } else {
                    timeout_report(
                        old(self).id@,
                        old(self).attempts as nat,
                        old(self).record,
                        old(self).process_running,
                        log,
                    )
                },
            ),
    {
        let message = if self.record_gone {
            missing_record_message(&self.id, &log)
        } else {
            timeout_message(&self.id, self.attempts, &self.record, self.process_running, &log)
        };
        self.phase = StartPhase::Finished;
        StartAction::Finish {
            outcome: Err(SupervisorError::ReadinessTimeout { id: self.id.clone(), message }),
        }
    }
}

} // verus!
