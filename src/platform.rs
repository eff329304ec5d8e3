//! What differs between the platforms: timing budgets, how a worker is
//! launched and detached, and how it is terminated.
use vstd::prelude::*;
use crate::text::{decimal, decimal_text};

verus! {

/// The two families of operating systems the supervisor runs on.
#[derive(Debug, Clone, Copy, PartialEq, Eq, Structural)]
pub enum Platform {
    Unix,
    Windows,
}

/// Timing of the readiness poll and of the stop grace period, in milliseconds.
#[derive(Debug, Clone, Copy, PartialEq, Eq, Structural)]
pub struct PollPolicy {
    /// Pause after the spawn, before the first poll.
    pub initial_delay_ms: u64,
    /// Pause before each poll.
    pub interval_ms: u64,
    /// Number of polls before the start is given up.
    pub max_attempts: u32,
    /// Time allowed to each socket probe.
    pub probe_timeout_ms: u64,
    /// Pause between the termination signal and the deletion of the record.
    pub stop_grace_ms: u64,
}

impl PollPolicy {
    /// The defaults of `platform`: Windows gets a longer initial delay and a
    /// larger budget, for its slower process start.
    pub fn for_platform(platform: Platform) -> (r: PollPolicy)
        ensures
            r.interval_ms == 100,
            r.probe_timeout_ms == 200,
            r.stop_grace_ms == 500,
            platform == Platform::Unix ==> r.initial_delay_ms == 100 && r.max_attempts == 80,
            platform == Platform::Windows ==> r.initial_delay_ms == 500 && r.max_attempts == 150,
    {
        match platform {
            Platform::Unix => PollPolicy {
                initial_delay_ms: 100,
                interval_ms: 100,
                max_attempts: 80,
                probe_timeout_ms: 200,
                stop_grace_ms: 500,
            },
            Platform::Windows => PollPolicy {
                initial_delay_ms: 500,
                interval_ms: 100,
                max_attempts: 150,
                probe_timeout_ms: 200,
                stop_grace_ms: 500,
            },
        }
    }
}

/// Subcommand under which the executable runs as a proxy worker.
pub const WORKER_SUBCOMMAND: &'static str = "proxy-worker";

/// Windows creation flag: do not inherit the parent's console.
pub const DETACHED_PROCESS: u32 = 0x0000_0008;

/// Windows creation flag: a process group of its own.
pub const CREATE_NEW_PROCESS_GROUP: u32 = 0x0000_0200;

/// Windows creation flag: no visible console window.
pub const CREATE_NO_WINDOW: u32 = 0x0800_0000;

/// Nice value tried first for a Unix worker.
pub const STRONG_NICE: i32 = -10;

/// Nice value tried when the first one is refused.
pub const MILD_NICE: i32 = -5;

/// The arguments that start the executable as the worker of `id`.
pub fn worker_args(id: &String) -> (r: Vec<String>)
    ensures
        r@.len() == 4,
        r@[0]@ == WORKER_SUBCOMMAND@,
        r@[1]@ == "start"@,
        r@[2]@ == "--id"@,
        r@[3]@ == id@,
{
    let mut r: Vec<String> = Vec::new();
    r.push(String::from_str(WORKER_SUBCOMMAND));
    r.push(String::from_str("start"));
    r.push(String::from_str("--id"));
    r.push(id.clone());
    r
}

/// The name of the file that receives the standard error of the worker `id`.
pub open spec fn log_file_name_of(id: Seq<char>) -> Seq<char> {
    "foxia-proxy-"@ + id + ".log"@
}

/// The log file name of worker `id`, the same on every call.
pub fn worker_log_file_name(id: &String) -> (r: String)
    ensures
        r@ == log_file_name_of(id@),
{
    let mut r = String::from_str("foxia-proxy-");
    r.append(id.as_str());
    r.append(".log");
    r
}

/// The creation flags of a Windows worker: detached from the console, in a
/// new process group, without a window.
pub fn windows_creation_flags() -> (r: u32)
    ensures
        r == DETACHED_PROCESS | CREATE_NEW_PROCESS_GROUP | CREATE_NO_WINDOW,
{
    DETACHED_PROCESS | CREATE_NEW_PROCESS_GROUP | CREATE_NO_WINDOW
}

/// The nice value for try number `attempt` (from 0) at raising a Unix
/// worker's priority; `None` once both have been refused, and the worker
/// then runs at the priority it has.
pub fn priority_attempt(attempt: u32) -> (r: Option<i32>)
    ensures
        attempt == 0 ==> r == Some(STRONG_NICE),
        attempt == 1 ==> r == Some(MILD_NICE),
        attempt >= 2 ==> r is None,
{
    if attempt == 0 {
        Some(STRONG_NICE)
    } else if attempt == 1 {
        Some(MILD_NICE)
    } else {
        None
    }
}

/// A command line: program and arguments.
#[derive(Debug)]
pub struct CommandLine {
    pub program: String,
    pub args: Vec<String>,
}

/// The command that terminates process `pid`: `kill -TERM` on Unix, a
/// forced `taskkill` on Windows, which has no portable graceful signal.
pub fn termination_command(platform: Platform, pid: u32) -> (r: CommandLine)
    ensures
        platform == Platform::Unix ==> r.program@ == "kill"@ && r.args@.len() == 2
            && r.args@[0]@ == "-TERM"@ && r.args@[1]@ == decimal(pid as nat),
        platform == Platform::Windows ==> r.program@ == "taskkill"@ && r.args@.len() == 3
            && r.args@[0]@ == "/F"@ && r.args@[1]@ == "/PID"@ && r.args@[2]@ == decimal(
            pid as nat,
        ),
{
    let mut args: Vec<String> = Vec::new();
    match platform {
        Platform::Unix => {
            args.push(String::from_str("-TERM"));
            args.push(decimal_text(pid as u64));
            CommandLine { program: String::from_str("kill"), args }
        },
        Platform::Windows => {
            args.push(String::from_str("/F"));
            args.push(String::from_str("/PID"));
            args.push(decimal_text(pid as u64));
            CommandLine { program: String::from_str("taskkill"), args }
        },
    }
}

/// The file name of the background daemon's executable.
pub fn daemon_binary_name(platform: Platform) -> (r: &'static str)
    ensures
        platform == Platform::Unix ==> r@ == "foxia-daemon"@,
        platform == Platform::Windows ==> r@ == "foxia-daemon.exe"@,
{
    match platform {
        Platform::Unix => "foxia-daemon",
        Platform::Windows => "foxia-daemon.exe",
    }
}

} // verus!
