//! The report given when a worker does not come up in time.
use vstd::prelude::*;
use crate::record::ProxyConfig;
use crate::table::id_views;
use crate::text::{decimal, decimal_text, join_lines, joined, last_lines, last_n};

verus! {

/// How many of the last lines of a worker's log a report quotes.
pub const LOG_TAIL_LINES: usize = 10;

/// What became of reading a worker's log file.
#[derive(Debug)]
pub enum WorkerLog {
    /// No file at `path`.
    Missing { path: String },
    /// The file is there but could not be read.
    Unreadable { reason: String },
    /// The file's lines, in order.
    Lines { lines: Vec<String> },
}

/// Position of the first `\n` in `s`; `s.len()` when there is none.
pub open spec fn first_newline(s: Seq<char>) -> nat
    decreases s.len(),
{
    if s.len() == 0 {
        0
    } else if s[0] == '\n' {
        0
    } else {
        1 + first_newline(s.drop_first())
    }
}

/// A line without the `\r` of a `\r\n` ending.
pub open spec fn strip_cr(line: Seq<char>) -> Seq<char> {
    if line.len() > 0 && line.last() == '\r' {
        line.drop_last()
    } else {
        line
    }
}

/// The lines of a text: it is split at each `\n`, a `\r` right before the
/// `\n` goes with the ending, and a final line ending is optional (a bare
/// `\r` at the very end stays in the last line).
pub open spec fn text_lines(s: Seq<char>) -> Seq<Seq<char>>
    decreases s.len(),
{
    if s.len() == 0 {
        Seq::empty()
    } else {
        let i = first_newline(s);
        if i < s.len() {
            seq![strip_cr(s.subrange(0, i as int))] + text_lines(s.subrange(i + 1 as int, s.len() as int))
        } else {
            seq![s]
        }
    }
}

/// Relies on `str::lines`: the lines of the text, split at `\n` and at
/// `\r\n`, without the line endings, a final line ending being optional.
#[verifier::external_body]
fn split_lines(text: &str) -> (r: Vec<String>)
    ensures
        id_views(r@) == text_lines(text@),
{
    text.lines().map(String::from).collect()
}

impl WorkerLog {
    /// The log of a file that was read as `text`.
    pub fn from_text(text: &str) -> (r: WorkerLog)
        ensures
            r matches WorkerLog::Lines { lines } && id_views(lines@) == text_lines(text@),
    {
        WorkerLog::Lines { lines: split_lines(text) }
    }
}

pub open spec fn optional_number(n: Option<u64>) -> Seq<char> {
    match n {
        Some(v) => decimal(v as nat),
        None => "none"@,
    }
}

pub open spec fn widen_port(p: Option<u16>) -> Option<u64> {
    match p {
        Some(v) => Some(v as u64),
        None => None,
    }
}

pub open spec fn widen_pid(p: Option<u32>) -> Option<u64> {
    match p {
        Some(v) => Some(v as u64),
        None => None,
    }
}

pub open spec fn optional_text(t: Option<String>) -> Seq<char> {
    match t {
        Some(s) => s@,
        None => "none"@,
    }
}

pub open spec fn flag_text(b: bool) -> Seq<char> {
    if b { "true"@ } else { "false"@ }
}

/// The part of a report that tells about the log.
pub open spec fn log_section(log: WorkerLog) -> Seq<char> {
    match log {
        WorkerLog::Missing { path } => " (log file not found at "@ + path@ + ")"@,
        WorkerLog::Unreadable { reason } => " (failed to read log file: "@ + reason@ + ")"@,
        WorkerLog::Lines { lines } => "\n--- Last 10 lines of worker log ---\n"@
            + joined(id_views(last_n(lines@, LOG_TAIL_LINES as nat)), "\n"@)
            + "\n--- End of log ---"@,
    }
}

/// The report on worker `id` whose record was gone when its start ran out
/// of time, with the end of its log.
pub open spec fn missing_record_report(id: Seq<char>, log: WorkerLog) -> Seq<char> {
    "Proxy worker failed to start in time. Config not found for id: "@ + id + log_section(log)
}

/// The report on worker `id` that did not come up within `attempts` polls:
/// the record as last read, whether the process still runs, and the end of
/// its log.
pub open spec fn timeout_report(
    id: Seq<char>,
    attempts: nat,
    record: ProxyConfig,
    process_running: bool,
    log: WorkerLog,
) -> Seq<char> {
    "Proxy worker failed to start in time after "@ + decimal(attempts)
        + " attempts. Config: id="@ + id
        + ", local_url="@ + optional_text(record.local_url)
        + ", local_port="@ + optional_number(widen_port(record.local_port))
        + ", pid="@ + optional_number(widen_pid(record.pid))
        + ", process_running="@ + flag_text(process_running)
        + log_section(log)
}

fn append_optional_number(r: &mut String, n: Option<u64>)
    ensures
        final(r)@ == old(r)@ + optional_number(n),
{
    match n {
        Some(v) => {
            let d = decimal_text(v);
            r.append(d.as_str());
        },
        None => r.append("none"),
    }
}

fn append_log_section(r: &mut String, log: &WorkerLog)
    ensures
        final(r)@ == old(r)@ + log_section(*log),
{
    match log {
        WorkerLog::Missing { path } => {
            r.append(" (log file not found at ");
            r.append(path.as_str());
            r.append(")");
        },
        WorkerLog::Unreadable { reason } => {
            r.append(" (failed to read log file: ");
            r.append(reason.as_str());
            r.append(")");
        },
        WorkerLog::Lines { lines } => {
            let tail = last_lines(lines, LOG_TAIL_LINES);
            let body = join_lines(&tail, "\n");
            r.append("\n--- Last 10 lines of worker log ---\n");
            r.append(body.as_str());
            r.append("\n--- End of log ---");
        },
    }
}

/// The report on worker `id` whose record was gone at the end of its start.
pub fn missing_record_message(id: &String, log: &WorkerLog) -> (r: String)
    ensures
        r@ == missing_record_report(id@, *log),
{
    let mut r = String::from_str("Proxy worker failed to start in time. Config not found for id: ");
    r.append(id.as_str());
    append_log_section(&mut r, log);
    r
}

/// The report on worker `id` after `attempts` polls without readiness.
pub fn timeout_message(
    id: &String,
    attempts: u32,
    record: &ProxyConfig,
    process_running: bool,
    log: &WorkerLog,
) -> (r: String)
    ensures
        r@ == timeout_report(id@, attempts as nat, *record, process_running, *log),
{
    let c = record;
    let mut r = String::from_str("Proxy worker failed to start in time after ");
    let a = decimal_text(attempts as u64);
    r.append(a.as_str());
    r.append(" attempts. Config: id=");
    r.append(id.as_str());
    r.append(", local_url=");
    match &c.local_url {
        Some(u) => r.append(u.as_str()),
        None => r.append("none"),
    }
    r.append(", local_port=");
    append_optional_number(&mut r, match c.local_port { Some(p) => Some(p as u64), None => None });
    r.append(", pid=");
    append_optional_number(&mut r, match c.pid { Some(p) => Some(p as u64), None => None });
    r.append(", process_running=");
    if process_running {
        r.append("true");
    } else {
        r.append("false");
    }
    append_log_section(&mut r, log);
    r
}

} // verus!
