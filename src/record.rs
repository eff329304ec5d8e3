//! The persisted record of one proxy worker.
use vstd::prelude::*;

verus! {

/// Upstream value of a worker that forwards directly, with no upstream proxy.
pub const DIRECT_UPSTREAM: &'static str = "DIRECT";

/// The record kept for one worker in the configuration store.
///
/// The supervisor creates it before the spawn and later adds the process id;
/// the worker fills in `local_port` and `local_url` once its listening socket
/// is bound.
#[derive(Debug)]
pub struct ProxyConfig {
    /// Opaque identifier, unique among the records present in the store.
    pub id: String,
    /// Upstream target, or `DIRECT_UPSTREAM`.
    pub upstream_url: String,
    /// Port asked for; 0 lets the operating system pick one.
    pub requested_port: u16,
    /// Port the worker bound, once it has bound one.
    pub local_port: Option<u16>,
    /// URL the worker serves on, once it has bound its port.
    pub local_url: Option<String>,
    /// Process id of the spawned worker.
    pub pid: Option<u32>,
    /// Optional calling context (a browser profile), opaque here.
    pub profile_id: Option<String>,
}

/// A record is ready when the worker has written both its bound port and a
/// non-empty URL.
pub open spec fn is_ready(c: ProxyConfig) -> bool {
    &&& c.local_port is Some
    &&& c.local_url is Some
    &&& c.local_url->0@.len() > 0
}

/// The port a readiness probe should connect to: the bound port of a ready record.
pub open spec fn probe_port_of(c: ProxyConfig) -> Option<u16> {
    if is_ready(c) {
        c.local_port
    } else {
        None
    }
}

/// A copy of an optional text.
pub fn copy_text(s: &Option<String>) -> (r: Option<String>)
    ensures
        r == *s,
{
    match s {
        Some(t) => Some(t.clone()),
        None => None,
    }
}

impl ProxyConfig {
    /// A fresh record: nothing bound, no process id, no profile.
    pub fn new(id: String, upstream_url: String, requested_port: u16) -> (r: ProxyConfig)
        ensures
            r.id == id,
            r.upstream_url == upstream_url,
            r.requested_port == requested_port,
            r.local_port is None,
            r.local_url is None,
            r.pid is None,
            r.profile_id is None,
    {
        ProxyConfig {
            id,
            upstream_url,
            requested_port,
            local_port: None,
            local_url: None,
            pid: None,
            profile_id: None,
        }
    }

    /// The same record, linked to `profile_id`.
    pub fn with_profile_id(self, profile_id: Option<String>) -> (r: ProxyConfig)
        ensures
            r == (ProxyConfig { profile_id, ..self }),
    {
        ProxyConfig { profile_id, ..self }
    }

    /// A copy of the record that carries `pid` as its process id.
    pub fn with_pid(&self, pid: u32) -> (r: ProxyConfig)
        ensures
            r == (ProxyConfig { pid: Some(pid), ..*self }),
    {
        let mut r = self.duplicate();
        r.pid = Some(pid);
        r
    }

    /// A field-for-field copy.
    pub fn duplicate(&self) -> (r: ProxyConfig)
        ensures
            r == *self,
    {
        ProxyConfig {
            id: self.id.clone(),
            upstream_url: self.upstream_url.clone(),
            requested_port: self.requested_port,
            local_port: self.local_port,
            local_url: copy_text(&self.local_url),
            pid: self.pid,
            profile_id: copy_text(&self.profile_id),
        }
    }

    /// Whether the worker has published its bound port and a non-empty URL.
    pub fn is_ready(&self) -> (r: bool)
        ensures
            r == is_ready(*self),
    {
        match (&self.local_url, self.local_port) {
            (Some(url), Some(_)) => !url.as_str().is_empty(),
            _ => false,
        }
    }

    /// The port to probe, if the record is ready.
    pub fn probe_port(&self) -> (r: Option<u16>)
        ensures
            r == probe_port_of(*self),
    {
        if self.is_ready() {
            self.local_port
        } else {
            None
        }
    }
}

} // verus!
