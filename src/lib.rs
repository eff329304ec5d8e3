//! Supervision of local proxy worker processes.
//!
//! Each worker is an independent operating-system process that binds a local
//! listening port and records it in a persisted configuration record. This
//! library holds the decisions of the supervisor: what a record holds, the
//! process-id cache, the start and stop protocols as state machines, the
//! platform policies, and the diagnostics reported when a worker does not
//! come up. Whoever runs the machines performs the actions they ask for
//! (spawning, sleeping, probing a socket, reading and writing the record
//! store) and hands the outcomes back.

pub mod diagnostics;
pub mod error;
pub mod odoo;
pub mod platform;
pub mod profile;
pub mod record;
pub mod registry;
pub mod start;
pub mod stop;
pub mod store;
pub mod table;
pub mod text;
