//! Host-side core of a capability-based system interface for sandboxed
//! guests: a typed resource table with opaque handles, a pollable/readiness
//! abstraction, backpressure-aware byte streams, the outgoing HTTP request
//! pipeline state machine, and pollable address resolution.
//!
//! Guest calls never suspend: every long-running operation returns a handle,
//! and progress is observed by subscribing to a pollable. Real I/O (sockets,
//! TLS, timers, the blocking resolver pool) lives outside this crate; the
//! functions here hold all the state transitions and classification rules,
//! and take the outcome of each outside step as a plain argument.

pub mod clocks;
pub mod errors;
pub mod host_io;
pub mod http_types;
pub mod ip_name_lookup;
pub mod poll;
pub mod send_request;
pub mod streams;
pub mod table;
