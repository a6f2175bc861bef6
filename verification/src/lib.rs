//! Orchestration core of a QUIC interoperability test harness.
//!
//! Given a named test scenario, this library decides how many transport
//! connections a client opens, how the requested resources are grouped onto
//! them, how a 0-RTT attempt is resolved, how the server routes each incoming
//! request under its served root, and how per-stream outcomes are collected
//! into a process-level result.  The transport handshake, TLS configuration,
//! file I/O and logging stay outside, in the unverified shell around this
//! crate.

pub mod aggregate;
pub mod batch;
pub mod dispatch;
pub mod exchange;
pub mod orchestrate;
pub mod resource;
pub mod scenario;
pub mod session;
pub mod tls;
pub mod wire;
