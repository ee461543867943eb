//! Sidecar process supervisor: resolves the optional tracing tool's location,
//! builds the backend engine's invocation, classifies the lines the child
//! writes, and confirms shutdown.
//!
//! The host runtime performs the actual I/O (filesystem probes, spawning,
//! reading the child's streams); this library holds the decisions and is
//! verified.

pub mod invocation;
pub mod monitor;
pub mod platform;
pub mod resolver;
pub mod scan;
pub mod shutdown;
