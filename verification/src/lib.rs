//! Decision core of a process-introspection engine.
//!
//! The host operating system is never called from here. Every protocol that
//! needs the host is written as a step function: it is handed what the host
//! last answered and says what to ask next, or what the final result is. The
//! caller performs the requests. Everything else, from parsing of raw
//! buffers to usage arithmetic and the lifecycle of a process record, works
//! on plain values.

pub mod types;
pub mod handle;
pub mod capability;
pub mod text;
pub mod negotiate;
pub mod metrics;
pub mod params;
pub mod process;
