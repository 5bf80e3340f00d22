//! A local supervisor library for background processes: per-process lifecycle
//! state machines, crash backoff policy, a dev/release mode controller, a
//! bounded multi-instance log ring with regex search, and the decision logic
//! behind the JSON-RPC tool surface.

pub mod builder;
pub mod clock;
pub mod config;
pub mod crash_handler;
pub mod dashboard;
pub mod errors;
pub mod log_buffer;
pub mod mcp_server;
pub mod mode;
pub mod pattern;
pub mod process;
pub mod strutil;
pub mod supervisor;
