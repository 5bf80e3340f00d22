//! The client-side schema of the status tool: what a dashboard reading the
//! RPC surface sees of the server and of each unit.

use vstd::prelude::*;

verus! {

/// A dashboard's connection to the supervisor.
#[derive(Debug, Clone, Copy, PartialEq, Eq, Structural)]
pub enum ConnectionState {
    Disconnected,
    Connecting,
    Connected,
    Error,
}

/// One unit as the status tool reports it.
#[derive(Debug, Clone)]
pub struct ProcessInfo {
    pub name: String,
    pub state: String,
    pub uptime: Option<String>,
    pub events: Vec<String>,
    pub crash_count: u32,
}

/// The whole fleet as the status tool reports it.
#[derive(Debug)]
pub struct ServerStatus {
    pub mode: String,
    pub time_until_release: Option<String>,
    pub processes: Vec<ProcessInfo>,
}

} // verus!
