//! Error taxonomy for the tool surface and the restart orchestration.

use vstd::prelude::*;

verus! {

/// Everything the RPC surface can report to a client.
#[derive(Debug, Clone)]
pub enum SupervisorError {
    /// The request named a method the server does not serve.
    UnknownMethod { name: String },
    /// A `tools/call` request without a params object.
    MissingParams,
    /// A `tools/call` request naming a tool the server does not serve.
    UnknownTool { name: String },
    /// A tool argument named a unit the manifest does not define.
    UnitNotFound { name: String },
    /// A tool call without the required `process` argument.
    MissingProcessParam,
    /// The external build exited nonzero.
    BuildFailed,
    /// The build succeeded but the expected artifact is not on disk.
    ArtifactMissing { path: String },
    /// The project manifest names no package.
    PackageNameMissing,
    /// A child process could not be started.
    SpawnFailed { detail: String },
}

/// The human-readable message for each error.
pub open spec fn error_message(e: &SupervisorError) -> Seq<char> {
    match e {
        SupervisorError::UnknownMethod { name } => "Method not found: "@ + name@,
        SupervisorError::MissingParams => "Missing params"@,
        SupervisorError::UnknownTool { name } => "Unknown tool: "@ + name@,
        SupervisorError::UnitNotFound { name } => "Process '"@ + name@ + "' not found"@,
        SupervisorError::MissingProcessParam => "Missing 'process' parameter"@,
        SupervisorError::BuildFailed => "Build failed"@,
        SupervisorError::ArtifactMissing { path } => "Binary not found at: "@ + path@,
        SupervisorError::PackageNameMissing => "Failed to find package name in Cargo.toml"@,
        SupervisorError::SpawnFailed { detail } => detail@,
    }
}

impl SupervisorError {
    /// The human-readable message, as the original request handler wrote it.
    pub fn message(&self) -> (r: String)
        ensures
            r@ == error_message(self),
    {
        match self {
            SupervisorError::UnknownMethod { name } => {
                let mut s = String::from_str("Method not found: ");
                s.append(name.as_str());
                s
            },
            SupervisorError::MissingParams => String::from_str("Missing params"),
            SupervisorError::UnknownTool { name } => {
                let mut s = String::from_str("Unknown tool: ");
                s.append(name.as_str());
                s
            },
            SupervisorError::UnitNotFound { name } => {
                let mut s = String::from_str("Process '");
                s.append(name.as_str());
                s.append("' not found");
                s
            },
            SupervisorError::MissingProcessParam => String::from_str("Missing 'process' parameter"),
            SupervisorError::BuildFailed => String::from_str("Build failed"),
            SupervisorError::ArtifactMissing { path } => {
                let mut s = String::from_str("Binary not found at: ");
                s.append(path.as_str());
                s
            },
            SupervisorError::PackageNameMissing => String::from_str(
                "Failed to find package name in Cargo.toml",
            ),
            SupervisorError::SpawnFailed { detail } => detail.clone(),
        }
    }

    /// The JSON-RPC error code: unknown method, missing params, and every
    /// tool execution failure, in that order of codes.
    pub fn rpc_code(&self) -> (r: i32)
        ensures
            self is UnknownMethod ==> r == -32601,
            self is MissingParams ==> r == -32602,
            !(self is UnknownMethod) && !(self is MissingParams) ==> r == -32603,
    {
        match self {
            SupervisorError::UnknownMethod { .. } => -32601,
            SupervisorError::MissingParams => -32602,
            _ => -32603,
        }
    }
}

} // verus!
