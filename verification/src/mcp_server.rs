//! The JSON-RPC tool surface: method and tool dispatch, the fixed responses,
//! and the exact texts the handler writes.
//!
//! The HTTP listener, the JSON envelope, and the orchestration I/O live with
//! the runtime; every decision it takes comes from here.

use vstd::prelude::*;

use crate::errors::{error_message, SupervisorError};
use crate::strutil::str_eq;

verus! {

/// The methods the endpoint serves.
#[derive(Debug, Clone, Copy, PartialEq, Eq, Structural)]
pub enum RpcMethod {
    Initialize,
    ToolsList,
    ToolsCall,
}

/// The four tools.
#[derive(Debug, Clone, Copy, PartialEq, Eq, Structural)]
pub enum ToolKind {
    SearchLogs,
    SearchBuildLog,
    Restart,
    GetStatus,
}

/// Maps a request's method string to the method served, if any.
pub fn parse_method(m: &str) -> (r: Option<RpcMethod>)
    ensures
        r == Some(RpcMethod::Initialize) <==> m@ == "initialize"@,
        r == Some(RpcMethod::ToolsList) <==> m@ == "tools/list"@,
        r == Some(RpcMethod::ToolsCall) <==> m@ == "tools/call"@,
{
    proof {
        reveal_strlit("initialize");
        reveal_strlit("tools/list");
        reveal_strlit("tools/call");
        assert("initialize"@[0] == 'i' && "tools/list"@[0] == 't' && "tools/call"@[0] == 't');
        assert("tools/list"@[6] == 'l' && "tools/call"@[6] == 'c');
        assert("initialize"@.len() == 10 && "tools/list"@.len() == 10 && "tools/call"@.len()
            == 10);
    }
    if str_eq(m, "initialize") {
        Some(RpcMethod::Initialize)
    } else if str_eq(m, "tools/list") {
        Some(RpcMethod::ToolsList)
    } else if str_eq(m, "tools/call") {
        Some(RpcMethod::ToolsCall)
    } else {
        None
    }
}

/// Maps a `tools/call` request's tool name to the tool, if any.
pub fn parse_tool(name: &str) -> (r: Option<ToolKind>)
    ensures
        r == Some(ToolKind::SearchLogs) <==> name@ == "search_logs"@,
        r == Some(ToolKind::SearchBuildLog) <==> name@ == "search_build_log"@,
        r == Some(ToolKind::Restart) <==> name@ == "restart"@,
        r == Some(ToolKind::GetStatus) <==> name@ == "get_status"@,
{
    proof {
        reveal_strlit("search_logs");
        reveal_strlit("search_build_log");
        reveal_strlit("restart");
        reveal_strlit("get_status");
        assert("search_logs"@.len() == 11 && "search_build_log"@.len() == 16 && "restart"@.len()
            == 7 && "get_status"@.len() == 10);
    }
    if str_eq(name, "search_logs") {
        Some(ToolKind::SearchLogs)
    } else if str_eq(name, "search_build_log") {
        Some(ToolKind::SearchBuildLog)
    } else if str_eq(name, "restart") {
        Some(ToolKind::Restart)
    } else if str_eq(name, "get_status") {
        Some(ToolKind::GetStatus)
    } else {
        None
    }
}

/// The fixed `initialize` result: protocol version, capabilities, identity.
pub open spec fn initialize_result_text() -> Seq<char> {
    "{\"protocolVersion\":\"2024-11-05\",\"capabilities\":{\"tools\":{}},\"serverInfo\":{\"name\":\"background-process-manager\",\"version\":\"0.1.0\"}}"@
}

/// The fixed `initialize` result document.
pub fn initialize_result_json() -> (r: String)
    ensures
        r@ == initialize_result_text(),
{
    String::from_str(
        "{\"protocolVersion\":\"2024-11-05\",\"capabilities\":{\"tools\":{}},\"serverInfo\":{\"name\":\"background-process-manager\",\"version\":\"0.1.0\"}}",
    )
}

/// The fixed `tools/list` result: the four tool schemas.
pub open spec fn tools_list_text() -> Seq<char> {
    "{\"tools\":[{\"name\":\"search_logs\",\"description\":\"Search process logs with optional regex pattern, context lines, and head/tail limiting. Execution order: pattern matching -> context expansion -> head/tail limiting\",\"inputSchema\":{\"type\":\"object\",\"properties\":{\"process\":{\"type\":\"string\",\"description\":\"Process name\"},\"pattern\":{\"type\":\"string\",\"description\":\"Optional regex pattern (Rust regex syntax, case-sensitive). Matched lines prefixed with ' * ', context lines with '   '\"},\"context_lines\":{\"type\":\"number\",\"description\":\"Number of lines to show before and after each match. Only applies when pattern is provided\"},\"head\":{\"type\":\"number\",\"description\":\"Return only first N lines (applied after pattern/context). Mutually exclusive with tail\"},\"tail\":{\"type\":\"number\",\"description\":\"Return only last N lines (applied after pattern/context). Takes precedence over head if both specified\"},\"index\":{\"type\":\"number\",\"description\":\"Log instance index. Negative = recent (-1 most recent, -2 second-to-last), positive = absolute (0 first, 1 second). Default: -1\"}},\"required\":[\"process\"]}},{\"name\":\"search_build_log\",\"description\":\"Search build logs with optional regex pattern, context lines, and head/tail limiting. Execution order: pattern matching -> context expansion -> head/tail limiting\",\"inputSchema\":{\"type\":\"object\",\"properties\":{\"process\":{\"type\":\"string\",\"description\":\"Process name\"},\"pattern\":{\"type\":\"string\",\"description\":\"Optional regex pattern (Rust regex syntax, case-sensitive). Matched lines prefixed with ' * ', context lines with '   '\"},\"context_lines\":{\"type\":\"number\",\"description\":\"Number of lines to show before and after each match. Only applies when pattern is provided\"},\"head\":{\"type\":\"number\",\"description\":\"Return only first N lines (applied after pattern/context). Mutually exclusive with tail\"},\"tail\":{\"type\":\"number\",\"description\":\"Return only last N lines (applied after pattern/context). Takes precedence over head if both specified\"},\"index\":{\"type\":\"number\",\"description\":\"Log instance index. Negative = recent (-1 most recent, -2 second-to-last), positive = absolute (0 first, 1 second). Default: -1\"}},\"required\":[\"process\"]}},{\"name\":\"restart\",\"description\":\"Restart a process (builds first for Rust projects, then restarts). Switches back to dev mode.\",\"inputSchema\":{\"type\":\"object\",\"properties\":{\"process\":{\"type\":\"string\",\"description\":\"Process name\"}},\"required\":[\"process\"]}},{\"name\":\"get_status\",\"description\":\"Get status of all processes including mode, uptime, state, and recent events\",\"inputSchema\":{\"type\":\"object\",\"properties\":{}}}]}"@
}

/// The fixed `tools/list` result document.
pub fn tools_list_json() -> (r: String)
    ensures
        r@ == tools_list_text(),
{
    String::from_str(
        "{\"tools\":[{\"name\":\"search_logs\",\"description\":\"Search process logs with optional regex pattern, context lines, and head/tail limiting. Execution order: pattern matching -> context expansion -> head/tail limiting\",\"inputSchema\":{\"type\":\"object\",\"properties\":{\"process\":{\"type\":\"string\",\"description\":\"Process name\"},\"pattern\":{\"type\":\"string\",\"description\":\"Optional regex pattern (Rust regex syntax, case-sensitive). Matched lines prefixed with ' * ', context lines with '   '\"},\"context_lines\":{\"type\":\"number\",\"description\":\"Number of lines to show before and after each match. Only applies when pattern is provided\"},\"head\":{\"type\":\"number\",\"description\":\"Return only first N lines (applied after pattern/context). Mutually exclusive with tail\"},\"tail\":{\"type\":\"number\",\"description\":\"Return only last N lines (applied after pattern/context). Takes precedence over head if both specified\"},\"index\":{\"type\":\"number\",\"description\":\"Log instance index. Negative = recent (-1 most recent, -2 second-to-last), positive = absolute (0 first, 1 second). Default: -1\"}},\"required\":[\"process\"]}},{\"name\":\"search_build_log\",\"description\":\"Search build logs with optional regex pattern, context lines, and head/tail limiting. Execution order: pattern matching -> context expansion -> head/tail limiting\",\"inputSchema\":{\"type\":\"object\",\"properties\":{\"process\":{\"type\":\"string\",\"description\":\"Process name\"},\"pattern\":{\"type\":\"string\",\"description\":\"Optional regex pattern (Rust regex syntax, case-sensitive). Matched lines prefixed with ' * ', context lines with '   '\"},\"context_lines\":{\"type\":\"number\",\"description\":\"Number of lines to show before and after each match. Only applies when pattern is provided\"},\"head\":{\"type\":\"number\",\"description\":\"Return only first N lines (applied after pattern/context). Mutually exclusive with tail\"},\"tail\":{\"type\":\"number\",\"description\":\"Return only last N lines (applied after pattern/context). Takes precedence over head if both specified\"},\"index\":{\"type\":\"number\",\"description\":\"Log instance index. Negative = recent (-1 most recent, -2 second-to-last), positive = absolute (0 first, 1 second). Default: -1\"}},\"required\":[\"process\"]}},{\"name\":\"restart\",\"description\":\"Restart a process (builds first for Rust projects, then restarts). Switches back to dev mode.\",\"inputSchema\":{\"type\":\"object\",\"properties\":{\"process\":{\"type\":\"string\",\"description\":\"Process name\"}},\"required\":[\"process\"]}},{\"name\":\"get_status\",\"description\":\"Get status of all processes including mode, uptime, state, and recent events\",\"inputSchema\":{\"type\":\"object\",\"properties\":{}}}]}",
    )
}

/// The message a failed tool call is wrapped in before it goes out with the
/// tool-execution error code.
pub fn wrap_tool_error(e: &SupervisorError) -> (r: String)
    ensures
        r@ == "Tool execution error: "@ + error_message(e),
{
    let mut s = String::from_str("Tool execution error: ");
    let msg = e.message();
    s.append(msg.as_str());
    s
}

/// The text a successful restart reports.
pub fn restart_success_message(process: &str) -> (r: String)
    ensures
        r@ == "Process '"@ + process@ + "' restarted successfully in dev mode"@,
{
    let mut s = String::from_str("Process '");
    s.append(process);
    s.append("' restarted successfully in dev mode");
    s
}

} // verus!
