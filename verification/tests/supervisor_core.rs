use background_process_manager::builder::Builder;
use background_process_manager::config::{Config, ConfigError, ProcessConfig, ProcessType};
use background_process_manager::crash_handler::RunMode;
use background_process_manager::errors::SupervisorError;
use background_process_manager::mcp_server::{
    initialize_result_json, parse_method, parse_tool, restart_success_message, tools_list_json,
    wrap_tool_error, RpcMethod, ToolKind,
};
use background_process_manager::process::{ProcessEvent, ProcessManager, ProcessState};
use background_process_manager::supervisor::SupervisorCore;

fn one_unit_config(kind: ProcessType, command: Vec<String>) -> Config {
    Config {
        mcp_port: 3001,
        dev_timeout_hours: 3,
        dev_crash_wait_seconds: 120,
        release_crash_backoff_initial_seconds: 1,
        release_crash_backoff_max_seconds: 300,
        process: vec![(
            "web".to_string(),
            ProcessConfig { process_type: kind, args: Vec::new(), command },
        )],
    }
}

#[test]
fn manual_restart_during_healthy_run() {
    let config = one_unit_config(ProcessType::Rust, Vec::new());
    let mut core = SupervisorCore::new(&config, "/proj", false);
    core.units[0].on_spawn(100);
    assert!(matches!(core.units[0].state, ProcessState::Running));

    // Client calls restart: flag set, mode switched to dev.
    core.restart_begin(0);
    assert!(core.units[0].is_manual_restart_in_progress());
    assert!(matches!(core.mode.get_mode(), RunMode::Dev));

    // Build succeeds outside; the old child is stopped and its exit is
    // observed under the flag: no Crashed event is appended.
    core.units[0].on_exit(200, Some(0));
    assert_eq!(core.units[0].events.len(), 1);
    assert!(matches!(core.units[0].state, ProcessState::Idle));

    // The new child is spawned and the restart completes.
    core.units[0].on_spawn(300);
    core.restart_complete(0);
    assert_eq!(core.handlers[0].get_crash_count(), 0);
    assert!(!core.units[0].is_manual_restart_in_progress());
    assert!(matches!(core.units[0].state, ProcessState::Running));
    assert!(matches!(core.mode.get_mode(), RunMode::Dev));
    assert_eq!(core.units[0].events.len(), 2);
}

#[test]
fn build_failure_on_manual_restart() {
    let config = one_unit_config(ProcessType::Rust, Vec::new());
    let mut core = SupervisorCore::new(&config, "/proj", false);
    core.units[0].on_spawn(100);
    core.handlers[0].crash_count = 2;

    core.restart_begin(0);
    // The build fails outside; stop was never reached, so the old child is
    // still running and the crash counter is unchanged.
    assert!(matches!(core.units[0].state, ProcessState::Running));
    assert_eq!(core.handlers[0].get_crash_count(), 2);
    assert_eq!(core.units[0].events.len(), 1);
    // Stop was deferred until after a successful build, so the flag is
    // still set when the error surfaces.
    assert!(core.units[0].is_manual_restart_in_progress());
}

#[test]
fn crash_without_flag_appends_event() {
    let config = one_unit_config(ProcessType::Rust, Vec::new());
    let mut core = SupervisorCore::new(&config, "/proj", false);
    core.units[0].on_spawn(100);
    core.units[0].on_exit(200, Some(1));
    assert!(matches!(core.units[0].state, ProcessState::Crashed));
    assert_eq!(core.units[0].events.len(), 2);
    match &core.units[0].events[1] {
        ProcessEvent::Crashed { timestamp, exit_code } => {
            assert_eq!(*timestamp, 200);
            assert_eq!(*exit_code, Some(1));
        }
        other => panic!("expected a Crashed event, got {:?}", other),
    }
}

#[test]
fn release_flip_rebuilds_each_native_unit_once() {
    let config = Config {
        mcp_port: 3001,
        dev_timeout_hours: 3,
        dev_crash_wait_seconds: 120,
        release_crash_backoff_initial_seconds: 1,
        release_crash_backoff_max_seconds: 300,
        process: vec![
            (
                "native-a".to_string(),
                ProcessConfig {
                    process_type: ProcessType::Rust,
                    args: Vec::new(),
                    command: Vec::new(),
                },
            ),
            (
                "scripted".to_string(),
                ProcessConfig {
                    process_type: ProcessType::Npm,
                    args: Vec::new(),
                    command: vec!["npm".to_string(), "start".to_string()],
                },
            ),
            (
                "native-b".to_string(),
                ProcessConfig {
                    process_type: ProcessType::Rust,
                    args: Vec::new(),
                    command: Vec::new(),
                },
            ),
        ],
    };
    let core = SupervisorCore::new(&config, "/proj", false);
    assert_eq!(core.release_flip_targets(), vec![0, 2]);
}

#[test]
fn status_text_is_exact() {
    let config = one_unit_config(ProcessType::Rust, Vec::new());
    let mut core = SupervisorCore::new(&config, "/proj", false);
    core.units[0].on_spawn(1000);
    let status = core.tool_get_status(4600);
    assert_eq!(
        status,
        "Mode: Release\nCurrently in release mode\n\nProcesses:\n\n  web: running\n    Uptime: 1 hours 0 minutes\n    Recent events:\n      - Started at 1000\n"
    );
}

#[test]
fn status_text_shows_crash_count_and_recent_events_first() {
    let config = one_unit_config(ProcessType::Rust, Vec::new());
    let mut core = SupervisorCore::new(&config, "/proj", false);
    core.units[0].on_spawn(10);
    core.units[0].on_exit(20, Some(9));
    core.handlers[0].crash_count = 4;
    core.mode.switch_to_dev();
    core.mode.record_tool_call_at(100);
    let status = core.tool_get_status(100 + 3600);
    assert_eq!(
        status,
        "Mode: Dev\nTime until release mode: 2 hours 0 minutes\n\nProcesses:\n\n  web: crashed\n    Recent events:\n      - Crashed at 20 (exit code: Some(9))\n      - Started at 10\n    Crash count: 4\n"
    );
}

#[test]
fn search_tool_finds_unit_logs() {
    let config = one_unit_config(ProcessType::Rust, Vec::new());
    let mut core = SupervisorCore::new(&config, "/proj", false);
    core.units[0].logs.new_instance();
    core.units[0].logs.append("hello".to_string());
    core.units[0].logs.append("world".to_string());
    let text = core
        .tool_search_logs("web", None, None, None, None, None)
        .unwrap();
    assert_eq!(text, "hello\nworld");

    let err = core
        .tool_search_logs("nope", None, None, None, None, None)
        .unwrap_err();
    assert_eq!(err.message(), "Process 'nope' not found");
    assert_eq!(err.rpc_code(), -32603);
}

#[test]
fn search_build_log_is_separate() {
    let config = one_unit_config(ProcessType::Rust, Vec::new());
    let mut core = SupervisorCore::new(&config, "/proj", false);
    core.units[0].build_logs.new_instance();
    core.units[0].build_logs.append("Compiling demo".to_string());
    let text = core
        .tool_search_build_log("web", None, None, None, None, None)
        .unwrap();
    assert_eq!(text, "Compiling demo");
    let runtime = core
        .tool_search_logs("web", None, None, None, None, None)
        .unwrap();
    assert_eq!(runtime, "Log instance -1 not found (have 0 instances)");
}

#[test]
fn config_validation() {
    let empty = Config {
        mcp_port: 1,
        dev_timeout_hours: 3,
        dev_crash_wait_seconds: 120,
        release_crash_backoff_initial_seconds: 1,
        release_crash_backoff_max_seconds: 300,
        process: Vec::new(),
    };
    assert!(matches!(empty.validate(), Err(ConfigError::NoProcesses)));

    let bad = one_unit_config(ProcessType::Npm, Vec::new());
    match bad.validate() {
        Err(ConfigError::EmptyCommand { name }) => assert_eq!(name, "web"),
        other => panic!("expected an empty-command error, got {:?}", other),
    }

    let good = one_unit_config(ProcessType::Npm, vec!["npm".to_string(), "start".to_string()]);
    assert!(good.validate().is_ok());
}

#[test]
fn spawn_argv_composition() {
    let cfg = ProcessConfig {
        process_type: ProcessType::Rust,
        args: vec!["--port".to_string(), "3001".to_string()],
        command: Vec::new(),
    };
    let with_env = ProcessManager::new("web".to_string(), cfg.clone(), "/proj".to_string(), true);
    assert_eq!(
        with_env.spawn_argv("/proj/target/debug/demo"),
        vec!["direnv", "exec", "/proj", "/proj/target/debug/demo", "--port", "3001"]
    );
    let plain = ProcessManager::new("web".to_string(), cfg, "/proj".to_string(), false);
    assert_eq!(
        plain.spawn_argv("/proj/target/debug/demo"),
        vec!["/proj/target/debug/demo", "--port", "3001"]
    );
}

#[test]
fn npm_argv_composition_and_error() {
    let cfg = ProcessConfig {
        process_type: ProcessType::Npm,
        args: Vec::new(),
        command: vec!["npm".to_string(), "start".to_string()],
    };
    let with_env = ProcessManager::new("ui".to_string(), cfg, "/proj".to_string(), true);
    assert_eq!(
        with_env.npm_argv().unwrap(),
        vec!["direnv", "exec", "/proj", "npm", "start"]
    );

    let bad = ProcessManager::new(
        "ui".to_string(),
        ProcessConfig { process_type: ProcessType::Npm, args: Vec::new(), command: Vec::new() },
        "/proj".to_string(),
        false,
    );
    let err = bad.npm_argv().unwrap_err();
    assert_eq!(err.message(), "No command specified for NPM process");
}

#[test]
fn build_argv_composition() {
    let builder = Builder::new("/proj".to_string(), true);
    assert_eq!(
        builder.build_argv(true),
        vec!["direnv", "exec", "/proj", "cargo", "build", "--release"]
    );
    let plain = Builder::new("/proj".to_string(), false);
    assert_eq!(plain.build_argv(false), vec!["cargo", "build"]);
}

#[test]
fn resolve_artifact_reads_package_name() {
    let builder = Builder::new("/proj".to_string(), false);
    let manifest = "[package]\nname = \"demo\"\nversion = \"0.1.0\"\n";
    assert_eq!(
        builder.resolve_artifact(manifest, true).unwrap(),
        "/proj/target/release/demo"
    );
    assert_eq!(
        builder.resolve_artifact(manifest, false).unwrap(),
        "/proj/target/debug/demo"
    );

    let nameless = "[package]\nversion = \"0.1.0\"\n";
    assert!(matches!(
        builder.resolve_artifact(nameless, true),
        Err(SupervisorError::PackageNameMissing)
    ));
    assert!(matches!(
        builder.resolve_artifact("not [ valid toml", true),
        Err(SupervisorError::PackageNameMissing)
    ));
}

#[test]
fn method_and_tool_dispatch() {
    assert!(matches!(parse_method("initialize"), Some(RpcMethod::Initialize)));
    assert!(matches!(parse_method("tools/list"), Some(RpcMethod::ToolsList)));
    assert!(matches!(parse_method("tools/call"), Some(RpcMethod::ToolsCall)));
    assert!(parse_method("shutdown").is_none());

    assert!(matches!(parse_tool("search_logs"), Some(ToolKind::SearchLogs)));
    assert!(matches!(parse_tool("search_build_log"), Some(ToolKind::SearchBuildLog)));
    assert!(matches!(parse_tool("restart"), Some(ToolKind::Restart)));
    assert!(matches!(parse_tool("get_status"), Some(ToolKind::GetStatus)));
    assert!(parse_tool("reboot").is_none());
}

#[test]
fn error_codes_and_messages() {
    let unknown = SupervisorError::UnknownMethod { name: "frob".to_string() };
    assert_eq!(unknown.rpc_code(), -32601);
    assert_eq!(unknown.message(), "Method not found: frob");

    assert_eq!(SupervisorError::MissingParams.rpc_code(), -32602);
    assert_eq!(SupervisorError::MissingParams.message(), "Missing params");

    let tool = SupervisorError::UnknownTool { name: "frob".to_string() };
    assert_eq!(tool.rpc_code(), -32603);
    assert_eq!(tool.message(), "Unknown tool: frob");

    assert_eq!(
        SupervisorError::MissingProcessParam.message(),
        "Missing 'process' parameter"
    );
    assert_eq!(SupervisorError::BuildFailed.message(), "Build failed");
    assert_eq!(
        SupervisorError::ArtifactMissing { path: "/p/target/debug/x".to_string() }.message(),
        "Binary not found at: /p/target/debug/x"
    );
    assert_eq!(
        wrap_tool_error(&SupervisorError::BuildFailed),
        "Tool execution error: Build failed"
    );
    assert_eq!(
        restart_success_message("web"),
        "Process 'web' restarted successfully in dev mode"
    );
}

#[test]
fn fixed_rpc_documents_are_valid_json() {
    let init: serde_json::Value = serde_json::from_str(&initialize_result_json()).unwrap();
    assert_eq!(init["protocolVersion"], "2024-11-05");
    assert_eq!(init["serverInfo"]["name"], "background-process-manager");
    assert_eq!(init["serverInfo"]["version"], "0.1.0");
    assert!(init["capabilities"]["tools"].is_object());

    let tools: serde_json::Value = serde_json::from_str(&tools_list_json()).unwrap();
    let list = tools["tools"].as_array().unwrap();
    assert_eq!(list.len(), 4);
    assert_eq!(list[0]["name"], "search_logs");
    assert_eq!(list[1]["name"], "search_build_log");
    assert_eq!(list[2]["name"], "restart");
    assert_eq!(list[3]["name"], "get_status");
}

#[test]
fn event_descriptions() {
    let started = ProcessEvent::Started { timestamp: 1000 };
    assert_eq!(started.description(), "Started at 1000");
    let crashed = ProcessEvent::Crashed { timestamp: -5, exit_code: None };
    assert_eq!(crashed.description(), "Crashed at -5 (exit code: None)");
    let coded = ProcessEvent::Crashed { timestamp: 7, exit_code: Some(137) };
    assert_eq!(coded.description(), "Crashed at 7 (exit code: Some(137))");
}

#[test]
fn state_names() {
    assert_eq!(ProcessState::Idle.as_str(), "idle");
    assert_eq!(ProcessState::Running.as_str(), "running");
    assert_eq!(ProcessState::Crashed.as_str(), "crashed");
}

#[test]
fn stop_clears_running_without_event() {
    let cfg = ProcessConfig { process_type: ProcessType::Rust, args: Vec::new(), command: Vec::new() };
    let mut pm = ProcessManager::new("web".to_string(), cfg, "/proj".to_string(), false);
    pm.on_spawn(50);
    assert_eq!(pm.get_uptime(60), Some(10));
    pm.on_stopped();
    assert!(matches!(pm.state, ProcessState::Idle));
    assert_eq!(pm.get_uptime(60), None);
    assert_eq!(pm.events.len(), 1);
}

#[test]
fn defaults_match_the_schema() {
    assert_eq!(background_process_manager::config::default_dev_timeout_hours(), 3);
    assert_eq!(background_process_manager::config::default_dev_crash_wait_seconds(), 120);
    assert_eq!(
        background_process_manager::config::default_release_crash_backoff_initial_seconds(),
        1
    );
    assert_eq!(
        background_process_manager::config::default_release_crash_backoff_max_seconds(),
        300
    );
}
