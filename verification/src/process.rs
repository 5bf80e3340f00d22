//! The per-unit lifecycle state machine and its event log.
//!
//! The actual child handle, signals, and pipes are outside work; this module
//! holds the state that decides them: lifecycle transitions, the event log,
//! the manual-restart flag, and the exact command lines to launch.

use vstd::prelude::*;

use crate::config::ProcessConfig;
use crate::log_buffer::{ring_open, LogBuffer};
use crate::strutil::int_digits;

verus! {

/// A unit's lifecycle state.
#[derive(Debug, Clone, Copy, PartialEq, Eq, Structural)]
pub enum ProcessState {
    Idle,
    Running,
    Crashed,
}

/// The display name of each state.
pub open spec fn state_str(s: &ProcessState) -> Seq<char> {
    match s {
        ProcessState::Idle => "idle"@,
        ProcessState::Running => "running"@,
        ProcessState::Crashed => "crashed"@,
    }
}

impl ProcessState {
    pub fn as_str(&self) -> (r: &'static str)
        ensures
            r@ == state_str(self),
    {
        match self {
            ProcessState::Idle => "idle",
            ProcessState::Running => "running",
            ProcessState::Crashed => "crashed",
        }
    }
}

/// One record of the append-only per-unit event log. Timestamps are whole
/// seconds since the Unix epoch.
#[derive(Debug, Clone)]
pub enum ProcessEvent {
    Started { timestamp: i64 },
    Crashed { timestamp: i64, exit_code: Option<i32> },
}

/// The exit code rendered as the original status text wrote it.
pub open spec fn exit_code_str(code: Option<i32>) -> Seq<char> {
    match code {
        Some(v) => "Some("@ + int_digits(v as int) + ")"@,
        None => "None"@,
    }
}

/// The one-line description of an event.
pub open spec fn event_description(e: &ProcessEvent) -> Seq<char> {
    match e {
        ProcessEvent::Started { timestamp } => "Started at "@ + int_digits(*timestamp as int),
        ProcessEvent::Crashed { timestamp, exit_code } => "Crashed at "@ + int_digits(
            *timestamp as int,
        ) + " (exit code: "@ + exit_code_str(*exit_code) + ")"@,
    }
}

impl ProcessEvent {
    pub fn description(&self) -> (r: String)
        ensures
            r@ == event_description(self),
    {
        match self {
            ProcessEvent::Started { timestamp } => {
                let mut s = String::from_str("Started at ");
                let ts = crate::strutil::i64_to_string(*timestamp);
                s.append(ts.as_str());
                s
            },
            ProcessEvent::Crashed { timestamp, exit_code } => {
                let mut s = String::from_str("Crashed at ");
                let ts = crate::strutil::i64_to_string(*timestamp);
                s.append(ts.as_str());
                s.append(" (exit code: ");
                match exit_code {
                    Some(v) => {
                        s.append("Some(");
                        let c = crate::strutil::i32_to_string(*v);
                        s.append(c.as_str());
                        s.append(")");
                    },
                    None => {
                        s.append("None");
                    },
                }
                s.append(")");
                proof {
                    assert(s@ =~= event_description(self));
                }
                s
            },
        }
    }
}

/// The in-memory state of one managed unit. The live child handle stays with
/// the unverified runtime; everything the decisions read or write is here.
pub struct ProcessManager {
    pub name: String,
    pub config: ProcessConfig,
    pub project_dir: String,
    pub state: ProcessState,
    pub logs: LogBuffer,
    pub build_logs: LogBuffer,
    pub started_at: Option<i64>,
    pub events: Vec<ProcessEvent>,
    pub has_direnv: bool,
    pub manual_restart_in_progress: bool,
}

/// The fields a lifecycle transition never touches.
pub open spec fn same_identity(a: &ProcessManager, b: &ProcessManager) -> bool {
    &&& a.name == b.name
    &&& a.config == b.config
    &&& a.project_dir == b.project_dir
    &&& a.has_direnv == b.has_direnv
}

/// The argv for launching a native unit's artifact: wrapped in the
/// environment-activation prefix when the project has one, then the
/// configured arguments.
pub open spec fn spawn_argv_spec(
    has_direnv: bool,
    project_dir: Seq<char>,
    binary: Seq<char>,
    args: Seq<Seq<char>>,
) -> Seq<Seq<char>> {
    let base = if has_direnv {
        seq!["direnv"@, "exec"@, project_dir, binary]
    } else {
        seq![binary]
    };
    base + args
}

/// The argv for launching a scripted unit: the configured command, wrapped
/// in the environment-activation prefix when the project has one.
pub open spec fn npm_argv_spec(
    has_direnv: bool,
    project_dir: Seq<char>,
    command: Seq<Seq<char>>,
) -> Seq<Seq<char>> {
    if has_direnv {
        seq!["direnv"@, "exec"@, project_dir] + command
    } else {
        command
    }
}

impl ProcessManager {
    /// Well-formed: the log rings respect their bounds, and the start
    /// timestamp is present exactly while the unit is running.
    pub open spec fn wf(&self) -> bool {
        &&& self.logs.wf()
        &&& self.build_logs.wf()
        &&& (self.state is Running <==> self.started_at is Some)
    }

    /// A fresh unit: idle, with empty rings and an empty event log.
    pub fn new(name: String, config: ProcessConfig, project_dir: String, has_direnv: bool) -> (r:
        Self)
        ensures
            r.name == name,
            r.config == config,
            r.project_dir == project_dir,
            r.has_direnv == has_direnv,
            r.state is Idle,
            r.logs@ =~= Seq::<Seq<Seq<char>>>::empty(),
            r.build_logs@ =~= Seq::<Seq<Seq<char>>>::empty(),
            r.started_at is None,
            r.events@ =~= Seq::<ProcessEvent>::empty(),
            !r.manual_restart_in_progress,
            r.wf(),
    {
        Self {
            name,
            config,
            project_dir,
            state: ProcessState::Idle,
            logs: LogBuffer::new(),
            build_logs: LogBuffer::new(),
            started_at: None,
            events: Vec::new(),
            has_direnv,
            manual_restart_in_progress: false,
        }
    }

    /// The state transition of a successful spawn: a fresh log instance is
    /// opened, the unit becomes running with the given start time, and one
    /// `Started` event is appended.
    pub fn on_spawn(&mut self, now: i64)
        requires
            old(self).wf(),
            !(old(self).state is Running),
        ensures
            final(self).wf(),
            same_identity(old(self), final(self)),
            final(self).state is Running,
            final(self).started_at == Some(now),
            final(self).logs@ == ring_open(old(self).logs@),
            final(self).build_logs == old(self).build_logs,
            final(self).events@ == old(self).events@.push(
                ProcessEvent::Started { timestamp: now },
            ),
            final(self).manual_restart_in_progress == old(self).manual_restart_in_progress,
    {
        self.logs.new_instance();
        self.state = ProcessState::Running;
        self.started_at = Some(now);
        self.events.push(ProcessEvent::Started { timestamp: now });
    }

    /// The state transition of `stop`: the unit becomes idle and the start
    /// timestamp is cleared; no event is appended.
    pub fn on_stopped(&mut self)
        requires
            old(self).wf(),
        ensures
            final(self).wf(),
            same_identity(old(self), final(self)),
            final(self).state is Idle,
            final(self).started_at is None,
            final(self).logs == old(self).logs,
            final(self).build_logs == old(self).build_logs,
            final(self).events == old(self).events,
            final(self).manual_restart_in_progress == old(self).manual_restart_in_progress,
    {
        self.state = ProcessState::Idle;
        self.started_at = None;
    }

    /// The decision taken when an exit of the child is observed: under the
    /// manual-restart flag the unit goes idle and no event is appended;
    /// otherwise the unit is crashed and exactly one `Crashed` event is
    /// appended.
    pub fn on_exit(&mut self, now: i64, exit_code: Option<i32>)
        requires
            old(self).wf(),
        ensures
            final(self).wf(),
            same_identity(old(self), final(self)),
            final(self).started_at is None,
            final(self).logs == old(self).logs,
            final(self).build_logs == old(self).build_logs,
            final(self).manual_restart_in_progress == old(self).manual_restart_in_progress,
            old(self).manual_restart_in_progress ==> final(self).state is Idle
                && final(self).events == old(self).events,
            !old(self).manual_restart_in_progress ==> final(self).state is Crashed
                && final(self).events@ == old(self).events@.push(
                ProcessEvent::Crashed { timestamp: now, exit_code },
            ),
            exit_transition(old(self), final(self), now, exit_code),
    {
        if self.manual_restart_in_progress {
            self.state = ProcessState::Idle;
            self.started_at = None;
        } else {
            self.state = ProcessState::Crashed;
            self.started_at = None;
            self.events.push(ProcessEvent::Crashed { timestamp: now, exit_code });
        }
    }

    pub fn set_manual_restart_flag(&mut self)
        ensures
            *final(self) == (ProcessManager { manual_restart_in_progress: true, ..*old(self) }),
    {
        self.manual_restart_in_progress = true;
    }

    pub fn clear_manual_restart_flag(&mut self)
        ensures
            *final(self) == (ProcessManager { manual_restart_in_progress: false, ..*old(self) }),
    {
        self.manual_restart_in_progress = false;
    }

    pub fn is_manual_restart_in_progress(&self) -> (r: bool)
        ensures
            r == self.manual_restart_in_progress,
    {
        self.manual_restart_in_progress
    }

    /// The seconds the unit has been up at the given time, while running.
    pub fn get_uptime(&self, now: i64) -> (r: Option<i64>)
        ensures
            r is Some <==> self.started_at is Some,
            self.started_at matches Some(t) ==> r == Some(
                crate::strutil::sat_sub_i64(now as int, t as int) as i64,
            ),
    {
        match self.started_at {
            Some(start) => {
                let diff: i128 = (now as i128) - (start as i128);
                if diff > i64::MAX as i128 {
                    Some(i64::MAX)
                } else if diff < i64::MIN as i128 {
                    Some(i64::MIN)
                } else {
                    Some(diff as i64)
                }
            },
            None => None,
        }
    }

    /// The argv that launches the built artifact of this native unit.
    pub fn spawn_argv(&self, binary_path: &str) -> (r: Vec<String>)
        ensures
            r.deep_view() == spawn_argv_spec(
                self.has_direnv,
                self.project_dir@,
                binary_path@,
                self.config.args.deep_view(),
            ),
    {
        let mut v: Vec<String> = Vec::new();
        if self.has_direnv {
            v.push(String::from_str("direnv"));
            v.push(String::from_str("exec"));
            v.push(self.project_dir.clone());
        }
        v.push(String::from_str(binary_path));
        let ghost base = v.deep_view();
        let n = self.config.args.len();
        let mut i: usize = 0;
        while i < n
            invariant
                n == self.config.args@.len(),
                i <= n,
                self.config.args.deep_view().len() == n,
                forall|j: int|
                    0 <= j < n ==> self.config.args.deep_view()[j] == self.config.args@[j]@,
                v.deep_view() == base + self.config.args.deep_view().take(i as int),
            decreases n - i,
        {
            let ghost pre = v.deep_view();
            v.push(self.config.args[i].clone());
            proof {
                assert(v.deep_view() =~= pre.push(self.config.args@[i as int]@));
                assert(base + self.config.args.deep_view().take(i + 1) =~= pre.push(
                    self.config.args.deep_view()[i as int],
                ));
            }
            i = i + 1;
        }
        proof {
            assert(self.config.args.deep_view().take(n as int) =~= self.config.args.deep_view());
            assert(v.deep_view() =~= spawn_argv_spec(
                self.has_direnv,
                self.project_dir@,
                binary_path@,
                self.config.args.deep_view(),
            ));
        }
        v
    }

    /// The argv that launches this scripted unit; a scripted unit without a
    /// command is refused.
    pub fn npm_argv(&self) -> (r: Result<Vec<String>, crate::errors::SupervisorError>)
        ensures
            r is Ok <==> self.config.command.len() > 0,
            r matches Ok(v) ==> v.deep_view() == npm_argv_spec(
                self.has_direnv,
                self.project_dir@,
                self.config.command.deep_view(),
            ),
            r matches Err(e) ==> e matches crate::errors::SupervisorError::SpawnFailed { detail }
                && detail@ == "No command specified for NPM process"@,
    {
        if self.config.command.len() == 0 {
            return Err(
                crate::errors::SupervisorError::SpawnFailed {
                    detail: String::from_str("No command specified for NPM process"),
                },
            );
        }
        let mut v: Vec<String> = Vec::new();
        if self.has_direnv {
            v.push(String::from_str("direnv"));
            v.push(String::from_str("exec"));
            v.push(self.project_dir.clone());
        }
        let ghost base = v.deep_view();
        let n = self.config.command.len();
        let mut i: usize = 0;
        while i < n
            invariant
                n == self.config.command@.len(),
                i <= n,
                self.config.command.deep_view().len() == n,
                forall|j: int|
                    0 <= j < n ==> self.config.command.deep_view()[j] == self.config.command@[j]@,
                v.deep_view() == base + self.config.command.deep_view().take(i as int),
            decreases n - i,
        {
            let ghost pre = v.deep_view();
            v.push(self.config.command[i].clone());
            proof {
                assert(v.deep_view() =~= pre.push(self.config.command@[i as int]@));
                assert(base + self.config.command.deep_view().take(i + 1) =~= pre.push(
                    self.config.command.deep_view()[i as int],
                ));
            }
            i = i + 1;
        }
        proof {
            assert(self.config.command.deep_view().take(n as int)
                =~= self.config.command.deep_view());
            assert(v.deep_view() =~= npm_argv_spec(
                self.has_direnv,
                self.project_dir@,
                self.config.command.deep_view(),
            ));
        }
        Ok(v)
    }
}

/// While a unit's manual-restart flag is set, an observed child exit appends
/// no `Crashed` event: the event log is unchanged and the unit goes idle.
pub proof fn lemma_manual_exit_appends_no_event(
    pre: &ProcessManager,
    post: &ProcessManager,
    now: i64,
    exit_code: Option<i32>,
)
    requires
        pre.manual_restart_in_progress,
        exit_transition(pre, post, now, exit_code),
    ensures
        post.events == pre.events,
        post.state is Idle,
{
}

/// A unit's event log is append-only: an observed exit only ever extends it.
pub proof fn lemma_event_log_append_only(
    pre: &ProcessManager,
    post: &ProcessManager,
    now: i64,
    exit_code: Option<i32>,
)
    requires
        exit_transition(pre, post, now, exit_code),
    ensures
        pre.events@.is_prefix_of(post.events@),
{
    if !pre.manual_restart_in_progress {
        assert(post.events@.take(pre.events@.len() as int) =~= pre.events@);
    } else {
        assert(post.events@.take(pre.events@.len() as int) =~= pre.events@);
    }
}

/// The relation `on_exit` establishes between the unit before and after an
/// observed child exit.
pub open spec fn exit_transition(
    pre: &ProcessManager,
    post: &ProcessManager,
    now: i64,
    exit_code: Option<i32>,
) -> bool {
    &&& same_identity(pre, post)
    &&& post.started_at is None
    &&& post.logs == pre.logs
    &&& post.build_logs == pre.build_logs
    &&& post.manual_restart_in_progress == pre.manual_restart_in_progress
    &&& pre.manual_restart_in_progress ==> post.state is Idle && post.events == pre.events
    &&& !pre.manual_restart_in_progress ==> post.state is Crashed && post.events@
        == pre.events@.push(ProcessEvent::Crashed { timestamp: now, exit_code })
}

} // verus!
