//! The supervision core: the fleet of units, their crash policies, the mode
//! controller, and the state transitions behind the restart orchestration and
//! the mode-watcher flip.
//!
//! Everything here is in-memory decision state. The runtime wraps one value
//! of `SupervisorCore` in a lock, performs the outside work (build, spawn,
//! signal, sleep) between the steps, and calls back in for every decision.

use vstd::prelude::*;

use crate::config::{Config, ProcessConfig, ProcessType};
use crate::crash_handler::CrashHandler;
use crate::errors::SupervisorError;
use crate::log_buffer::{buffer_search_spec, opt_chars, opt_int};
use crate::mode::ModeManager;
use crate::process::ProcessManager;
use crate::crash_handler::RunMode;
use crate::mode::{clamp_u64, timeout_seconds};
use crate::process::{event_description, state_str, ProcessEvent};
use crate::strutil::{dec_digits, join_lines, join_with, sat_sub_i64, str_eq, u64_to_string, usize_to_string};

verus! {

/// The fleet: one manager and one crash handler per unit, in manifest order,
/// and the global mode state.
pub struct SupervisorCore {
    pub units: Vec<ProcessManager>,
    pub handlers: Vec<CrashHandler>,
    pub mode: ModeManager,
}

/// The first unit with the given name, if any.
pub open spec fn find_unit_spec(units: Seq<ProcessManager>, name: Seq<char>) -> Option<int>
    decreases units.len(),
{
    if units.len() == 0 {
        None
    } else if units[0].name@ == name {
        Some(0)
    } else {
        match find_unit_spec(units.drop_first(), name) {
            Some(i) => Some(i + 1),
            None => None,
        }
    }
}

proof fn lemma_find_unit_spec_hit(units: Seq<ProcessManager>, name: Seq<char>, i: int)
    requires
        0 <= i < units.len(),
        units[i].name@ == name,
        forall|j: int| 0 <= j < i ==> #[trigger] units[j].name@ != name,
    ensures
        find_unit_spec(units, name) == Some(i),
    decreases i,
{
    if i == 0 {
    } else {
        assert(units[0].name@ != name);
        assert(units.drop_first()[i - 1] == units[i]);
        assert(forall|j: int|
            0 <= j < i - 1 ==> #[trigger] units.drop_first()[j].name@ != name) by {
            assert(forall|j: int| 0 <= j < i - 1 ==> units.drop_first()[j] == units[j + 1]);
        }
        lemma_find_unit_spec_hit(units.drop_first(), name, i - 1);
    }
}

proof fn lemma_find_unit_spec_miss(units: Seq<ProcessManager>, name: Seq<char>)
    requires
        forall|j: int| 0 <= j < units.len() ==> #[trigger] units[j].name@ != name,
    ensures
        find_unit_spec(units, name) is None,
    decreases units.len(),
{
    if units.len() > 0 {
        assert(forall|j: int|
            0 <= j < units.len() - 1 ==> #[trigger] units.drop_first()[j].name@ != name) by {
            assert(forall|j: int|
                0 <= j < units.len() - 1 ==> units.drop_first()[j] == units[j + 1]);
        }
        lemma_find_unit_spec_miss(units.drop_first(), name);
    }
}

/// What the first step of a manual restart does: the unit's flag is set and
/// the mode becomes dev; nothing else changes.
pub open spec fn restart_begin_rel(pre: &SupervisorCore, post: &SupervisorCore, i: int) -> bool {
    &&& 0 <= i < pre.units@.len()
    &&& post.units@ == pre.units@.update(
        i,
        ProcessManager { manual_restart_in_progress: true, ..pre.units@[i] },
    )
    &&& post.handlers == pre.handlers
    &&& post.mode.current_mode is Dev
    &&& post.mode.last_tool_call == pre.mode.last_tool_call
    &&& post.mode.dev_timeout_hours == pre.mode.dev_timeout_hours
}

/// What the work between the restart steps may touch: unit lifecycle state
/// and logs, but neither the mode nor any crash handler.
pub open spec fn restart_io_frame(pre: &SupervisorCore, post: &SupervisorCore) -> bool {
    &&& post.units@.len() == pre.units@.len()
    &&& post.handlers == pre.handlers
    &&& post.mode.current_mode == pre.mode.current_mode
}

/// What the last step of a successful manual restart does: the unit's flag is
/// cleared and its crash counter reset; nothing else changes.
pub open spec fn restart_complete_rel(pre: &SupervisorCore, post: &SupervisorCore, i: int) -> bool {
    &&& 0 <= i < pre.units@.len()
    &&& i < pre.handlers@.len()
    &&& post.units@ == pre.units@.update(
        i,
        ProcessManager { manual_restart_in_progress: false, ..pre.units@[i] },
    )
    &&& post.handlers@ == pre.handlers@.update(
        i,
        CrashHandler { crash_count: 0, ..pre.handlers@[i] },
    )
    &&& post.mode == pre.mode
}

impl SupervisorCore {
    /// Well-formed: one handler per unit, and every unit well-formed.
    pub open spec fn wf(&self) -> bool {
        &&& self.units@.len() == self.handlers@.len()
        &&& forall|i: int| 0 <= i < self.units@.len() ==> #[trigger] self.units@[i].wf()
    }

    /// Builds the fleet from a manifest: every unit idle with empty rings,
    /// every crash counter zero, the mode controller in release.
    pub fn new(config: &Config, project_dir: &str, has_direnv: bool) -> (r: Self)
        ensures
            r.wf(),
            r.units@.len() == config.process@.len(),
            forall|i: int|
                0 <= i < config.process@.len() ==> {
                    &&& (#[trigger] r.units@[i]).name == config.process@[i].0
                    &&& r.units@[i].config.process_type == config.process@[i].1.process_type
                    &&& r.units@[i].config.args@ == config.process@[i].1.args@
                    &&& r.units@[i].config.command@ == config.process@[i].1.command@
                    &&& r.units@[i].project_dir@ == project_dir@
                    &&& r.units@[i].has_direnv == has_direnv
                    &&& r.units@[i].state is Idle
                    &&& !r.units@[i].manual_restart_in_progress
                    &&& r.units@[i].events@.len() == 0
                },
            forall|i: int|
                0 <= i < config.process@.len() ==> {
                    &&& (#[trigger] r.handlers@[i]).crash_count == 0
                    &&& r.handlers@[i].dev_crash_wait_seconds == config.dev_crash_wait_seconds
                    &&& r.handlers@[i].release_crash_backoff_initial_seconds
                        == config.release_crash_backoff_initial_seconds
                    &&& r.handlers@[i].release_crash_backoff_max_seconds
                        == config.release_crash_backoff_max_seconds
                },
            r.mode.current_mode is Release,
            r.mode.dev_timeout_hours == config.dev_timeout_hours,
    {
        let mut units: Vec<ProcessManager> = Vec::new();
        let mut handlers: Vec<CrashHandler> = Vec::new();
        let n = config.process.len();
        let mut i: usize = 0;
        while i < n
            invariant
                n == config.process@.len(),
                i <= n,
                units@.len() == i,
                handlers@.len() == i,
                forall|j: int|
                    0 <= j < i ==> {
                        &&& (#[trigger] units@[j]).name == config.process@[j].0
                        &&& units@[j].config.process_type == config.process@[j].1.process_type
                        &&& units@[j].config.args@ == config.process@[j].1.args@
                        &&& units@[j].config.command@ == config.process@[j].1.command@
                        &&& units@[j].project_dir@ == project_dir@
                        &&& units@[j].has_direnv == has_direnv
                        &&& units@[j].state is Idle
                        &&& !units@[j].manual_restart_in_progress
                        &&& units@[j].events@.len() == 0
                        &&& units@[j].wf()
                    },
                forall|j: int|
                    0 <= j < i ==> {
                        &&& (#[trigger] handlers@[j]).crash_count == 0
                        &&& handlers@[j].dev_crash_wait_seconds == config.dev_crash_wait_seconds
                        &&& handlers@[j].release_crash_backoff_initial_seconds
                            == config.release_crash_backoff_initial_seconds
                        &&& handlers@[j].release_crash_backoff_max_seconds
                            == config.release_crash_backoff_max_seconds
                    },
            decreases n - i,
        {
            let entry = &config.process[i];
            let pc = ProcessConfig {
                process_type: entry.1.process_type,
                args: crate::strutil::clone_string_vec(&entry.1.args),
                command: crate::strutil::clone_string_vec(&entry.1.command),
            };
            let pm = ProcessManager::new(
                entry.0.clone(),
                pc,
                String::from_str(project_dir),
                has_direnv,
            );
            units.push(pm);
            handlers.push(
                CrashHandler::new(
                    config.dev_crash_wait_seconds,
                    config.release_crash_backoff_initial_seconds,
                    config.release_crash_backoff_max_seconds,
                ),
            );
            i = i + 1;
        }
        Self { units, handlers, mode: ModeManager::new(config.dev_timeout_hours) }
    }

    /// The index of the first unit with the given name.
    pub fn find_unit(&self, name: &str) -> (r: Option<usize>)
        ensures
            r matches Some(i) ==> find_unit_spec(self.units@, name@) == Some(i as int),
            r is None ==> find_unit_spec(self.units@, name@) is None,
            r matches Some(i) ==> i < self.units@.len() && self.units@[i as int].name@ == name@,
    {
        let n = self.units.len();
        let mut i: usize = 0;
        while i < n
            invariant
                n == self.units@.len(),
                i <= n,
                forall|j: int| 0 <= j < i ==> #[trigger] self.units@[j].name@ != name@,
            decreases n - i,
        {
            if str_eq(self.units[i].name.as_str(), name) {
                proof {
                    lemma_find_unit_spec_hit(self.units@, name@, i as int);
                }
                return Some(i);
            }
            i = i + 1;
        }
        proof {
            lemma_find_unit_spec_miss(self.units@, name@);
        }
        None
    }

    /// The first step of a manual restart: sets the unit's manual-restart
    /// flag and switches the mode to dev.
    pub fn restart_begin(&mut self, i: usize)
        requires
            old(self).wf(),
            i < old(self).units@.len(),
        ensures
            final(self).wf(),
            restart_begin_rel(old(self), final(self), i as int),
    {
        self.units[i].set_manual_restart_flag();
        self.mode.switch_to_dev();
        proof {
            assert(self.units@ =~= old(self).units@.update(
                i as int,
                ProcessManager { manual_restart_in_progress: true, ..old(self).units@[i as int] },
            ));
            assert forall|j: int| 0 <= j < self.units@.len() implies (
            #[trigger] self.units@[j]).wf() by {
                assert(old(self).units@[j].wf());
                if j == i as int {
                    assert(self.units@[j].logs == old(self).units@[j].logs);
                    assert(self.units@[j].build_logs == old(self).units@[j].build_logs);
                    assert(self.units@[j].state == old(self).units@[j].state);
                    assert(self.units@[j].started_at == old(self).units@[j].started_at);
                }
            }
        }
    }

    /// The last step of a successful manual restart: clears the unit's flag
    /// and resets its crash counter.
    pub fn restart_complete(&mut self, i: usize)
        requires
            old(self).wf(),
            i < old(self).units@.len(),
        ensures
            final(self).wf(),
            restart_complete_rel(old(self), final(self), i as int),
    {
        self.units[i].clear_manual_restart_flag();
        self.handlers[i].reset_crash_count();
        proof {
            assert(self.handlers@ =~= old(self).handlers@.update(
                i as int,
                CrashHandler { crash_count: 0, ..old(self).handlers@[i as int] },
            ));
        }
        proof {
            assert(self.units@ =~= old(self).units@.update(
                i as int,
                ProcessManager { manual_restart_in_progress: false, ..old(self).units@[i as int] },
            ));
            assert forall|j: int| 0 <= j < self.units@.len() implies (
            #[trigger] self.units@[j]).wf() by {
                assert(old(self).units@[j].wf());
                if j == i as int {
                    assert(self.units@[j].logs == old(self).units@[j].logs);
                    assert(self.units@[j].build_logs == old(self).units@[j].build_logs);
                    assert(self.units@[j].state == old(self).units@[j].state);
                    assert(self.units@[j].started_at == old(self).units@[j].started_at);
                }
            }
        }
    }

    /// Clears the unit's flag after a failed stop or spawn, leaving the crash
    /// counter as it was.
    pub fn restart_abort(&mut self, i: usize)
        requires
            old(self).wf(),
            i < old(self).units@.len(),
        ensures
            final(self).wf(),
            final(self).units@ == old(self).units@.update(
                i as int,
                ProcessManager {
                    manual_restart_in_progress: false,
                    ..old(self).units@[i as int]
                },
            ),
            final(self).handlers == old(self).handlers,
            final(self).mode == old(self).mode,
    {
        self.units[i].clear_manual_restart_flag();
        proof {
            assert(self.units@ =~= old(self).units@.update(
                i as int,
                ProcessManager { manual_restart_in_progress: false, ..old(self).units@[i as int] },
            ));
            assert forall|j: int| 0 <= j < self.units@.len() implies (
            #[trigger] self.units@[j]).wf() by {
                assert(old(self).units@[j].wf());
                if j == i as int {
                    assert(self.units@[j].logs == old(self).units@[j].logs);
                    assert(self.units@[j].build_logs == old(self).units@[j].build_logs);
                    assert(self.units@[j].state == old(self).units@[j].state);
                    assert(self.units@[j].started_at == old(self).units@[j].started_at);
                }
            }
        }
    }

    /// The units a flip to release must rebuild: every native unit exactly
    /// once, in fleet order; scripted units are not touched.
    pub fn release_flip_targets(&self) -> (r: Vec<usize>)
        ensures
            forall|k: int|
                0 <= k < r@.len() ==> (#[trigger] r@[k] as int) < self.units@.len()
                    && self.units@[r@[k] as int].config.process_type is Rust,
            forall|i: int|
                0 <= i < self.units@.len() && (#[trigger] self.units@[i].config.process_type)
                    is Rust ==> r@.contains(i as usize),
            forall|k1: int, k2: int| 0 <= k1 < k2 < r@.len() ==> #[trigger] r@[k1] < #[trigger] r@[k2],
    {
        let n = self.units.len();
        let mut r: Vec<usize> = Vec::new();
        let mut i: usize = 0;
        while i < n
            invariant
                n == self.units@.len(),
                i <= n,
                forall|k: int|
                    0 <= k < r@.len() ==> (#[trigger] r@[k] as int) < i
                        && self.units@[r@[k] as int].config.process_type is Rust,
                forall|j: int|
                    0 <= j < i && (#[trigger] self.units@[j].config.process_type) is Rust
                        ==> r@.contains(j as usize),
                forall|k1: int, k2: int|
                    0 <= k1 < k2 < r@.len() ==> #[trigger] r@[k1] < #[trigger] r@[k2],
            decreases n - i,
        {
            let ghost pre = r@;
            match self.units[i].config.process_type {
                ProcessType::Rust => {
                    r.push(i);
                    proof {
                        assert forall|j: usize| pre.contains(j) implies r@.contains(j) by {
                            let k = choose|k: int| 0 <= k < pre.len() && pre[k] == j;
                            assert(r@[k] == j);
                        }
                        assert(r@[r@.len() - 1] == i);
                        assert(r@.contains(i));
                    }
                },
                ProcessType::Npm => {},
            }
            i = i + 1;
        }
        r
    }

    /// Searches the runtime log ring of the named unit and joins the result
    /// lines; a unit the manifest does not define is an error.
    pub fn tool_search_logs(
        &self,
        process: &str,
        index: Option<i32>,
        pattern: Option<&str>,
        context_lines: Option<usize>,
        head: Option<usize>,
        tail: Option<usize>,
    ) -> (r: Result<String, SupervisorError>)
        requires
            self.wf(),
        ensures
            r is Ok <==> find_unit_spec(self.units@, process@) is Some,
            r matches Ok(text) ==> text@ == join_with(
                buffer_search_spec(
                    self.units@[find_unit_spec(self.units@, process@)->Some_0].logs@,
                    index,
                    opt_chars(pattern),
                    match context_lines {
                        Some(c) => c as int,
                        None => 0,
                    },
                    opt_int(head),
                    opt_int(tail),
                ),
                "\n"@,
            ),
            r matches Err(e) ==> e matches SupervisorError::UnitNotFound { name } && name@
                == process@,
    {
        match self.find_unit(process) {
            Some(i) => {
                let lines = self.units[i].logs.search(index, pattern, context_lines, head, tail);
                Ok(join_lines(&lines, "\n"))
            },
            None => Err(SupervisorError::UnitNotFound { name: String::from_str(process) }),
        }
    }

    /// Searches the build log ring of the named unit and joins the result
    /// lines; a unit the manifest does not define is an error.
    pub fn tool_search_build_log(
        &self,
        process: &str,
        index: Option<i32>,
        pattern: Option<&str>,
        context_lines: Option<usize>,
        head: Option<usize>,
        tail: Option<usize>,
    ) -> (r: Result<String, SupervisorError>)
        requires
            self.wf(),
        ensures
            r is Ok <==> find_unit_spec(self.units@, process@) is Some,
            r matches Ok(text) ==> text@ == join_with(
                buffer_search_spec(
                    self.units@[find_unit_spec(self.units@, process@)->Some_0].build_logs@,
                    index,
                    opt_chars(pattern),
                    match context_lines {
                        Some(c) => c as int,
                        None => 0,
                    },
                    opt_int(head),
                    opt_int(tail),
                ),
                "\n"@,
            ),
            r matches Err(e) ==> e matches SupervisorError::UnitNotFound { name } && name@
                == process@,
    {
        match self.find_unit(process) {
            Some(i) => {
                let lines = self.units[i].build_logs.search(
                    index,
                    pattern,
                    context_lines,
                    head,
                    tail,
                );
                Ok(join_lines(&lines, "\n"))
            },
            None => Err(SupervisorError::UnitNotFound { name: String::from_str(process) }),
        }
    }

    /// The human-readable status of the whole fleet at the given time: the
    /// mode and time until release, then per unit its state, uptime, recent
    /// events most recent first, and a positive crash count.
    pub fn tool_get_status(&self, now: i64) -> (r: String)
        requires
            self.wf(),
        ensures
            r@ == status_text(self, now as int),
    {
        let mut out = String::from_str("Mode: ");
        match self.mode.get_mode() {
            RunMode::Dev => out.append("Dev"),
            RunMode::Release => out.append("Release"),
        }
        out.append("\n");
        match self.mode.get_time_until_release_mode_at(now) {
            Some(rem) => {
                out.append("Time until release mode: ");
                let hm = hours_minutes(rem);
                out.append(hm.as_str());
                out.append("\n");
            },
            None => {
                out.append("Currently in release mode\n");
            },
        }
        out.append("\nProcesses:\n");
        proof {
            assert(out@ =~= status_header(self.mode, now as int) + "\nProcesses:\n"@);
        }
        let ghost prefix = out@;
        let n = self.units.len();
        let mut i: usize = 0;
        while i < n
            invariant
                self.wf(),
                n == self.units@.len(),
                i <= n,
                out@ == prefix + units_status_upto(self.units@, self.handlers@, now as int, i as int),
            decreases n - i,
        {
            let block = unit_status_string(&self.units[i], &self.handlers[i], now);
            out.append(block.as_str());
            proof {
                assert(out@ =~= prefix + units_status_upto(
                    self.units@,
                    self.handlers@,
                    now as int,
                    i + 1,
                ));
            }
            i = i + 1;
        }
        out
    }
}

/// After a manual restart succeeds, the unit's crash counter is zero, the
/// mode is dev, and the unit's manual-restart flag is clear: the first step
/// set the mode, the outside work between the steps touches neither the mode
/// nor any counter, and the last step resets the counter.
pub proof fn lemma_restart_resets(
    s0: &SupervisorCore,
    s1: &SupervisorCore,
    s2: &SupervisorCore,
    s3: &SupervisorCore,
    i: int,
)
    requires
        restart_begin_rel(s0, s1, i),
        restart_io_frame(s1, s2),
        restart_complete_rel(s2, s3, i),
    ensures
        s3.mode.current_mode is Dev,
        s3.handlers@[i].crash_count == 0,
        !s3.units@[i].manual_restart_in_progress,
{
    assert(s3.handlers@[i] == (CrashHandler { crash_count: 0, ..s2.handlers@[i] }));
    assert(s3.units@[i] == (ProcessManager {
        manual_restart_in_progress: false,
        ..s2.units@[i]
    }));
}


/// "Dev" or "Release", as the status text writes the mode.
pub open spec fn mode_str(m: RunMode) -> Seq<char> {
    match m {
        RunMode::Dev => "Dev"@,
        RunMode::Release => "Release"@,
    }
}

/// An integer clamped below at zero.
pub open spec fn clamp0(v: int) -> int {
    if v < 0 {
        0
    } else {
        v
    }
}

/// "H hours M minutes" for a nonnegative number of seconds.
pub open spec fn hours_minutes_str(secs: int) -> Seq<char>
    recommends
        secs >= 0,
{
    dec_digits(secs / 3600) + " hours "@ + dec_digits((secs / 60) % 60) + " minutes"@
}

/// The mode lines at the head of the status text.
pub open spec fn status_header(m: ModeManager, now: int) -> Seq<char> {
    "Mode: "@ + mode_str(m.current_mode) + "\n"@ + if m.current_mode is Release {
        "Currently in release mode\n"@
    } else {
        "Time until release mode: "@ + hours_minutes_str(
            clamp_u64(timeout_seconds(&m) - (now - m.last_tool_call)),
        ) + "\n"@
    }
}

/// One event line: most-recent-first position `j` shows the event that many
/// places from the end of the log.
pub open spec fn event_line(events: Seq<ProcessEvent>, j: int) -> Seq<char> {
    "      - "@ + event_description(&events[events.len() - 1 - j]) + "\n"@
}

/// The first `k` event lines, most recent first.
pub open spec fn event_lines_upto(events: Seq<ProcessEvent>, k: int) -> Seq<char>
    decreases k,
{
    if k <= 0 {
        Seq::empty()
    } else {
        event_lines_upto(events, k - 1) + event_line(events, k - 1)
    }
}

/// The status block of one unit: name and state, uptime while running, the
/// last five events most recent first, and a positive crash count.
pub open spec fn unit_status(u: ProcessManager, h: CrashHandler, now: int) -> Seq<char> {
    let base = "\n  "@ + u.name@ + ": "@ + state_str(&u.state) + "\n"@;
    let upline = match u.started_at {
        Some(t) => "    Uptime: "@ + hours_minutes_str(clamp0(sat_sub_i64(now, t as int)))
            + "\n"@,
        None => Seq::<char>::empty(),
    };
    let evcount: int = if u.events@.len() < 5 {
        u.events@.len() as int
    } else {
        5
    };
    let evlines = if u.events@.len() == 0 {
        Seq::<char>::empty()
    } else {
        "    Recent events:\n"@ + event_lines_upto(u.events@, evcount)
    };
    let crashline = if h.crash_count > 0 {
        "    Crash count: "@ + dec_digits(h.crash_count as int) + "\n"@
    } else {
        Seq::<char>::empty()
    };
    base + upline + evlines + crashline
}

/// The status blocks of the first `n` units.
pub open spec fn units_status_upto(
    units: Seq<ProcessManager>,
    handlers: Seq<CrashHandler>,
    now: int,
    n: int,
) -> Seq<char>
    decreases n,
{
    if n <= 0 {
        Seq::empty()
    } else {
        units_status_upto(units, handlers, now, n - 1) + unit_status(
            units[n - 1],
            handlers[n - 1],
            now,
        )
    }
}

/// The whole status text at the given time.
pub open spec fn status_text(s: &SupervisorCore, now: int) -> Seq<char> {
    status_header(s.mode, now) + "\nProcesses:\n"@ + units_status_upto(
        s.units@,
        s.handlers@,
        now,
        s.units@.len() as int,
    )
}

fn hours_minutes(secs: u64) -> (r: String)
    ensures
        r@ == hours_minutes_str(secs as int),
{
    let mut s = u64_to_string(secs / 3600);
    s.append(" hours ");
    let m = u64_to_string((secs / 60) % 60);
    s.append(m.as_str());
    s.append(" minutes");
    s
}

fn unit_status_string(u: &ProcessManager, h: &CrashHandler, now: i64) -> (r: String)
    ensures
        r@ == unit_status(*u, *h, now as int),
{
    let mut s = String::from_str("\n  ");
    s.append(u.name.as_str());
    s.append(": ");
    s.append(u.state.as_str());
    s.append("\n");
    match u.get_uptime(now) {
        Some(up) => {
            s.append("    Uptime: ");
            let upn: u64 = if up < 0 {
                0
            } else {
                up as u64
            };
            let hm = hours_minutes(upn);
            s.append(hm.as_str());
            s.append("\n");
        },
        None => {},
    }
    if u.events.len() > 0 {
        s.append("    Recent events:\n");
        let k: usize = if u.events.len() < 5 {
            u.events.len()
        } else {
            5
        };
        let ghost evprefix = s@;
        let mut j: usize = 0;
        while j < k
            invariant
                k <= u.events@.len(),
                j <= k,
                s@ == evprefix + event_lines_upto(u.events@, j as int),
            decreases k - j,
        {
            let idx = u.events.len() - 1 - j;
            s.append("      - ");
            let desc = u.events[idx].description();
            s.append(desc.as_str());
            s.append("\n");
            proof {
                assert(s@ =~= evprefix + event_lines_upto(u.events@, j + 1));
            }
            j = j + 1;
        }
    }
    if h.get_crash_count() > 0 {
        s.append("    Crash count: ");
        let c = usize_to_string(h.get_crash_count());
        s.append(c.as_str());
        s.append("\n");
    }
    proof {
        assert(s@ =~= unit_status(*u, *h, now as int));
    }
    s
}

} // verus!
