//! The global dev/release mode controller, driven by client activity.
//!
//! The supervisor starts in release mode with the last-call clock set to now,
//! so a quiet system stays in release. A manual restart switches to dev; the
//! mode watcher flips back to release once no tool call has been seen for the
//! configured number of hours.

use vstd::prelude::*;

use crate::clock::now_unix_seconds;
use crate::crash_handler::RunMode;

verus! {

/// Global mode state: the current mode and the time of the last observed
/// client tool call.
pub struct ModeManager {
    pub current_mode: RunMode,
    pub last_tool_call: i64,
    pub dev_timeout_hours: u64,
}

/// The inactivity window in seconds.
pub open spec fn timeout_seconds(m: &ModeManager) -> int {
    m.dev_timeout_hours * 3600
}

/// Whether the watcher should flip to release: dev mode, and the last tool
/// call is more than the timeout in the past.
pub open spec fn should_switch_spec(m: &ModeManager, now: int) -> bool {
    m.current_mode is Dev && now - m.last_tool_call > timeout_seconds(m)
}

/// An integer clamped into the `u64` range.
pub open spec fn clamp_u64(v: int) -> int {
    if v < 0 {
        0
    } else if v > u64::MAX {
        u64::MAX as int
    } else {
        v
    }
}

impl ModeManager {
    /// Starts in release mode with the last-call clock set to now.
    pub fn new(dev_timeout_hours: u64) -> (r: Self)
        ensures
            r.current_mode is Release,
            r.dev_timeout_hours == dev_timeout_hours,
    {
        let now = now_unix_seconds();
        Self { current_mode: RunMode::Release, last_tool_call: now, dev_timeout_hours }
    }

    /// Resets the inactivity clock to the given time.
    pub fn record_tool_call_at(&mut self, now: i64)
        ensures
            final(self).last_tool_call == now,
            final(self).current_mode == old(self).current_mode,
            final(self).dev_timeout_hours == old(self).dev_timeout_hours,
    {
        self.last_tool_call = now;
    }

    /// Resets the inactivity clock to the current time.
    pub fn record_tool_call(&mut self)
        ensures
            final(self).current_mode == old(self).current_mode,
            final(self).dev_timeout_hours == old(self).dev_timeout_hours,
    {
        let now = now_unix_seconds();
        self.record_tool_call_at(now);
    }

    pub fn get_mode(&self) -> (r: RunMode)
        ensures
            r == self.current_mode,
    {
        self.current_mode
    }

    /// Whether the watcher should flip to release, judged at the given time.
    pub fn should_switch_to_release_at(&self, now: i64) -> (r: bool)
        ensures
            r == should_switch_spec(self, now as int),
    {
        match self.current_mode {
            RunMode::Release => false,
            RunMode::Dev => {
                let elapsed: i128 = (now as i128) - (self.last_tool_call as i128);
                let window: i128 = (self.dev_timeout_hours as i128) * 3600;
                elapsed > window
            },
        }
    }

    /// Whether the watcher should flip to release, judged at the current
    /// time. In release mode this is false at every reading.
    pub fn should_switch_to_release(&self) -> (r: bool)
        ensures
            self.current_mode is Release ==> r == false,
    {
        let now = now_unix_seconds();
        self.should_switch_to_release_at(now)
    }

    pub fn switch_to_release(&mut self)
        ensures
            final(self).current_mode is Release,
            final(self).last_tool_call == old(self).last_tool_call,
            final(self).dev_timeout_hours == old(self).dev_timeout_hours,
    {
        self.current_mode = RunMode::Release;
    }

    pub fn switch_to_dev(&mut self)
        ensures
            final(self).current_mode is Dev,
            final(self).last_tool_call == old(self).last_tool_call,
            final(self).dev_timeout_hours == old(self).dev_timeout_hours,
    {
        self.current_mode = RunMode::Dev;
    }

    /// The seconds until the flip to release, judged at the given time:
    /// nothing in release mode, otherwise the remainder of the inactivity
    /// window, clamped into the `u64` range.
    pub fn get_time_until_release_mode_at(&self, now: i64) -> (r: Option<u64>)
        ensures
            r is None <==> self.current_mode is Release,
            self.current_mode is Dev ==> r == Some(
                clamp_u64(timeout_seconds(self) - (now - self.last_tool_call)) as u64,
            ),
    {
        match self.current_mode {
            RunMode::Release => None,
            RunMode::Dev => {
                let elapsed: i128 = (now as i128) - (self.last_tool_call as i128);
                let window: i128 = (self.dev_timeout_hours as i128) * 3600;
                let remaining: i128 = window - elapsed;
                if remaining < 0 {
                    Some(0)
                } else if remaining > u64::MAX as i128 {
                    Some(u64::MAX)
                } else {
                    Some(remaining as u64)
                }
            },
        }
    }

    /// The seconds until the flip to release, judged at the current time;
    /// nothing exactly when the mode is release.
    pub fn get_time_until_release_mode(&self) -> (r: Option<u64>)
        ensures
            r is None <==> self.current_mode is Release,
    {
        let now = now_unix_seconds();
        self.get_time_until_release_mode_at(now)
    }
}

/// The flip fires at most once per sustained-inactivity window: once the mode
/// has been switched to release, the flip condition is false at every later
/// reading until a switch back to dev.
pub proof fn lemma_flip_fires_once_per_window(m: &ModeManager, now: int)
    requires
        m.current_mode is Release,
    ensures
        !should_switch_spec(m, now),
{
}

} // verus!
