//! The manifest schema and its validation rules.
//!
//! Reading and parsing the manifest file is I/O and stays outside the
//! library; the schema, the defaults, and the validation rules live here.

use vstd::prelude::*;

verus! {

/// How a unit is produced and launched.
#[derive(Debug, Clone, Copy, PartialEq, Eq, Structural)]
pub enum ProcessType {
    /// Built by the external toolchain, then the artifact is launched.
    Rust,
    /// The configured command line is launched directly.
    Npm,
}

/// One unit's manifest entry.
#[derive(Debug, Clone)]
pub struct ProcessConfig {
    pub process_type: ProcessType,
    /// Extra arguments for a native unit's artifact.
    pub args: Vec<String>,
    /// The command line of a scripted unit; required and non-empty there.
    pub command: Vec<String>,
}

/// The whole manifest.
#[derive(Debug, Clone)]
pub struct Config {
    pub mcp_port: u16,
    pub dev_timeout_hours: u64,
    pub dev_crash_wait_seconds: u64,
    pub release_crash_backoff_initial_seconds: u64,
    pub release_crash_backoff_max_seconds: u64,
    /// The units, keyed by name.
    pub process: Vec<(String, ProcessConfig)>,
}

pub fn default_dev_timeout_hours() -> (r: u64)
    ensures
        r == 3,
{
    3
}

pub fn default_dev_crash_wait_seconds() -> (r: u64)
    ensures
        r == 120,
{
    120
}

pub fn default_release_crash_backoff_initial_seconds() -> (r: u64)
    ensures
        r == 1,
{
    1
}

pub fn default_release_crash_backoff_max_seconds() -> (r: u64)
    ensures
        r == 300,
{
    300
}

/// What the manifest can be rejected for.
#[derive(Debug, Clone)]
pub enum ConfigError {
    /// No unit is defined.
    NoProcesses,
    /// A scripted unit has no command.
    EmptyCommand { name: String },
}

/// A scripted unit must have a non-empty command.
pub open spec fn npm_ok(pc: &ProcessConfig) -> bool {
    pc.process_type is Npm ==> pc.command.len() > 0
}

/// A valid manifest defines at least one unit and gives every scripted unit
/// a command.
pub open spec fn config_valid(c: &Config) -> bool {
    &&& c.process.len() > 0
    &&& forall|i: int| 0 <= i < c.process@.len() ==> npm_ok(&#[trigger] c.process@[i].1)
}

impl Config {
    /// Accepts exactly the valid manifests; an empty process table and the
    /// first scripted unit without a command are each named.
    pub fn validate(&self) -> (r: Result<(), ConfigError>)
        ensures
            r is Ok <==> config_valid(self),
            self.process@.len() == 0 ==> r == Err::<(), ConfigError>(ConfigError::NoProcesses),
            r matches Err(ConfigError::EmptyCommand { name }) ==> exists|i: int|
                0 <= i < self.process@.len() && !npm_ok(&#[trigger] self.process@[i].1) && name
                    == self.process@[i].0,
    {
        if self.process.len() == 0 {
            return Err(ConfigError::NoProcesses);
        }
        let n = self.process.len();
        let mut i: usize = 0;
        while i < n
            invariant
                n == self.process@.len(),
                i <= n,
                forall|j: int| 0 <= j < i ==> npm_ok(&#[trigger] self.process@[j].1),
            decreases n - i,
        {
            let entry = &self.process[i];
            match entry.1.process_type {
                ProcessType::Rust => {},
                ProcessType::Npm => {
                    if entry.1.command.len() == 0 {
                        return Err(ConfigError::EmptyCommand { name: entry.0.clone() });
                    }
                },
            }
            i = i + 1;
        }
        Ok(())
    }
}

} // verus!
