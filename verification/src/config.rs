//! The immutable run configuration: inter-iteration delay, optional log
//! path, the keep-going flag, and the command with its arguments. The one
//! rule a configuration must meet is that the command vector is non-empty.

use vstd::prelude::*;

verus! {

/// Why a configuration was rejected.
#[derive(Clone, Copy, Debug, PartialEq, Eq, Structural)]
pub enum ConfigError {
    /// The command vector held not even a program name.
    EmptyCommand,
}

impl ConfigError {
    /// A single-line diagnostic for the error.
    pub fn message(&self) -> (s: String)
        ensures
            s@ == "no command given"@,
    {
        String::from_str("no command given")
    }
}

/// Immutable run parameters, constructed once at startup and read-only
/// thereafter.
pub struct Config {
    /// Seconds to sleep between iterations.
    pub delay: u64,
    /// Path of the log file; a disposable backing file is used when absent.
    pub log: Option<String>,
    /// Continue iterating after a nonzero exit code.
    pub keep_going: bool,
    /// The command name followed by its arguments; never empty.
    pub cmd: Vec<String>,
}

impl Config {
    /// A configuration is well formed exactly when it names a command.
    pub open spec fn wf(&self) -> bool {
        self.cmd@.len() > 0
    }

    /// Validates and assembles a configuration; rejects an empty command
    /// vector and accepts everything else unchanged.
    pub fn new(delay: u64, log: Option<String>, keep_going: bool, cmd: Vec<String>) -> (r: Result<
        Config,
        ConfigError,
    >)
        ensures
            r is Ok <==> cmd@.len() > 0,
            r matches Ok(c) ==> c.wf() && c.delay == delay && c.log == log && c.keep_going
                == keep_going && c.cmd@ == cmd@,
            r is Err ==> r->Err_0 == ConfigError::EmptyCommand,
    {
        if cmd.len() == 0 {
            Err(ConfigError::EmptyCommand)
        } else {
            Ok(Config { delay, log, keep_going, cmd })
        }
    }

    /// The program to execute: the first entry of the command vector.
    pub fn program(&self) -> (p: &String)
        requires
            self.wf(),
        ensures
            p == self.cmd@[0],
    {
        &self.cmd[0]
    }
}

} // verus!
