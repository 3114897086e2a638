//! The three-way outcome of running the supervised command once: it exited
//! with a status code, it was terminated by a signal before producing one, or
//! it could not be launched at all.

use vstd::prelude::*;

verus! {

/// Outcome of one command execution, produced by the command runner and
/// consumed immediately by the supervisor.
pub enum CommandResult {
    /// The executable could not be spawned, a handle could not be duplicated,
    /// or waiting for completion itself failed; carries the reported cause.
    LaunchFailure(String),
    /// The process was terminated by a signal and produced no exit code.
    Interrupted,
    /// The process exited normally with this status code.
    Code(i32),
}

impl CommandResult {
    /// A result that counts as a per-iteration failure: a normal exit with a
    /// nonzero code.
    pub open spec fn is_failure(&self) -> bool {
        self is Code && self->Code_0 != 0
    }

    /// Classifies what waiting on the child reported: an exit code when the
    /// process exited normally, interruption when a signal terminated it and
    /// no code exists.
    pub fn from_wait(code: Option<i32>) -> (r: CommandResult)
        ensures
            match code {
                Some(n) => r == CommandResult::Code(n),
                None => r == CommandResult::Interrupted,
            },
    {
        match code {
            Some(n) => CommandResult::Code(n),
            None => CommandResult::Interrupted,
        }
    }
}

} // verus!
