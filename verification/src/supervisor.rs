//! The supervisor state machine. Each iteration runs the command once and
//! hands the outcome to [`Supervisor::step`], which updates the counters,
//! decides continue-versus-stop, and says word for word which annotation to
//! record. The laws at the bottom state how the machine behaves over any
//! number of iterations.

use vstd::prelude::*;
use crate::outcome::CommandResult;
use crate::render::{
    failure_line,
    launch_failure_line,
    spec_failure_line,
    spec_launch_failure_line,
    spec_status_line,
    status_line,
};

verus! {

/// Why the supervisor stopped.
#[derive(Clone, Copy, Debug, PartialEq, Eq, Structural)]
pub enum StopReason {
    /// The command exited nonzero and keep-going was not set.
    CommandFailed,
    /// The command could not be launched; never retried, keep-going or not.
    LaunchFailed,
    /// The command was terminated by a signal.
    Interrupted,
}

/// The supervisor's state: running, or stopped for a recorded reason.
#[derive(Clone, Copy, Debug, PartialEq, Eq, Structural)]
pub enum Status {
    Running,
    Stopped(StopReason),
}

/// The mathematical model of the supervisor: the same fields with unbounded
/// counters, which the transition function and the laws below speak of.
pub struct SupervisorView {
    pub keep_going: bool,
    pub iteration: nat,
    pub failures: nat,
    pub status: Status,
}

/// One transition of the supervisor: what one command outcome does to the
/// counters and the status.
///
/// - exit code 0: the iteration succeeds; count it and keep running.
/// - exit code nonzero: count a failure; with keep-going also count the
///   iteration and keep running, without it stop as `CommandFailed`.
/// - launch failure: stop as `LaunchFailed`, keep-going notwithstanding.
/// - interruption: stop as `Interrupted`.
pub open spec fn spec_step(m: SupervisorView, r: CommandResult) -> SupervisorView {
    match r {
        CommandResult::Code(code) => {
            if code == 0 {
                SupervisorView { iteration: m.iteration + 1, ..m }
            } else if m.keep_going {
                SupervisorView { iteration: m.iteration + 1, failures: m.failures + 1, ..m }
            } else {
                SupervisorView {
                    failures: m.failures + 1,
                    status: Status::Stopped(StopReason::CommandFailed),
                    ..m
                }
            }
        },
        CommandResult::LaunchFailure(_) => SupervisorView {
            status: Status::Stopped(StopReason::LaunchFailed),
            ..m
        },
        CommandResult::Interrupted => SupervisorView {
            status: Status::Stopped(StopReason::Interrupted),
            ..m
        },
    }
}

/// What the caller is to do after a step.
pub enum Directive {
    /// Keep iterating. When the outcome was a counted failure, the
    /// annotation to append to the sink first.
    Proceed { failure_note: Option<String> },
    /// Stop for the given reason, after recording the annotation.
    Halt { reason: StopReason, note: String },
}

/// The supervisor: the keep-going policy, the two running counters, and the
/// current status. Counters are incremented once per completed iteration and
/// never reset.
pub struct Supervisor {
    pub keep_going: bool,
    pub iteration: u64,
    pub failures: u64,
    pub status: Status,
}

impl View for Supervisor {
    type V = SupervisorView;

    open spec fn view(&self) -> SupervisorView {
        SupervisorView {
            keep_going: self.keep_going,
            iteration: self.iteration as nat,
            failures: self.failures as nat,
            status: self.status,
        }
    }
}

impl Supervisor {
    /// A fresh supervisor: running, with both counters at zero.
    pub fn new(keep_going: bool) -> (s: Supervisor)
        ensures
            s@ == (SupervisorView { keep_going, iteration: 0nat, failures: 0nat, status: Status::Running }),
    {
        Supervisor { keep_going, iteration: 0, failures: 0, status: Status::Running }
    }

    /// Feeds one command outcome to the machine. The new state is exactly
    /// one [`spec_step`] transition from the old, and the directive says
    /// whether to keep iterating and which annotation to record:
    ///
    /// - exit code 0: proceed, nothing to record;
    /// - exit code nonzero: the failure annotation with that code, then
    ///   proceed when keep-going is set and halt otherwise;
    /// - launch failure: halt, with the diagnostic around the cause;
    /// - interruption: halt, with the interruption annotation.
    pub fn step(&mut self, result: &CommandResult) -> (d: Directive)
        requires
            old(self).status is Running,
            old(self).iteration < u64::MAX,
            old(self).failures < u64::MAX,
        ensures
            final(self)@ == spec_step(old(self)@, *result),
            d is Proceed <==> final(self).status is Running,
            match *result {
                CommandResult::Code(code) => {
                    if code == 0 {
                        d == (Directive::Proceed { failure_note: Option::<String>::None })
                    } else if old(self).keep_going {
                        d matches Directive::Proceed { failure_note: Some(note) } && note@
                            == spec_failure_line(code as int)
                    } else {
                        d matches Directive::Halt { reason: StopReason::CommandFailed, note }
                            && note@ == spec_failure_line(code as int)
                    }
                },
                CommandResult::LaunchFailure(ref cause) => d matches Directive::Halt {
                    reason: StopReason::LaunchFailed,
                    note,
                } && note@ == spec_launch_failure_line(cause@),
                CommandResult::Interrupted => d matches Directive::Halt {
                    reason: StopReason::Interrupted,
                    note,
                } && note@ == "Command was interrupted!"@,
            },
    {
        match result {
            CommandResult::Code(code) => {
                if *code == 0 {
                    self.iteration = self.iteration + 1;
                    Directive::Proceed { failure_note: None }
                } else if self.keep_going {
                    self.iteration = self.iteration + 1;
                    self.failures = self.failures + 1;
                    Directive::Proceed { failure_note: Some(failure_line(*code)) }
                } else {
                    self.failures = self.failures + 1;
                    self.status = Status::Stopped(StopReason::CommandFailed);
                    Directive::Halt {
                        reason: StopReason::CommandFailed,
                        note: failure_line(*code),
                    }
                }
            },
            CommandResult::LaunchFailure(cause) => {
                self.status = Status::Stopped(StopReason::LaunchFailed);
                Directive::Halt {
                    reason: StopReason::LaunchFailed,
                    note: launch_failure_line(cause.as_str()),
                }
            },
            CommandResult::Interrupted => {
                self.status = Status::Stopped(StopReason::Interrupted);
                Directive::Halt {
                    reason: StopReason::Interrupted,
                    note: String::from_str("Command was interrupted!"),
                }
            },
        }
    }

    /// The status line summarizing this supervisor's counters, with the
    /// elapsed time as the caller measured and rendered it.
    pub fn status_line(&self, elapsed: &str) -> (s: String)
        ensures
            s@ == spec_status_line(
                self.keep_going,
                self.iteration as nat,
                self.failures as nat,
                elapsed@,
            ),
    {
        status_line(self.keep_going, self.iteration, self.failures, elapsed)
    }
}

/// Counters only ever grow and the policy never changes: no transition
/// resets the iteration or failure count, and the keep-going flag is fixed
/// for the whole run.
pub proof fn lemma_counters_never_reset(m: SupervisorView, r: CommandResult)
    ensures
        spec_step(m, r).iteration >= m.iteration,
        spec_step(m, r).failures >= m.failures,
        spec_step(m, r).keep_going == m.keep_going,
{
}

/// The machine after `k` iterations that all report the same outcome.
pub open spec fn spec_run(m: SupervisorView, r: CommandResult, k: nat) -> SupervisorView
    decreases k,
{
    if k == 0 {
        m
    } else {
        spec_step(spec_run(m, r, (k - 1) as nat), r)
    }
}

/// With keep-going set and a command that always exits with the same
/// nonzero code, after `k` iterations the failure counter and the iteration
/// counter have each grown by exactly `k`, and the machine is still running:
/// it never stops on its own.
pub proof fn lemma_keep_going_counts_failures(m: SupervisorView, code: i32, k: nat)
    requires
        m.status is Running,
        m.keep_going,
        code != 0,
    ensures
        spec_run(m, CommandResult::Code(code), k) == (SupervisorView {
            iteration: m.iteration + k,
            failures: m.failures + k,
            ..m
        }),
    decreases k,
{
    if k > 0 {
        lemma_keep_going_counts_failures(m, code, (k - 1) as nat);
    }
}

/// With a command that always succeeds, the machine runs indefinitely: after
/// any `k` iterations it is still running, the iteration counter has grown
/// by exactly `k` — so successive status lines carry strictly increasing
/// iteration numbers — and the failure counter has not moved.
pub proof fn lemma_success_runs_forever(m: SupervisorView, k: nat)
    requires
        m.status is Running,
    ensures
        spec_run(m, CommandResult::Code(0), k) == (SupervisorView {
            iteration: m.iteration + k,
            ..m
        }),
    decreases k,
{
    if k > 0 {
        lemma_success_runs_forever(m, (k - 1) as nat);
    }
}

/// Without keep-going, one nonzero exit stops the machine: a single
/// iteration records exactly one failure, leaves the iteration counter
/// alone, and lands in `Stopped(CommandFailed)`.
pub proof fn lemma_stop_on_failure(m: SupervisorView, code: i32)
    requires
        m.status is Running,
        !m.keep_going,
        code != 0,
    ensures
        spec_step(m, CommandResult::Code(code)) == (SupervisorView {
            failures: m.failures + 1,
            status: Status::Stopped(StopReason::CommandFailed),
            ..m
        }),
{
}

/// A launch failure stops the machine on the first iteration whatever the
/// keep-going flag says, and counts neither an iteration nor a failure.
pub proof fn lemma_launch_failure_short_circuits(m: SupervisorView, cause: String)
    requires
        m.status is Running,
    ensures
        spec_step(m, CommandResult::LaunchFailure(cause)) == (SupervisorView {
            status: Status::Stopped(StopReason::LaunchFailed),
            ..m
        }),
{
}

/// An interruption of the command stops the machine unconditionally, and
/// counts neither an iteration nor a failure.
pub proof fn lemma_interruption_stops(m: SupervisorView)
    requires
        m.status is Running,
    ensures
        spec_step(m, CommandResult::Interrupted) == (SupervisorView {
            status: Status::Stopped(StopReason::Interrupted),
            ..m
        }),
{
}

} // verus!
