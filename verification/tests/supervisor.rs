use watchtee::outcome::CommandResult;
use watchtee::supervisor::{Directive, Status, StopReason, Supervisor};

#[test]
fn keep_going_counts_every_failure() {
    // A command that always exits 1, with keep-going set: after k iterations
    // both counters read k and the supervisor is still running.
    let mut sup = Supervisor::new(true);
    for k in 1..=5u64 {
        let d = sup.step(&CommandResult::Code(1));
        match d {
            Directive::Proceed { failure_note } => {
                assert_eq!(failure_note.unwrap(), "Command exited with code: 1");
            }
            Directive::Halt { .. } => panic!("keep-going run must not halt on its own"),
        }
        assert_eq!(sup.failures, k);
        assert_eq!(sup.iteration, k);
        assert_eq!(sup.status, Status::Running);
    }
}

#[test]
fn stop_on_first_failure_without_keep_going() {
    // Without keep-going, one nonzero exit means one failure annotation and
    // a transition to Stopped.
    let mut sup = Supervisor::new(false);
    let d = sup.step(&CommandResult::Code(1));
    match d {
        Directive::Halt { reason, note } => {
            assert_eq!(reason, StopReason::CommandFailed);
            assert_eq!(note, "Command exited with code: 1");
        }
        Directive::Proceed { .. } => panic!("a failure without keep-going must halt"),
    }
    assert_eq!(sup.failures, 1);
    assert_eq!(sup.iteration, 0);
    assert_eq!(sup.status, Status::Stopped(StopReason::CommandFailed));
}

#[test]
fn launch_failure_overrides_keep_going() {
    // A non-existent executable stops the run even with keep-going set.
    let mut sup = Supervisor::new(true);
    let cause = String::from("No such file or directory (os error 2)");
    let d = sup.step(&CommandResult::LaunchFailure(cause));
    match d {
        Directive::Halt { reason, note } => {
            assert_eq!(reason, StopReason::LaunchFailed);
            assert_eq!(
                note,
                "Failed to launch command: No such file or directory (os error 2)"
            );
        }
        Directive::Proceed { .. } => panic!("a launch failure must halt"),
    }
    assert_eq!(sup.status, Status::Stopped(StopReason::LaunchFailed));
    assert_eq!(sup.failures, 0);
    assert_eq!(sup.iteration, 0);
}

#[test]
fn succeeding_command_never_stops() {
    // A command that always exits 0 keeps the loop running; the status lines
    // carry strictly increasing iteration numbers and no failure count.
    let mut sup = Supervisor::new(false);
    let mut last_iteration = 0u64;
    for k in 1..=5u64 {
        let d = sup.step(&CommandResult::Code(0));
        match d {
            Directive::Proceed { failure_note } => assert!(failure_note.is_none()),
            Directive::Halt { .. } => panic!("a succeeding command must not halt the loop"),
        }
        assert_eq!(sup.status, Status::Running);
        assert!(sup.iteration > last_iteration);
        last_iteration = sup.iteration;
        let line = sup.status_line("1.5s");
        assert_eq!(line, format!("Iterations: {}, elapsed time: 1.5s", k));
    }
    assert_eq!(sup.iteration, 5);
    assert_eq!(sup.failures, 0);
}

#[test]
fn single_failing_iteration_writes_exit_code_line() {
    // The `false` command: exactly one iteration, one failure line that
    // names exit code 1, then the stopped state the process exits 0 from.
    let mut sup = Supervisor::new(false);
    let d = sup.step(&CommandResult::Code(1));
    let note = match d {
        Directive::Halt { note, .. } => note,
        Directive::Proceed { .. } => panic!("expected a halt"),
    };
    assert!(note.contains("1"));
    assert_eq!(note, "Command exited with code: 1");
    assert_eq!(sup.status, Status::Stopped(StopReason::CommandFailed));
    assert_eq!(sup.failures, 1);
}

#[test]
fn interruption_stops_unconditionally() {
    let mut sup = Supervisor::new(true);
    let d = sup.step(&CommandResult::Interrupted);
    match d {
        Directive::Halt { reason, note } => {
            assert_eq!(reason, StopReason::Interrupted);
            assert_eq!(note, "Command was interrupted!");
        }
        Directive::Proceed { .. } => panic!("an interruption must halt"),
    }
    assert_eq!(sup.status, Status::Stopped(StopReason::Interrupted));
    assert_eq!(sup.failures, 0);
    assert_eq!(sup.iteration, 0);
}

#[test]
fn negative_exit_code_counts_as_failure() {
    let mut sup = Supervisor::new(true);
    let d = sup.step(&CommandResult::Code(-9));
    match d {
        Directive::Proceed { failure_note } => {
            assert_eq!(failure_note.unwrap(), "Command exited with code: -9");
        }
        Directive::Halt { .. } => panic!("keep-going run must not halt on a nonzero code"),
    }
    assert_eq!(sup.failures, 1);
    assert_eq!(sup.iteration, 1);
}

#[test]
fn status_line_with_keep_going_reports_failures() {
    let mut sup = Supervisor::new(true);
    sup.step(&CommandResult::Code(1));
    sup.step(&CommandResult::Code(0));
    sup.step(&CommandResult::Code(1));
    assert_eq!(
        sup.status_line("500ms"),
        "Iterations: 3, failures: 2, elapsed time: 500ms"
    );
}
