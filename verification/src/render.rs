//! Exact text of every line the supervisor injects into the log: decimal
//! rendering of the counters and exit codes, the failure and launch-failure
//! annotations, the per-iteration status line, and the decorative framing
//! around a message.

use vstd::prelude::*;

verus! {

/// The decimal digit character for a value in `0 ..= 9`.
pub open spec fn spec_digit(d: int) -> char {
    if d == 0 {
        '0'
    } else if d == 1 {
        '1'
    } else if d == 2 {
        '2'
    } else if d == 3 {
        '3'
    } else if d == 4 {
        '4'
    } else if d == 5 {
        '5'
    } else if d == 6 {
        '6'
    } else if d == 7 {
        '7'
    } else if d == 8 {
        '8'
    } else {
        '9'
    }
}

/// The usual decimal rendering of a natural number: no sign, no leading
/// zeros except for the number zero itself.
pub open spec fn spec_uint_string(n: nat) -> Seq<char>
    decreases n,
{
    if n < 10 {
        seq![spec_digit(n as int)]
    } else {
        spec_uint_string(n / 10) + seq![spec_digit((n % 10) as int)]
    }
}

/// Decimal rendering of a signed number: a minus sign in front of the
/// magnitude when negative.
pub open spec fn spec_int_string(n: int) -> Seq<char> {
    if n < 0 {
        seq!['-'] + spec_uint_string((-n) as nat)
    } else {
        spec_uint_string(n as nat)
    }
}

fn digit_str(d: u64) -> (r: &'static str)
    requires
        d < 10,
    ensures
        r@ == seq![spec_digit(d as int)],
{
    let r: &'static str = if d == 0 {
        "0"
    } else if d == 1 {
        "1"
    } else if d == 2 {
        "2"
    } else if d == 3 {
        "3"
    } else if d == 4 {
        "4"
    } else if d == 5 {
        "5"
    } else if d == 6 {
        "6"
    } else if d == 7 {
        "7"
    } else if d == 8 {
        "8"
    } else {
        "9"
    };
    proof {
        reveal_strlit("0");
        reveal_strlit("1");
        reveal_strlit("2");
        reveal_strlit("3");
        reveal_strlit("4");
        reveal_strlit("5");
        reveal_strlit("6");
        reveal_strlit("7");
        reveal_strlit("8");
        reveal_strlit("9");
        assert(r@ =~= seq![spec_digit(d as int)]);
    }
    r
}

/// Renders an unsigned counter in decimal.
pub fn u64_string(n: u64) -> (s: String)
    ensures
        s@ == spec_uint_string(n as nat),
    decreases n,
{
    if n < 10 {
        String::from_str(digit_str(n))
    } else {
        proof {
            vstd::arithmetic::div_mod::lemma_div_decreases(n as int, 10);
        }
        let mut s = u64_string(n / 10);
        s.append(digit_str(n % 10));
        s
    }
}

/// Renders an exit code in decimal, minus sign included.
pub fn i32_string(n: i32) -> (s: String)
    ensures
        s@ == spec_int_string(n as int),
{
    if n < 0 {
        let mag: u64 = (-(n as i64)) as u64;
        proof {
            assert(mag == -(n as int));
        }
        let mut s = String::from_str("-");
        proof {
            reveal_strlit("-");
            assert(s@ =~= seq!['-']);
        }
        let digits = u64_string(mag);
        s.append(digits.as_str());
        s
    } else {
        u64_string(n as u64)
    }
}

/// The annotation recorded in the log when the command exits nonzero.
pub open spec fn spec_failure_line(code: int) -> Seq<char> {
    "Command exited with code: "@ + spec_int_string(code)
}

/// Builds the failure annotation for a nonzero exit code.
pub fn failure_line(code: i32) -> (s: String)
    ensures
        s@ == spec_failure_line(code as int),
{
    let mut s = String::from_str("Command exited with code: ");
    let digits = i32_string(code);
    s.append(digits.as_str());
    s
}

/// The diagnostic reported when the command cannot be spawned at all.
pub open spec fn spec_launch_failure_line(cause: Seq<char>) -> Seq<char> {
    "Failed to launch command: "@ + cause
}

/// Builds the launch-failure diagnostic around the reported cause.
pub fn launch_failure_line(cause: &str) -> (s: String)
    ensures
        s@ == spec_launch_failure_line(cause@),
{
    let mut s = String::from_str("Failed to launch command: ");
    s.append(cause);
    s
}

/// The status line appended after each completed iteration: the iteration
/// count, the failure count when the run keeps going past failures, and the
/// elapsed wall-clock time as the caller measured and rendered it.
pub open spec fn spec_status_line(
    keep_going: bool,
    iterations: nat,
    failures: nat,
    elapsed: Seq<char>,
) -> Seq<char> {
    if keep_going {
        "Iterations: "@ + spec_uint_string(iterations) + ", failures: "@ + spec_uint_string(
            failures,
        ) + ", elapsed time: "@ + elapsed
    } else {
        "Iterations: "@ + spec_uint_string(iterations) + ", elapsed time: "@ + elapsed
    }
}

/// Builds the per-iteration status line.
pub fn status_line(keep_going: bool, iterations: u64, failures: u64, elapsed: &str) -> (s: String)
    ensures
        s@ == spec_status_line(keep_going, iterations as nat, failures as nat, elapsed@),
{
    let mut s = String::from_str("Iterations: ");
    let iter_digits = u64_string(iterations);
    s.append(iter_digits.as_str());
    if keep_going {
        s.append(", failures: ");
        let failure_digits = u64_string(failures);
        s.append(failure_digits.as_str());
    }
    s.append(", elapsed time: ");
    s.append(elapsed);
    s
}

/// A message framed by the same decoration on both sides, one space between.
pub open spec fn spec_framed(deco: Seq<char>, msg: Seq<char>) -> Seq<char> {
    deco + " "@ + msg + " "@ + deco
}

/// Frames a message with the decoration the caller chose; the decoration is
/// an explicit argument and carries no meaning of its own.
pub fn frame_line(deco: &str, msg: &str) -> (s: String)
    ensures
        s@ == spec_framed(deco@, msg@),
{
    let mut s = String::from_str(deco);
    s.append(" ");
    s.append(msg);
    s.append(" ");
    s.append(deco);
    s
}

} // verus!
