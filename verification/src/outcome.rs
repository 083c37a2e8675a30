//! The wrapper's outcome: how the child ended, what can go wrong, and the
//! exit status and message each case produces.

use vstd::prelude::*;
use crate::render::{dec_digits_signed, push_dec_digits_signed};

verus! {

/// How the child process terminated.
#[derive(Clone, Copy, Debug, PartialEq, Eq, Structural)]
pub enum ChildStatus {
    /// The child exited on its own, with this status code.
    Exited(i32),
    /// The child was terminated by a signal; no status code exists.
    Signaled,
}

/// Everything that can fail a run of the wrapper.
#[derive(Debug, PartialEq, Eq)]
pub enum Failure {
    /// No program name was supplied on the command line.
    Usage,
    /// The operating system could not start the program; the field holds the
    /// system's own description of the error.
    Spawn(String),
    /// The post-exit resource-usage query failed.
    ResourceQuery,
    /// The child ran and exited with this nonzero code.
    NonZeroExit(i32),
    /// The child was terminated by a signal.
    Signaled,
}

/// The one exit status the wrapper's own process uses for every failure.
pub const FAILURE_EXIT_CODE: i32 = -1;

/// Success exactly on a child exit with code zero; the two ways a child can
/// fail are kept apart.
pub open spec fn spec_child_outcome(st: ChildStatus) -> Result<(), Failure> {
    match st {
        ChildStatus::Exited(code) => if code == 0 {
            Ok(())
        } else {
            Err(Failure::NonZeroExit(code))
        },
        ChildStatus::Signaled => Err(Failure::Signaled),
    }
}

/// Decides the wrapper's outcome from the child's termination status.
pub fn child_outcome(st: &ChildStatus) -> (r: Result<(), Failure>)
    ensures
        r == spec_child_outcome(*st),
{
    match st {
        ChildStatus::Exited(code) => {
            if *code == 0 {
                Ok(())
            } else {
                Err(Failure::NonZeroExit(*code))
            }
        },
        ChildStatus::Signaled => Err(Failure::Signaled),
    }
}

/// The message printed for each failure.
pub open spec fn spec_message(f: Failure) -> Seq<char> {
    match f {
        Failure::Usage => "missing program name"@,
        Failure::Spawn(os) => "failed to run command: "@ + os@,
        Failure::ResourceQuery => "failed to get rusage"@,
        Failure::NonZeroExit(code) => "\ncommand exited with non-zero code: "@
            + dec_digits_signed(code as int),
        Failure::Signaled => "\ncommand was terminated by signal"@,
    }
}

impl Failure {
    /// Renders the failure's message.
    pub fn message(&self) -> (s: String)
        ensures
            s@ == spec_message(*self),
    {
        match self {
            Failure::Usage => String::from_str("missing program name"),
            Failure::Spawn(os) => {
                let mut s = String::from_str("failed to run command: ");
                s.append(os.as_str());
                s
            },
            Failure::ResourceQuery => String::from_str("failed to get rusage"),
            Failure::NonZeroExit(code) => {
                let mut s = String::from_str("\ncommand exited with non-zero code: ");
                push_dec_digits_signed(&mut s, *code as i64);
                s
            },
            Failure::Signaled => String::from_str("\ncommand was terminated by signal"),
        }
    }
}

/// The wrapper's process exit status for an outcome: zero on success, the
/// fixed sentinel on any failure.
pub open spec fn spec_exit_code(r: Result<(), Failure>) -> int {
    if r is Ok {
        0
    } else {
        FAILURE_EXIT_CODE as int
    }
}

/// Picks the wrapper's own exit status for an outcome.
pub fn wrapper_exit_code(r: &Result<(), Failure>) -> (c: i32)
    ensures
        c as int == spec_exit_code(*r),
{
    match r {
        Ok(_) => 0,
        Err(_) => FAILURE_EXIT_CODE,
    }
}

/// The wrapper's exit status is zero exactly when the child exited with code
/// zero; every other termination exits with the one fixed failure sentinel.
pub proof fn lemma_exit_status_reflects_outcome(st: ChildStatus)
    ensures
        spec_exit_code(spec_child_outcome(st)) == 0 <==> st == ChildStatus::Exited(0i32),
        spec_exit_code(spec_child_outcome(st)) == 0 || spec_exit_code(spec_child_outcome(st))
            == FAILURE_EXIT_CODE as int,
{
}

/// A child exit with a nonzero code fails the wrapper with the fixed
/// sentinel, and the failure's message ends with the decimal digits of that
/// very code.
pub proof fn lemma_nonzero_exit_names_code(code: i32)
    requires
        code != 0,
    ensures
        spec_child_outcome(ChildStatus::Exited(code)) == Err::<(), Failure>(
            Failure::NonZeroExit(code),
        ),
        spec_exit_code(spec_child_outcome(ChildStatus::Exited(code))) == FAILURE_EXIT_CODE as int,
        spec_message(Failure::NonZeroExit(code)).skip(
            "\ncommand exited with non-zero code: "@.len() as int,
        ) == dec_digits_signed(code as int),
{
    assert(spec_message(Failure::NonZeroExit(code)).skip(
        "\ncommand exited with non-zero code: "@.len() as int,
    ) =~= dec_digits_signed(code as int));
}

/// Every decimal digit.
pub open spec fn is_digit_char(c: char) -> bool {
    c == '0' || c == '1' || c == '2' || c == '3' || c == '4' || c == '5' || c == '6' || c == '7'
        || c == '8' || c == '9'
}

/// Signal termination fails the wrapper with the fixed sentinel, and its
/// message names no numeric code: no character of it is a decimal digit.
pub proof fn lemma_signal_message_has_no_code()
    ensures
        spec_child_outcome(ChildStatus::Signaled) == Err::<(), Failure>(Failure::Signaled),
        spec_exit_code(spec_child_outcome(ChildStatus::Signaled)) == FAILURE_EXIT_CODE as int,
        forall|i: int|
            0 <= i < spec_message(Failure::Signaled).len() ==> !is_digit_char(
                #[trigger] spec_message(Failure::Signaled)[i],
            ),
{
    reveal_strlit("\ncommand was terminated by signal");
}

} // verus!
