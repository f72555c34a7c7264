//! The process executor's share of the decisions: what a finished, failed or
//! overdue child process amounts to. Starting the child and waiting for it is
//! left to the caller, who reports what happened as a [`ProcessOutcome`].

use vstd::prelude::*;
use vstd::utf8::{decode_utf8, valid_utf8};

verus! {

/// What running a command gave: the text on both output streams and the exit
/// code. All three are always there; a stream that stayed silent is empty.
#[derive(Debug, Clone, PartialEq, Eq)]
pub struct CommandResult {
    /// What the process wrote to standard output, decoded.
    pub stdout: String,
    /// What the process wrote to standard error, decoded.
    pub stderr: String,
    /// The exit code, or [`NO_EXIT_CODE`] where the process left none.
    pub exit_code: i32,
}

/// What a [`CommandResult`] stands for.
pub struct CommandResultView {
    /// The text on standard output.
    pub stdout: Seq<char>,
    /// The text on standard error.
    pub stderr: Seq<char>,
    /// The exit code that is reported.
    pub exit_code: int,
}

impl View for CommandResult {
    type V = CommandResultView;

    open spec fn view(&self) -> CommandResultView {
        CommandResultView {
            stdout: self.stdout@,
            stderr: self.stderr@,
            exit_code: self.exit_code as int,
        }
    }
}

/// How an attempt to run a command ended, as the caller observed it.
#[derive(Debug, Clone, PartialEq, Eq)]
pub enum ProcessOutcome {
    /// The process ran and ended. `code` is `None` where it ended without an
    /// exit code, as after a signal; the output up to then is still there.
    Exited { stdout: Vec<u8>, stderr: Vec<u8>, code: Option<i32> },
    /// No process could be created.
    SpawnFailed { reason: String },
    /// The process outlived its time limit and was terminated.
    TimedOut { limit_ms: u64 },
}

/// Why a command gave no result.
#[derive(Debug, Clone, PartialEq, Eq)]
pub enum ExecError {
    /// No process could be created: executable missing, permission denied,
    /// resources exhausted.
    SpawnFailed { reason: String },
    /// The process was terminated after `limit_ms` milliseconds.
    TimedOut { limit_ms: u64 },
}

/// What to do about a child process that is still running.
#[derive(Debug, Clone, Copy, PartialEq, Eq)]
pub enum Watch {
    /// Keep waiting for it.
    Wait,
    /// Its time is up: terminate it and report [`ProcessOutcome::TimedOut`]
    /// with this limit.
    Terminate { limit_ms: u64 },
}

/// The exit code reported for a process that left none.
pub const NO_EXIT_CODE: i32 = -1;

/// The exit code to report for a process that ended with `code`.
pub open spec fn reported_code(code: Option<i32>) -> int {
    match code {
        Some(c) => c as int,
        None => -1,
    }
}

/// What to do about a process that has been running for `elapsed_ms`
/// milliseconds under `limit_ms`: terminate it once it has run for as long as
/// the limit grants. Without a limit the wait never ends.
pub open spec fn next_step(limit_ms: Option<u64>, elapsed_ms: u64) -> Watch {
    match limit_ms {
        Some(limit) => if elapsed_ms >= limit {
            Watch::Terminate { limit_ms: limit }
        } else {
            Watch::Wait
        },
        None => Watch::Wait,
    }
}

/// The error that `outcome` amounts to, where it is one.
pub open spec fn failure_of(outcome: ProcessOutcome) -> Option<ExecError> {
    match outcome {
        ProcessOutcome::Exited { .. } => None,
        ProcessOutcome::SpawnFailed { reason } => Some(ExecError::SpawnFailed { reason }),
        ProcessOutcome::TimedOut { limit_ms } => Some(ExecError::TimedOut { limit_ms }),
    }
}

/// What lossy decoding makes of `bytes`: a text in which each invalid
/// sequence of the bytes is replaced by U+FFFD.
pub uninterp spec fn lossy_text(bytes: Seq<u8>) -> Seq<char>;

/// The text that a process wrote as `bytes`: the text that they encode where
/// they are valid UTF-8, and else what lossy decoding makes of them.
pub open spec fn output_text(bytes: Seq<u8>) -> Seq<char> {
    if valid_utf8(bytes) {
        decode_utf8(bytes)
    } else {
        lossy_text(bytes)
    }
}

/// `String::from_utf8_lossy` of std, made an owned string. The result is a
/// function of the bytes alone, named [`lossy_text`]; bytes that are valid
/// UTF-8 decode to the text they encode. How invalid sequences are cut up for
/// replacement is not stated.
#[verifier::external_body]
fn decode_lossy(bytes: &Vec<u8>) -> (text: String)
    ensures
        text@ == lossy_text(bytes@),
        valid_utf8(bytes@) ==> text@ == decode_utf8(bytes@),
{
    String::from_utf8_lossy(bytes).into_owned()
}

/// The exit code to report: the process's own where it left one, else
/// [`NO_EXIT_CODE`].
pub fn exit_code(code: Option<i32>) -> (reported: i32)
    ensures
        reported == reported_code(code),
{
    match code {
        Some(c) => c,
        None => NO_EXIT_CODE,
    }
}

impl CommandResult {
    /// The result of a process that wrote `stdout` and `stderr` and ended with
    /// `code`.
    pub fn new(stdout: String, stderr: String, code: Option<i32>) -> (result: CommandResult)
        ensures
            result.stdout == stdout,
            result.stderr == stderr,
            result.exit_code == reported_code(code),
    {
        CommandResult { stdout, stderr, exit_code: exit_code(code) }
    }
}

/// Decides whether to go on waiting for a child that has been running for
/// `elapsed_ms` milliseconds.
pub fn watch(limit_ms: Option<u64>, elapsed_ms: u64) -> (step: Watch)
    ensures
        step == next_step(limit_ms, elapsed_ms),
{
    match limit_ms {
        Some(limit) => if elapsed_ms >= limit {
            Watch::Terminate { limit_ms: limit }
        } else {
            Watch::Wait
        },
        None => Watch::Wait,
    }
}

/// What an attempt to run a command amounts to. A process that ended gives a
/// result, with or without an exit code of its own; a process that never
/// started, or was terminated for running too long, gives the error that
/// says so.
pub fn conclude(outcome: ProcessOutcome) -> (concluded: Result<CommandResult, ExecError>)
    ensures
        (outcome matches ProcessOutcome::Exited { stdout, stderr, code } ==> {
            &&& concluded matches Ok(result)
            &&& result@.stdout == output_text(stdout@)
            &&& result@.stderr == output_text(stderr@)
            &&& result@.exit_code == reported_code(code)
        }),
        failure_of(outcome) matches Some(error) ==> concluded == Err::<CommandResult, ExecError>(
            error,
        ),
{
    match outcome {
        ProcessOutcome::Exited { stdout, stderr, code } => {
            let out = decode_lossy(&stdout);
            let err = decode_lossy(&stderr);
            Ok(CommandResult::new(out, err, code))
        },
        ProcessOutcome::SpawnFailed { reason } => Err(ExecError::SpawnFailed { reason }),
        ProcessOutcome::TimedOut { limit_ms } => Err(ExecError::TimedOut { limit_ms }),
    }
}

} // verus!
