//! The API surface, as far as it decides anything: what each endpoint
//! answers to the outcome of the process it had run, and how the server is
//! to be launched. Routing, JSON and the socket are the caller's.

use crate::cors::{accepted, gateway_options, is_gateway_policy};
use crate::listing::{context_names, namespace_names, parse_contexts, parse_namespaces};
use crate::port::{listening_port, port_from};
use crate::process::{
    conclude,
    failure_of,
    output_text,
    reported_code,
    CommandResult,
    ExecError,
    ProcessOutcome,
};
use rocket_cors::CorsOptions;
use vstd::prelude::*;

verus! {

/// The status of an answer that carries what was asked for.
pub const STATUS_OK: u16 = 200;

/// The status of an answer to a request whose process could not be created.
pub const STATUS_SPAWN_FAILED: u16 = 500;

/// The status of an answer to a request whose process ran out of time.
pub const STATUS_TIMED_OUT: u16 = 504;

/// What an answer carries.
#[derive(Debug, Clone, PartialEq, Eq)]
pub enum Body {
    /// Nothing.
    Empty,
    /// The raw result of a command.
    Result(CommandResult),
    /// The names found in a listing, in the order of the listing.
    Names(Vec<String>),
    /// The reason why there is no result.
    Failure(ExecError),
}

/// The answer to a request: an HTTP status and what goes into the body.
#[derive(Debug, Clone, PartialEq, Eq)]
pub struct Reply {
    /// The HTTP status code.
    pub status: u16,
    /// What the body holds.
    pub body: Body,
}

/// How to launch the server.
#[derive(Debug, PartialEq, Eq)]
pub struct Launch {
    /// The port to listen on.
    pub port: u16,
    /// The cross-origin policy to attach.
    pub cors: CorsOptions,
}

/// The status that reports `error`.
pub open spec fn failure_status(error: ExecError) -> u16 {
    match error {
        ExecError::SpawnFailed { .. } => STATUS_SPAWN_FAILED,
        ExecError::TimedOut { .. } => STATUS_TIMED_OUT,
    }
}

/// The answer that reports `error`: an error status, and the error as body.
pub open spec fn failure_reply(error: ExecError) -> Reply {
    Reply { status: failure_status(error), body: Body::Failure(error) }
}

/// The report of an error is never taken for a result: its status is a
/// server error, not success, and its body is the error.
pub proof fn lemma_failure_is_no_success(error: ExecError)
    ensures
        failure_reply(error).status != STATUS_OK,
        500 <= failure_reply(error).status <= 599,
        failure_reply(error).body == Body::Failure(error),
{
}

/// A process that ran out of time and one that never started are reported
/// under different statuses.
pub proof fn lemma_failures_are_told_apart(started_never: ExecError, overdue: ExecError)
    requires
        started_never is SpawnFailed,
        overdue is TimedOut,
    ensures
        failure_status(started_never) != failure_status(overdue),
{
}

/// Answers with the report of `error`.
pub fn fail(error: ExecError) -> (reply: Reply)
    ensures
        reply == failure_reply(error),
{
    let status = match &error {
        ExecError::SpawnFailed { .. } => STATUS_SPAWN_FAILED,
        ExecError::TimedOut { .. } => STATUS_TIMED_OUT,
    };
    Reply { status, body: Body::Failure(error) }
}

/// The liveness probe: success, with an empty body.
pub fn index() -> (reply: Reply)
    ensures
        reply == (Reply { status: STATUS_OK, body: Body::Empty }),
{
    Reply { status: STATUS_OK, body: Body::Empty }
}

/// Answers a request to run a command, given how its process ended. A
/// process that ended is answered with its output and exit code as they
/// are, whatever the code; one that never started or ran out of time, with
/// the report of that.
pub fn run_cmd(outcome: ProcessOutcome) -> (reply: Reply)
    ensures
        (outcome matches ProcessOutcome::Exited { stdout, stderr, code } ==> {
            &&& reply.status == STATUS_OK
            &&& reply.body matches Body::Result(result)
            &&& result@.stdout == output_text(stdout@)
            &&& result@.stderr == output_text(stderr@)
            &&& result@.exit_code == reported_code(code)
        }),
        failure_of(outcome) matches Some(error) ==> reply == failure_reply(error),
{
    match conclude(outcome) {
        Ok(result) => Reply { status: STATUS_OK, body: Body::Result(result) },
        Err(error) => fail(error),
    }
}

/// Answers a request for the namespaces of a cluster, given how the listing
/// process ended: with the names in what it wrote to standard output,
/// whatever its exit code, or with the report of why it wrote nothing.
pub fn get_namespaces(outcome: ProcessOutcome) -> (reply: Reply)
    ensures
        (outcome matches ProcessOutcome::Exited { stdout, .. } ==> {
            &&& reply.status == STATUS_OK
            &&& reply.body matches Body::Names(names)
            &&& names.deep_view() == namespace_names(output_text(stdout@))
        }),
        failure_of(outcome) matches Some(error) ==> reply == failure_reply(error),
{
    match conclude(outcome) {
        Ok(result) => Reply {
            status: STATUS_OK,
            body: Body::Names(parse_namespaces(result.stdout.as_str())),
        },
        Err(error) => fail(error),
    }
}

/// Answers a request for the contexts known to the tool, given how the
/// listing process ended: with the names in what it wrote to standard
/// output, whatever its exit code, or with the report of why it wrote
/// nothing.
pub fn get_contexts(outcome: ProcessOutcome) -> (reply: Reply)
    ensures
        (outcome matches ProcessOutcome::Exited { stdout, .. } ==> {
            &&& reply.status == STATUS_OK
            &&& reply.body matches Body::Names(names)
            &&& names.deep_view() == context_names(output_text(stdout@))
        }),
        failure_of(outcome) matches Some(error) ==> reply == failure_reply(error),
{
    match conclude(outcome) {
        Ok(result) => Reply {
            status: STATUS_OK,
            body: Body::Names(parse_contexts(result.stdout.as_str())),
        },
        Err(error) => fail(error),
    }
}

/// How to launch the server under a port setting: on the port that the
/// setting writes, or on the default, and with the gateway's cross-origin
/// policy, which `rocket_cors` takes.
pub fn rocket(port_setting: Option<&str>) -> (launch: Launch)
    ensures
        launch.port == listening_port(
            match port_setting {
                Some(text) => Some(text@),
                None => None,
            },
        ),
        is_gateway_policy(launch.cors),
        accepted(launch.cors),
{
    Launch { port: port_from(port_setting), cors: gateway_options() }
}

} // verus!
