//! Verified core of a gateway that exposes `kubectl` over HTTP.
//!
//! The gateway takes three values from a request, runs the tool with them as
//! a child process and answers with what the process gave. This library holds
//! every decision on that way, each with a contract that Verus proves:
//!
//! - [`command`]: from the values of a request to a program and an argument
//!   vector, with no shell in between;
//! - [`process`]: from the observed end of a child process to a result or an
//!   error, and when to stop waiting for a child;
//! - [`listing`]: from the text of a namespace or context listing to the
//!   names in it;
//! - [`server`]: what each endpoint answers, and how the server is launched;
//! - [`port`] and [`cors`]: the listening port and the cross-origin policy;
//! - [`text`]: separators, words and lines, on which the others rest.
//!
//! Starting processes, sockets, routing and JSON are the caller's business.

pub mod command;
pub mod cors;
pub mod listing;
pub mod port;
pub mod process;
pub mod server;
pub mod text;
