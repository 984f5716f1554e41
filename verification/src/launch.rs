//! The launcher's outcome mapping: resolution and server failures become one
//! printed message and exit code one; success is silent and exits zero.

use vstd::prelude::*;
use crate::config::{Config, ConfigError, spec_config_error_message};

verus! {

/// The server's failure report — it failed to start or to run (cannot bind
/// its port, and the like). The server itself is an external collaborator;
/// this core only carries its message to the exit path.
#[derive(Debug, Clone, PartialEq, Eq)]
pub struct ServerError {
    pub detail: String,
}

impl ServerError {
    pub fn new(detail: String) -> (e: ServerError)
        ensures
            e == (ServerError { detail }),
    {
        ServerError { detail }
    }

    /// The human-readable line printed before the non-zero exit.
    pub fn message(&self) -> (r: String)
        ensures
            r@ == self.detail@,
    {
        self.detail.clone()
    }
}

/// How the process ends: silently with code zero, or with one printed
/// message and a non-zero code.
#[derive(Debug, Clone, PartialEq, Eq)]
pub enum ExitOutcome {
    Success,
    Failure(String, i32),
}

/// Every failure outcome the launcher builds carries exit code one.
pub open spec fn valid_outcome(o: ExitOutcome) -> bool {
    o matches ExitOutcome::Failure(_, k) ==> k == 1
}

impl ExitOutcome {
    /// The operating-system exit code this outcome maps to.
    pub fn code(&self) -> (c: i32)
        ensures
            *self is Success ==> c == 0,
            *self matches ExitOutcome::Failure(_, k) ==> c == k,
    {
        match self {
            ExitOutcome::Success => 0,
            ExitOutcome::Failure(_, k) => *k,
        }
    }
}

/// What the launcher does once resolution has finished: hand the
/// configuration on to the server, or exit at once.
#[derive(Debug, Clone, PartialEq, Eq)]
pub enum LaunchStep {
    RunServer(Config),
    Exit(ExitOutcome),
}

/// Sequences the launcher past resolution: a resolved configuration goes to
/// the server untouched; a resolution failure becomes a terminal exit that
/// prints the failure's message and carries code one.
pub fn after_resolve(r: Result<Config, ConfigError>) -> (s: LaunchStep)
    ensures
        r matches Ok(c) ==> s == LaunchStep::RunServer(c),
        r matches Err(e) ==> (s matches LaunchStep::Exit(o) && o matches ExitOutcome::Failure(
            m,
            k,
        ) && m@ == spec_config_error_message(e.path@, e.detail@) && k == 1),
{
    match r {
        Ok(c) => LaunchStep::RunServer(c),
        Err(e) => LaunchStep::Exit(ExitOutcome::Failure(e.message(), 1)),
    }
}

/// Maps the server invocation's result to the process's end: success is
/// silent and exits zero; a failure prints the server's own message and
/// exits with code one.
pub fn after_server(r: Result<(), ServerError>) -> (o: ExitOutcome)
    ensures
        r is Ok ==> o == ExitOutcome::Success,
        r matches Err(e) ==> (o matches ExitOutcome::Failure(m, k) && m@ == e.detail@ && k == 1),
        valid_outcome(o),
{
    match r {
        Ok(()) => ExitOutcome::Success,
        Err(e) => ExitOutcome::Failure(e.message(), 1),
    }
}

} // verus!
