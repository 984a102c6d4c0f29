//! How a session ends: cleanly, or with a failure of one of a few kinds.

use vstd::prelude::*;
use vstd::string::*;

verus! {

/// Why a session failed. Each kind carries what the failing step reported,
/// but for a fault, which has nothing to report.
#[derive(Debug, PartialEq, Eq)]
pub enum SessionFailure {
    /// The diagnostic sink could not be set up; no session began.
    Startup(String),
    /// A message or its envelope could not be read.
    Protocol(String),
    /// The processing engine reported an error.
    Engine(String),
    /// The session logic ended abruptly and was intercepted.
    Fault,
    /// Joining the transport's worker threads failed.
    IoShutdown(String),
}

/// The terminal result of a session.
#[derive(Debug, PartialEq, Eq)]
pub enum SessionOutcome {
    Completed,
    Failed(SessionFailure),
}

/// The text that stands for a failure in a diagnostic event.
pub open spec fn failure_text(failure: SessionFailure) -> Seq<char> {
    match failure {
        SessionFailure::Startup(detail) => "startup failure: "@ + detail@,
        SessionFailure::Protocol(detail) => "protocol failure: "@ + detail@,
        SessionFailure::Engine(detail) => "engine failure: "@ + detail@,
        SessionFailure::Fault => "server panicked"@,
        SessionFailure::IoShutdown(detail) => "I/O shutdown failure: "@ + detail@,
    }
}

/// The text that stands for an outcome in a diagnostic event.
pub open spec fn outcome_text(outcome: SessionOutcome) -> Seq<char> {
    match outcome {
        SessionOutcome::Completed => "Ok(())"@,
        SessionOutcome::Failed(failure) => "Err("@ + failure_text(failure) + ")"@,
    }
}

/// The status that the process exits with: zero for a clean completion, one
/// for every failure.
pub open spec fn exit_status(outcome: SessionOutcome) -> u8 {
    match outcome {
        SessionOutcome::Completed => 0u8,
        SessionOutcome::Failed(_) => 1u8,
    }
}

impl Clone for SessionFailure {
    fn clone(&self) -> (copy: Self)
        ensures
            copy == *self,
    {
        match self {
            SessionFailure::Startup(detail) => SessionFailure::Startup(detail.clone()),
            SessionFailure::Protocol(detail) => SessionFailure::Protocol(detail.clone()),
            SessionFailure::Engine(detail) => SessionFailure::Engine(detail.clone()),
            SessionFailure::Fault => SessionFailure::Fault,
            SessionFailure::IoShutdown(detail) => SessionFailure::IoShutdown(detail.clone()),
        }
    }
}

impl Clone for SessionOutcome {
    fn clone(&self) -> (copy: Self)
        ensures
            copy == *self,
    {
        match self {
            SessionOutcome::Completed => SessionOutcome::Completed,
            SessionOutcome::Failed(failure) => SessionOutcome::Failed(failure.clone()),
        }
    }
}

impl SessionFailure {
    /// A line of text that names the kind of failure and what it reported.
    pub fn describe(&self) -> (text: String)
        ensures
            text@ == failure_text(*self),
    {
        match self {
            SessionFailure::Startup(detail) => "startup failure: ".to_owned().concat(
                detail.as_str(),
            ),
            SessionFailure::Protocol(detail) => "protocol failure: ".to_owned().concat(
                detail.as_str(),
            ),
            SessionFailure::Engine(detail) => "engine failure: ".to_owned().concat(
                detail.as_str(),
            ),
            SessionFailure::Fault => "server panicked".to_owned(),
            SessionFailure::IoShutdown(detail) => "I/O shutdown failure: ".to_owned().concat(
                detail.as_str(),
            ),
        }
    }
}

impl SessionOutcome {
    /// Whether the session failed.
    pub fn is_failure(&self) -> (failed: bool)
        ensures
            failed == (*self is Failed),
    {
        match self {
            SessionOutcome::Completed => false,
            SessionOutcome::Failed(_) => true,
        }
    }

    /// The status that the process exits with.
    pub fn exit_code(&self) -> (code: u8)
        ensures
            code == exit_status(*self),
            code == 0 <==> *self is Completed,
    {
        match self {
            SessionOutcome::Completed => 0,
            SessionOutcome::Failed(_) => 1,
        }
    }

    /// A line of text for the outcome, as a diagnostic event carries it.
    pub fn describe(&self) -> (text: String)
        ensures
            text@ == outcome_text(*self),
    {
        match self {
            SessionOutcome::Completed => "Ok(())".to_owned(),
            SessionOutcome::Failed(failure) => {
                let inner = failure.describe();
                "Err(".to_owned().concat(inner.as_str()).concat(")")
            },
        }
    }
}

} // verus!
