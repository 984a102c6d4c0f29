//! What a session tells the outside world: diagnostic events for the sink,
//! and notifications that the client shows to its user.

use crate::outcome::{outcome_text, SessionOutcome};
use vstd::prelude::*;
use vstd::string::*;

verus! {

/// How grave an event or a notification is.
#[derive(Clone, Copy, Debug, PartialEq, Eq, Structural)]
pub enum Severity {
    Error,
    Warning,
    Info,
}

/// A message for the user, sent through the protocol's message-display
/// channel, apart from any response.
#[derive(Clone, Debug, PartialEq, Eq)]
pub struct UserNotification {
    pub severity: Severity,
    pub message: String,
}

/// An event for the diagnostic sink.
#[derive(Debug, PartialEq, Eq)]
pub enum LogEvent {
    /// The session begins.
    Started,
    /// The initialisation data did not fit the option schema; the reason is
    /// the schema's.
    ConfigRejected(String),
    /// The session logic ended abruptly.
    ServerPanicked,
    /// The process is about to end, with this outcome.
    Terminating(SessionOutcome),
}

/// The message that reports initialisation data which did not fit the
/// option schema.
pub open spec fn config_failure_text(reason: Seq<char>) -> Seq<char> {
    "failed to deserialize config: "@ + reason
}

/// The severity at which an event is logged: what went wrong is an error,
/// the steps of the lifecycle are information.
pub open spec fn event_severity(event: LogEvent) -> Severity {
    match event {
        LogEvent::Started => Severity::Info,
        LogEvent::ConfigRejected(_) => Severity::Error,
        LogEvent::ServerPanicked => Severity::Error,
        LogEvent::Terminating(_) => Severity::Info,
    }
}

/// The text of an event.
pub open spec fn event_text(event: LogEvent) -> Seq<char> {
    match event {
        LogEvent::Started => "lifecycle: server started"@,
        LogEvent::ConfigRejected(reason) => config_failure_text(reason@),
        LogEvent::ServerPanicked => "server panicked"@,
        LogEvent::Terminating(outcome) => "lifecycle: terminating process with "@ + outcome_text(
            outcome,
        ),
    }
}

/// Builds the message that reports rejected initialisation data.
pub fn config_failure_message(reason: &str) -> (message: String)
    ensures
        message@ == config_failure_text(reason@),
{
    "failed to deserialize config: ".to_owned().concat(reason)
}

impl LogEvent {
    /// The severity at which the event is logged.
    pub fn severity(&self) -> (severity: Severity)
        ensures
            severity == event_severity(*self),
    {
        match self {
            LogEvent::Started => Severity::Info,
            LogEvent::ConfigRejected(_) => Severity::Error,
            LogEvent::ServerPanicked => Severity::Error,
            LogEvent::Terminating(_) => Severity::Info,
        }
    }

    /// The text of the event.
    pub fn message(&self) -> (text: String)
        ensures
            text@ == event_text(*self),
    {
        match self {
            LogEvent::Started => "lifecycle: server started".to_owned(),
            LogEvent::ConfigRejected(reason) => config_failure_message(reason.as_str()),
            LogEvent::ServerPanicked => "server panicked".to_owned(),
            LogEvent::Terminating(outcome) => {
                let carried = outcome.describe();
                "lifecycle: terminating process with ".to_owned().concat(carried.as_str())
            },
        }
    }
}

} // verus!
