//! The session configuration: read from what the client sent, or the
//! built-in default.

use crate::notice::{config_failure_message, config_failure_text, LogEvent, Severity, UserNotification};
use vstd::prelude::*;

verus! {

/// A configuration, and what has to be told about how it came to be.
#[derive(Debug, PartialEq)]
pub struct ConfigResolution<C> {
    /// The configuration of the session: always one.
    pub config: C,
    /// The events to log.
    pub events: Vec<LogEvent>,
    /// The notifications to send to the client.
    pub notifications: Vec<UserNotification>,
}

/// What reading the initialisation data against the option schema gave:
/// nothing where the client sent none, else the configuration that was read
/// or the reason why the data does not fit.
pub open spec fn is_rejected<C>(data: Option<Result<C, String>>) -> bool {
    data is Some && data->0 is Err
}

/// Whether `resolution` is what `data` resolves to. Data that fits the
/// schema is the configuration, and nothing is told. Data that does not fit
/// gives the built-in default, one event that carries the reason, and one
/// notification of severity error with the same text. No data gives the
/// built-in default, and nothing is told.
pub open spec fn resolves_to<C: Default>(
    data: Option<Result<C, String>>,
    config: C,
    events: Seq<LogEvent>,
    notifications: Seq<UserNotification>,
) -> bool {
    match data {
        Some(Ok(accepted)) => {
            &&& config == accepted
            &&& events.len() == 0
            &&& notifications.len() == 0
        },
        Some(Err(reason)) => {
            &&& call_ensures(C::default, (), config)
            &&& events == seq![LogEvent::ConfigRejected(reason)]
            &&& notifications.len() == 1
            &&& notifications[0].severity == Severity::Error
            &&& notifications[0].message@ == config_failure_text(reason@)
        },
        None => {
            &&& call_ensures(C::default, (), config)
            &&& events.len() == 0
            &&& notifications.len() == 0
        },
    }
}

/// Resolves the configuration of a session. A rejection is never fatal: the
/// session goes on with the built-in default, and the user is told once.
pub fn resolve_config<C: Default>(data: Option<Result<C, String>>) -> (resolution:
    ConfigResolution<C>)
    ensures
        resolves_to(data, resolution.config, resolution.events@, resolution.notifications@),
        is_rejected(data) ==> {
            &&& call_ensures(C::default, (), resolution.config)
            &&& resolution.notifications@.len() == 1
            &&& resolution.notifications@[0].severity == Severity::Error
        },
        !is_rejected(data) ==> resolution.notifications@.len() == 0,
{
    match data {
        Some(Ok(accepted)) => ConfigResolution {
            config: accepted,
            events: Vec::new(),
            notifications: Vec::new(),
        },
        Some(Err(reason)) => {
            let message = config_failure_message(reason.as_str());
            let notification = UserNotification { severity: Severity::Error, message };
            let mut events: Vec<LogEvent> = Vec::new();
            events.push(LogEvent::ConfigRejected(reason));
            let mut notifications: Vec<UserNotification> = Vec::new();
            notifications.push(notification);
            assert(events@ =~= seq![LogEvent::ConfigRejected(reason)]);
            ConfigResolution { config: C::default(), events, notifications }
        },
        None => ConfigResolution {
            config: C::default(),
            events: Vec::new(),
            notifications: Vec::new(),
        },
    }
}

} // verus!
