//! The lifecycle of a session, as a machine: the driver performs what a
//! step directs and reports what came of it as the next event.

use crate::notice::LogEvent;
use crate::outcome::{SessionFailure, SessionOutcome};
use vstd::prelude::*;

verus! {

/// Where a session stands.
#[derive(Debug, PartialEq, Eq)]
pub enum Phase {
    /// The diagnostic sink is being set up; nothing else has run.
    Startup,
    /// The transport is open and the handshake request is awaited.
    Handshake,
    /// The processing engine has control.
    Engine,
    /// The session logic is over, with this outcome so far, and the
    /// transport's worker threads are being joined.
    Draining(SessionOutcome),
    /// The session is over.
    Ended(SessionOutcome),
}

/// What the driver reports.
#[derive(Debug, PartialEq, Eq)]
pub enum SessionEvent {
    /// The diagnostic sink is set up.
    SinkReady,
    /// The diagnostic sink could not be set up.
    SinkFailed(String),
    /// The handshake is done and the session is initialised.
    HandshakeCompleted,
    /// A message or its envelope could not be read.
    ProtocolFailed(String),
    /// The processing engine returned cleanly.
    EngineCompleted,
    /// The processing engine reported an error.
    EngineFailed(String),
    /// The session logic ended abruptly and the fault was intercepted.
    FaultIntercepted,
    /// The transport's worker threads are joined.
    WorkersJoined,
    /// Joining the transport's worker threads failed.
    JoinFailed(String),
}

/// What the driver has to do, in the order given.
#[derive(Debug, PartialEq, Eq)]
pub enum Directive {
    /// Hand the event to the diagnostic sink.
    Log(LogEvent),
    /// Open the duplex channel and start its worker threads.
    OpenTransport,
    /// Advertise the capabilities and wait for the handshake request.
    AwaitHandshake,
    /// Hand control to the processing engine.
    RunEngine,
    /// Join the transport's worker threads.
    JoinWorkers,
}

/// The outcome once the worker threads have failed to join: a failure that
/// is already recorded stays, and a session that was clean so far fails
/// with the failure of the join.
pub open spec fn after_failed_join(so_far: SessionOutcome, detail: String) -> SessionOutcome {
    match so_far {
        SessionOutcome::Completed => SessionOutcome::Failed(SessionFailure::IoShutdown(detail)),
        SessionOutcome::Failed(failure) => SessionOutcome::Failed(failure),
    }
}

/// The phase that follows `phase` on `event`. An event that `phase` does not
/// wait for changes nothing.
pub open spec fn next_phase(phase: Phase, event: SessionEvent) -> Phase {
    match (phase, event) {
        (Phase::Startup, SessionEvent::SinkReady) => Phase::Handshake,
        (Phase::Startup, SessionEvent::SinkFailed(detail)) => Phase::Ended(
            SessionOutcome::Failed(SessionFailure::Startup(detail)),
        ),
        (Phase::Handshake, SessionEvent::HandshakeCompleted) => Phase::Engine,
        (Phase::Handshake, SessionEvent::ProtocolFailed(detail)) => Phase::Draining(
            SessionOutcome::Failed(SessionFailure::Protocol(detail)),
        ),
        (Phase::Handshake, SessionEvent::FaultIntercepted) => Phase::Draining(
            SessionOutcome::Failed(SessionFailure::Fault),
        ),
        (Phase::Engine, SessionEvent::EngineCompleted) => Phase::Draining(
            SessionOutcome::Completed,
        ),
        (Phase::Engine, SessionEvent::EngineFailed(detail)) => Phase::Draining(
            SessionOutcome::Failed(SessionFailure::Engine(detail)),
        ),
        (Phase::Engine, SessionEvent::ProtocolFailed(detail)) => Phase::Draining(
            SessionOutcome::Failed(SessionFailure::Protocol(detail)),
        ),
        (Phase::Engine, SessionEvent::FaultIntercepted) => Phase::Draining(
            SessionOutcome::Failed(SessionFailure::Fault),
        ),
        (Phase::Draining(so_far), SessionEvent::WorkersJoined) => Phase::Ended(so_far),
        (Phase::Draining(so_far), SessionEvent::JoinFailed(detail)) => Phase::Ended(
            after_failed_join(so_far, detail),
        ),
        (unchanged, _) => unchanged,
    }
}

/// What `event` directs in `phase`. The session is logged as started before
/// anything else runs. An intercepted fault is logged as an error. Whatever
/// ends the session logic directs the join of the worker threads, and the
/// end of the join is logged with the outcome. A sink that cannot be set up
/// directs nothing: there is nowhere to log.
pub open spec fn directed(phase: Phase, event: SessionEvent) -> Seq<Directive> {
    match (phase, event) {
        (Phase::Startup, SessionEvent::SinkReady) => seq![
            Directive::Log(LogEvent::Started),
            Directive::OpenTransport,
            Directive::AwaitHandshake,
        ],
        (Phase::Handshake, SessionEvent::HandshakeCompleted) => seq![Directive::RunEngine],
        (Phase::Handshake, SessionEvent::ProtocolFailed(_)) => seq![Directive::JoinWorkers],
        (Phase::Handshake, SessionEvent::FaultIntercepted) => seq![
            Directive::Log(LogEvent::ServerPanicked),
            Directive::JoinWorkers,
        ],
        (Phase::Engine, SessionEvent::EngineCompleted) => seq![Directive::JoinWorkers],
        (Phase::Engine, SessionEvent::EngineFailed(_)) => seq![Directive::JoinWorkers],
        (Phase::Engine, SessionEvent::ProtocolFailed(_)) => seq![Directive::JoinWorkers],
        (Phase::Engine, SessionEvent::FaultIntercepted) => seq![
            Directive::Log(LogEvent::ServerPanicked),
            Directive::JoinWorkers,
        ],
        (Phase::Draining(so_far), SessionEvent::WorkersJoined) => seq![
            Directive::Log(LogEvent::Terminating(so_far)),
        ],
        (Phase::Draining(so_far), SessionEvent::JoinFailed(detail)) => seq![
            Directive::Log(LogEvent::Terminating(after_failed_join(so_far, detail))),
        ],
        _ => Seq::empty(),
    }
}

/// Whether `phase` is one in which the session logic runs, so that a fault
/// in it is one that the boundary intercepts.
pub open spec fn in_session_logic(phase: Phase) -> bool {
    phase is Handshake || phase is Engine
}

/// Leaves the session logic with `so_far` and directs the join.
fn wind_down(so_far: SessionOutcome, faulted: bool) -> (next: (Phase, Vec<Directive>))
    ensures
        next.0 == Phase::Draining(so_far),
        faulted ==> next.1@ == seq![
            Directive::Log(LogEvent::ServerPanicked),
            Directive::JoinWorkers,
        ],
        !faulted ==> next.1@ == seq![Directive::JoinWorkers],
{
    let mut directives: Vec<Directive> = Vec::new();
    if faulted {
        directives.push(Directive::Log(LogEvent::ServerPanicked));
    }
    directives.push(Directive::JoinWorkers);
    proof {
        if faulted {
            assert(directives@ =~= seq![
                Directive::Log(LogEvent::ServerPanicked),
                Directive::JoinWorkers,
            ]);
        } else {
            assert(directives@ =~= seq![Directive::JoinWorkers]);
        }
    }
    (Phase::Draining(so_far), directives)
}

/// Ends the session with `outcome` and directs the last event.
fn finish(outcome: SessionOutcome) -> (next: (Phase, Vec<Directive>))
    ensures
        next.0 == Phase::Ended(outcome),
        next.1@ == seq![Directive::Log(LogEvent::Terminating(outcome))],
{
    let mut directives: Vec<Directive> = Vec::new();
    directives.push(Directive::Log(LogEvent::Terminating(outcome.clone())));
    assert(directives@ =~= seq![Directive::Log(LogEvent::Terminating(outcome))]);
    (Phase::Ended(outcome), directives)
}

/// Takes one step of the session: the phase that follows, and what the
/// driver has to do before it reports the next event.
///
/// A fault that is intercepted while the session logic runs always leaves
/// the session failing as a fault, and is logged as an error. The worker
/// threads are joined when the session logic is over and not before.
pub fn step(phase: Phase, event: SessionEvent) -> (next: (Phase, Vec<Directive>))
    ensures
        next.0 == next_phase(phase, event),
        next.1@ == directed(phase, event),
        in_session_logic(phase) && event is FaultIntercepted ==> {
            &&& next.0 == Phase::Draining(SessionOutcome::Failed(SessionFailure::Fault))
            &&& next.1@[0] == Directive::Log(LogEvent::ServerPanicked)
        },
{
    match phase {
        Phase::Startup => match event {
            SessionEvent::SinkReady => {
                let mut directives: Vec<Directive> = Vec::new();
                directives.push(Directive::Log(LogEvent::Started));
                directives.push(Directive::OpenTransport);
                directives.push(Directive::AwaitHandshake);
                assert(directives@ =~= seq![
                    Directive::Log(LogEvent::Started),
                    Directive::OpenTransport,
                    Directive::AwaitHandshake,
                ]);
                (Phase::Handshake, directives)
            },
            SessionEvent::SinkFailed(detail) => (
                Phase::Ended(SessionOutcome::Failed(SessionFailure::Startup(detail))),
                Vec::new(),
            ),
            _ => (Phase::Startup, Vec::new()),
        },
        Phase::Handshake => match event {
            SessionEvent::HandshakeCompleted => {
                let mut directives: Vec<Directive> = Vec::new();
                directives.push(Directive::RunEngine);
                assert(directives@ =~= seq![Directive::RunEngine]);
                (Phase::Engine, directives)
            },
            SessionEvent::ProtocolFailed(detail) => wind_down(
                SessionOutcome::Failed(SessionFailure::Protocol(detail)),
                false,
            ),
            SessionEvent::FaultIntercepted => wind_down(
                SessionOutcome::Failed(SessionFailure::Fault),
                true,
            ),
            _ => (Phase::Handshake, Vec::new()),
        },
        Phase::Engine => match event {
            SessionEvent::EngineCompleted => wind_down(SessionOutcome::Completed, false),
            SessionEvent::EngineFailed(detail) => wind_down(
                SessionOutcome::Failed(SessionFailure::Engine(detail)),
                false,
            ),
            SessionEvent::ProtocolFailed(detail) => wind_down(
                SessionOutcome::Failed(SessionFailure::Protocol(detail)),
                false,
            ),
            SessionEvent::FaultIntercepted => wind_down(
                SessionOutcome::Failed(SessionFailure::Fault),
                true,
            ),
            _ => (Phase::Engine, Vec::new()),
        },
        Phase::Draining(so_far) => match event {
            SessionEvent::WorkersJoined => finish(so_far),
            SessionEvent::JoinFailed(detail) => match so_far {
                SessionOutcome::Completed => finish(
                    SessionOutcome::Failed(SessionFailure::IoShutdown(detail)),
                ),
                SessionOutcome::Failed(failure) => finish(SessionOutcome::Failed(failure)),
            },
            _ => (Phase::Draining(so_far), Vec::new()),
        },
        Phase::Ended(outcome) => (Phase::Ended(outcome), Vec::new()),
    }
}

} // verus!
