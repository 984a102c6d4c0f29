use lsp_bootstrap::lifecycle::{step, Directive, Phase, SessionEvent};
use lsp_bootstrap::notice::LogEvent;
use lsp_bootstrap::outcome::{SessionFailure, SessionOutcome};

fn run(events: Vec<SessionEvent>) -> (Phase, Vec<Directive>) {
    let mut phase = Phase::Startup;
    let mut all = Vec::new();
    for event in events {
        let (next, directives) = step(phase, event);
        phase = next;
        all.extend(directives);
    }
    (phase, all)
}

fn joins(directives: &[Directive]) -> usize {
    directives.iter().filter(|d| **d == Directive::JoinWorkers).count()
}

#[test]
fn a_ready_sink_starts_the_session() {
    let (phase, directives) = step(Phase::Startup, SessionEvent::SinkReady);
    assert_eq!(phase, Phase::Handshake);
    assert_eq!(
        directives,
        vec![Directive::Log(LogEvent::Started), Directive::OpenTransport, Directive::AwaitHandshake]
    );
}

#[test]
fn a_sink_that_fails_ends_the_process_at_once() {
    let (phase, directives) = step(Phase::Startup, SessionEvent::SinkFailed("denied".to_string()));
    assert_eq!(
        phase,
        Phase::Ended(SessionOutcome::Failed(SessionFailure::Startup("denied".to_string())))
    );
    assert!(directives.is_empty());
}

#[test]
fn a_clean_session_runs_the_engine_then_joins_then_logs_the_end() {
    let (phase, directives) = run(vec![
        SessionEvent::SinkReady,
        SessionEvent::HandshakeCompleted,
        SessionEvent::EngineCompleted,
        SessionEvent::WorkersJoined,
    ]);
    assert_eq!(phase, Phase::Ended(SessionOutcome::Completed));
    assert_eq!(
        directives,
        vec![
            Directive::Log(LogEvent::Started),
            Directive::OpenTransport,
            Directive::AwaitHandshake,
            Directive::RunEngine,
            Directive::JoinWorkers,
            Directive::Log(LogEvent::Terminating(SessionOutcome::Completed)),
        ]
    );
}

#[test]
fn scenario_engine_fault_is_logged_and_fails_the_session() {
    let (phase, directives) = run(vec![
        SessionEvent::SinkReady,
        SessionEvent::HandshakeCompleted,
        SessionEvent::FaultIntercepted,
    ]);
    assert_eq!(phase, Phase::Draining(SessionOutcome::Failed(SessionFailure::Fault)));
    assert_eq!(
        directives[4..],
        [Directive::Log(LogEvent::ServerPanicked), Directive::JoinWorkers]
    );
    let (phase, directives) = step(phase, SessionEvent::WorkersJoined);
    let outcome = SessionOutcome::Failed(SessionFailure::Fault);
    assert_eq!(directives, vec![Directive::Log(LogEvent::Terminating(outcome.clone()))]);
    assert_eq!(phase, Phase::Ended(outcome.clone()));
    assert_ne!(outcome.exit_code(), 0);
}

#[test]
fn a_fault_during_the_handshake_fails_the_session() {
    let (phase, directives) = run(vec![SessionEvent::SinkReady, SessionEvent::FaultIntercepted]);
    assert_eq!(phase, Phase::Draining(SessionOutcome::Failed(SessionFailure::Fault)));
    assert_eq!(joins(&directives), 1);
    assert!(!directives.contains(&Directive::RunEngine));
    assert!(directives.contains(&Directive::Log(LogEvent::ServerPanicked)));
}

#[test]
fn nothing_runs_after_a_fault() {
    let (phase, directives) = run(vec![
        SessionEvent::SinkReady,
        SessionEvent::HandshakeCompleted,
        SessionEvent::FaultIntercepted,
        SessionEvent::EngineCompleted,
        SessionEvent::HandshakeCompleted,
        SessionEvent::FaultIntercepted,
    ]);
    assert_eq!(phase, Phase::Draining(SessionOutcome::Failed(SessionFailure::Fault)));
    assert_eq!(joins(&directives), 1);
    assert_eq!(directives.iter().filter(|d| **d == Directive::RunEngine).count(), 1);
    assert_eq!(directives.last(), Some(&Directive::JoinWorkers));
}

#[test]
fn an_engine_error_fails_the_session_and_still_joins() {
    let (phase, directives) = run(vec![
        SessionEvent::SinkReady,
        SessionEvent::HandshakeCompleted,
        SessionEvent::EngineFailed("boom".to_string()),
        SessionEvent::WorkersJoined,
    ]);
    let outcome = SessionOutcome::Failed(SessionFailure::Engine("boom".to_string()));
    assert_eq!(phase, Phase::Ended(outcome.clone()));
    assert_eq!(joins(&directives), 1);
    assert_eq!(directives.last(), Some(&Directive::Log(LogEvent::Terminating(outcome))));
}

#[test]
fn a_protocol_failure_in_the_handshake_never_runs_the_engine() {
    let (phase, directives) = run(vec![
        SessionEvent::SinkReady,
        SessionEvent::ProtocolFailed("expected initialize".to_string()),
        SessionEvent::WorkersJoined,
    ]);
    assert_eq!(
        phase,
        Phase::Ended(SessionOutcome::Failed(SessionFailure::Protocol(
            "expected initialize".to_string()
        )))
    );
    assert!(!directives.contains(&Directive::RunEngine));
    assert_eq!(joins(&directives), 1);
}

#[test]
fn a_protocol_failure_while_the_engine_runs_fails_the_session() {
    let (phase, _) = run(vec![
        SessionEvent::SinkReady,
        SessionEvent::HandshakeCompleted,
        SessionEvent::ProtocolFailed("bad header".to_string()),
    ]);
    assert_eq!(
        phase,
        Phase::Draining(SessionOutcome::Failed(SessionFailure::Protocol("bad header".to_string())))
    );
}

#[test]
fn a_failed_join_fails_a_session_that_was_clean() {
    let (phase, directives) = run(vec![
        SessionEvent::SinkReady,
        SessionEvent::HandshakeCompleted,
        SessionEvent::EngineCompleted,
        SessionEvent::JoinFailed("broken pipe".to_string()),
    ]);
    let outcome = SessionOutcome::Failed(SessionFailure::IoShutdown("broken pipe".to_string()));
    assert_eq!(phase, Phase::Ended(outcome.clone()));
    assert_eq!(directives.last(), Some(&Directive::Log(LogEvent::Terminating(outcome))));
    assert_eq!(joins(&directives), 1);
}

#[test]
fn a_failed_join_keeps_a_failure_that_is_already_there() {
    let (phase, _) = run(vec![
        SessionEvent::SinkReady,
        SessionEvent::HandshakeCompleted,
        SessionEvent::FaultIntercepted,
        SessionEvent::JoinFailed("broken pipe".to_string()),
    ]);
    assert_eq!(phase, Phase::Ended(SessionOutcome::Failed(SessionFailure::Fault)));
}

#[test]
fn events_that_are_not_awaited_change_nothing() {
    let unexpected = vec![
        (Phase::Startup, SessionEvent::HandshakeCompleted),
        (Phase::Startup, SessionEvent::FaultIntercepted),
        (Phase::Startup, SessionEvent::WorkersJoined),
        (Phase::Handshake, SessionEvent::SinkReady),
        (Phase::Handshake, SessionEvent::EngineCompleted),
        (Phase::Handshake, SessionEvent::JoinFailed("x".to_string())),
        (Phase::Engine, SessionEvent::HandshakeCompleted),
        (Phase::Engine, SessionEvent::WorkersJoined),
        (Phase::Draining(SessionOutcome::Completed), SessionEvent::FaultIntercepted),
        (Phase::Draining(SessionOutcome::Completed), SessionEvent::EngineCompleted),
        (Phase::Ended(SessionOutcome::Completed), SessionEvent::SinkReady),
        (Phase::Ended(SessionOutcome::Completed), SessionEvent::WorkersJoined),
        (Phase::Ended(SessionOutcome::Completed), SessionEvent::FaultIntercepted),
    ];
    for (phase, event) in unexpected {
        let before = format!("{:?}", phase);
        let (next, directives) = step(phase, event);
        assert_eq!(format!("{:?}", next), before);
        assert!(directives.is_empty());
    }
}

#[test]
fn no_join_is_directed_while_the_engine_runs() {
    let (phase, directives) = run(vec![SessionEvent::SinkReady, SessionEvent::HandshakeCompleted]);
    assert_eq!(phase, Phase::Engine);
    assert_eq!(joins(&directives), 0);
    assert_eq!(directives.last(), Some(&Directive::RunEngine));
}

#[test]
fn the_engine_is_started_before_the_join() {
    let (_, directives) = run(vec![
        SessionEvent::SinkReady,
        SessionEvent::HandshakeCompleted,
        SessionEvent::EngineCompleted,
        SessionEvent::WorkersJoined,
        SessionEvent::WorkersJoined,
    ]);
    let engine = directives.iter().position(|d| *d == Directive::RunEngine).unwrap();
    let join = directives.iter().position(|d| *d == Directive::JoinWorkers).unwrap();
    assert!(engine < join);
    assert_eq!(joins(&directives), 1);
}
