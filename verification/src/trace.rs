//! Whole sessions: what holds of every sequence of events that a driver may
//! report, whatever their order.

use crate::lifecycle::{directed, in_session_logic, next_phase, Directive, Phase, SessionEvent};
use crate::notice::LogEvent;
use crate::outcome::{SessionFailure, SessionOutcome};
use vstd::prelude::*;

verus! {

/// The phase that a session which stands in `start` reaches on `events`.
pub open spec fn phase_from(start: Phase, events: Seq<SessionEvent>) -> Phase
    decreases events.len(),
{
    if events.len() == 0 {
        start
    } else {
        next_phase(phase_from(start, events.drop_last()), events.last())
    }
}

/// All that a session which stands in `start` directs on `events`, in order.
pub open spec fn directed_from(start: Phase, events: Seq<SessionEvent>) -> Seq<Directive>
    decreases events.len(),
{
    if events.len() == 0 {
        Seq::empty()
    } else {
        directed_from(start, events.drop_last()) + directed(
            phase_from(start, events.drop_last()),
            events.last(),
        )
    }
}

/// The phase of a new session after `events`.
pub open spec fn phase_after(events: Seq<SessionEvent>) -> Phase {
    phase_from(Phase::Startup, events)
}

/// All that a new session directs on `events`, in order.
pub open spec fn trace(events: Seq<SessionEvent>) -> Seq<Directive> {
    directed_from(Phase::Startup, events)
}

/// How often `wanted` stands in `directives`.
pub open spec fn count(directives: Seq<Directive>, wanted: Directive) -> nat
    decreases directives.len(),
{
    if directives.len() == 0 {
        0
    } else {
        count(directives.drop_last(), wanted) + if directives.last() == wanted {
            1nat
        } else {
            0nat
        }
    }
}

/// Whether the session logic of a session in `phase` is over, so that its
/// worker threads had to be joined: it is draining, or it ended after it
/// had begun.
pub open spec fn session_logic_over(phase: Phase) -> bool {
    match phase {
        Phase::Draining(_) => true,
        Phase::Ended(outcome) => !never_began(outcome),
        _ => false,
    }
}

/// Whether `outcome` is that of a process whose diagnostic sink could not
/// be set up: no session began, and nothing could be logged.
pub open spec fn never_began(outcome: SessionOutcome) -> bool {
    outcome matches SessionOutcome::Failed(failure) && failure is Startup
}

proof fn lemma_count_concat(front: Seq<Directive>, back: Seq<Directive>, wanted: Directive)
    ensures
        count(front + back, wanted) == count(front, wanted) + count(back, wanted),
    decreases back.len(),
{
    if back.len() == 0 {
        assert(front + back =~= front);
    } else {
        assert((front + back).drop_last() =~= front + back.drop_last());
        assert((front + back).last() == back.last());
        lemma_count_concat(front, back.drop_last(), wanted);
    }
}

proof fn lemma_count_none(directives: Seq<Directive>, wanted: Directive)
    requires
        count(directives, wanted) == 0,
    ensures
        forall|i: int| 0 <= i < directives.len() ==> directives[i] != wanted,
    decreases directives.len(),
{
    if directives.len() > 0 {
        lemma_count_none(directives.drop_last(), wanted);
        assert forall|i: int| 0 <= i < directives.len() implies directives[i] != wanted by {
            if i < directives.len() - 1 {
                assert(directives.drop_last()[i] == directives[i]);
            }
        }
    }
}

proof fn lemma_count_short(directives: Seq<Directive>, wanted: Directive)
    requires
        directives.len() <= 3,
    ensures
        count(directives, wanted) == (if directives.len() > 0 && directives[0] == wanted {
            1nat
        } else {
            0nat
        }) + (if directives.len() > 1 && directives[1] == wanted {
            1nat
        } else {
            0nat
        }) + (if directives.len() > 2 && directives[2] == wanted {
            1nat
        } else {
            0nat
        }),
    decreases directives.len(),
{
    if directives.len() > 0 {
        let shorter = directives.drop_last();
        lemma_count_short(shorter, wanted);
        assert(forall|i: int| 0 <= i < shorter.len() ==> shorter[i] == directives[i]);
    }
}

proof fn lemma_phase_concat(start: Phase, first: Seq<SessionEvent>, then: Seq<SessionEvent>)
    ensures
        phase_from(start, first + then) == phase_from(phase_from(start, first), then),
        directed_from(start, first + then) == directed_from(start, first) + directed_from(
            phase_from(start, first),
            then,
        ),
    decreases then.len(),
{
    if then.len() == 0 {
        assert(first + then =~= first);
        assert(directed_from(start, first) + Seq::<Directive>::empty() =~= directed_from(
            start,
            first,
        ));
    } else {
        assert((first + then).drop_last() =~= first + then.drop_last());
        assert((first + then).last() == then.last());
        lemma_phase_concat(start, first, then.drop_last());
        let middle = phase_from(start, first);
        assert(directed_from(start, first + then) =~= directed_from(start, first)
            + directed_from(middle, then));
    }
}

/// What holds of a new session after any events, by phase: how often the
/// engine was started and the workers joined, that every start of the
/// engine stands before every join, and that the end was logged last and
/// once.
spec fn consistent(phase: Phase, directives: Seq<Directive>) -> bool {
    &&& count(directives, Directive::JoinWorkers) == if session_logic_over(phase) {
        1nat
    } else {
        0nat
    }
    &&& count(directives, Directive::RunEngine) <= 1
    &&& (phase is Startup || phase is Handshake) ==> count(directives, Directive::RunEngine)
        == 0
    &&& phase is Engine ==> count(directives, Directive::RunEngine) == 1
    &&& phase matches Phase::Draining(so_far) ==> !never_began(so_far)
    &&& forall|i: int, j: int|
        0 <= i < directives.len() && 0 <= j < directives.len() && directives[i]
            == Directive::RunEngine && directives[j] == Directive::JoinWorkers ==> i < j
    &&& forall|outcome: SessionOutcome|
        !(phase is Ended) ==> #[trigger] count(
            directives,
            Directive::Log(LogEvent::Terminating(outcome)),
        ) == 0
    &&& phase matches Phase::Ended(outcome) ==> (never_began(outcome) ==> directives.len() == 0)
        && (!never_began(outcome) ==> directives.len() > 0 && directives.last()
        == Directive::Log(LogEvent::Terminating(outcome)) && count(
        directives,
        Directive::Log(LogEvent::Terminating(outcome)),
    ) == 1)
    &&& phase is Startup ==> directives.len() == 0
}

proof fn lemma_step_consistent(phase: Phase, directives: Seq<Directive>, event: SessionEvent)
    requires
        consistent(phase, directives),
    ensures
        consistent(next_phase(phase, event), directives + directed(phase, event)),
{
    let next = next_phase(phase, event);
    let added = directed(phase, event);
    let all = directives + added;
    lemma_count_concat(directives, added, Directive::JoinWorkers);
    lemma_count_concat(directives, added, Directive::RunEngine);
    lemma_count_short(added, Directive::JoinWorkers);
    lemma_count_short(added, Directive::RunEngine);
    if added.len() == 0 {
        assert(all =~= directives);
    }
    assert forall|outcome: SessionOutcome|
        count(all, Directive::Log(LogEvent::Terminating(outcome))) == count(
            directives,
            Directive::Log(LogEvent::Terminating(outcome)),
        ) + count(added, Directive::Log(LogEvent::Terminating(outcome))) by {
        lemma_count_concat(directives, added, Directive::Log(LogEvent::Terminating(outcome)));
    }
    assert forall|outcome: SessionOutcome|
        !(next is Ended) implies #[trigger] count(
            all,
            Directive::Log(LogEvent::Terminating(outcome)),
        ) == 0 by {
        lemma_count_short(added, Directive::Log(LogEvent::Terminating(outcome)));
    }
    if next is Ended {
        lemma_count_short(added, Directive::Log(LogEvent::Terminating(next->Ended_0)));
    }
    if count(directives, Directive::JoinWorkers) == 0 {
        lemma_count_none(directives, Directive::JoinWorkers);
    }
    if count(directives, Directive::RunEngine) == 0 {
        lemma_count_none(directives, Directive::RunEngine);
    }
    assert forall|i: int, j: int|
        0 <= i < all.len() && 0 <= j < all.len() && all[i] == Directive::RunEngine && all[j]
            == Directive::JoinWorkers implies i < j by {
        if i < directives.len() && j < directives.len() {
            assert(all[i] == directives[i]);
            assert(all[j] == directives[j]);
        } else if i >= directives.len() {
            assert(all[i] == added[i - directives.len()]);
            if j >= directives.len() {
                assert(all[j] == added[j - directives.len()]);
            } else {
                assert(all[j] == directives[j]);
            }
        } else {
            assert(all[i] == directives[i]);
            assert(all[j] == added[j - directives.len()]);
        }
    }
}

proof fn lemma_consistent(events: Seq<SessionEvent>)
    ensures
        consistent(phase_after(events), trace(events)),
    decreases events.len(),
{
    if events.len() > 0 {
        lemma_consistent(events.drop_last());
        lemma_step_consistent(
            phase_after(events.drop_last()),
            trace(events.drop_last()),
            events.last(),
        );
    }
}

/// The worker threads are joined exactly once in a session, and not before
/// the session logic is over: while the sink is set up, the handshake
/// awaited or the engine in control, no join has been directed; once the
/// engine has returned, a fault has been intercepted or the handshake has
/// failed, exactly one has, whatever is reported after that.
pub proof fn law_workers_joined_once(events: Seq<SessionEvent>)
    ensures
        session_logic_over(phase_after(events)) ==> count(trace(events), Directive::JoinWorkers)
            == 1,
        !session_logic_over(phase_after(events)) ==> count(
            trace(events),
            Directive::JoinWorkers,
        ) == 0,
{
    lemma_consistent(events);
}

/// The engine is handed control at most once, and has it exactly once while
/// the session is in its phase.
pub proof fn law_engine_runs_once(events: Seq<SessionEvent>)
    ensures
        count(trace(events), Directive::RunEngine) <= 1,
        phase_after(events) is Engine ==> count(trace(events), Directive::RunEngine) == 1,
        phase_after(events) is Startup || phase_after(events) is Handshake ==> count(
            trace(events),
            Directive::RunEngine,
        ) == 0,
{
    lemma_consistent(events);
}

/// The join of the worker threads is never directed before the engine is
/// handed control: in what a session directs, every start of the engine
/// stands before every join.
pub proof fn law_join_follows_engine(events: Seq<SessionEvent>, run: int, join: int)
    requires
        0 <= run < trace(events).len(),
        0 <= join < trace(events).len(),
        trace(events)[run] == Directive::RunEngine,
        trace(events)[join] == Directive::JoinWorkers,
    ensures
        run < join,
{
    lemma_consistent(events);
}

/// A session that began never ends without its end being logged: once it
/// has ended, the event that carries its outcome is the last thing that it
/// directed, and was directed once.
pub proof fn law_end_is_logged(events: Seq<SessionEvent>)
    requires
        phase_after(events) is Ended,
        !never_began(phase_after(events)->Ended_0),
    ensures
        trace(events).len() > 0,
        trace(events).last() == Directive::Log(
            LogEvent::Terminating(phase_after(events)->Ended_0),
        ),
        count(
            trace(events),
            Directive::Log(LogEvent::Terminating(phase_after(events)->Ended_0)),
        ) == 1,
{
    lemma_consistent(events);
}

proof fn lemma_fault_sticks(start: Phase, events: Seq<SessionEvent>)
    requires
        start == Phase::Draining(SessionOutcome::Failed(SessionFailure::Fault)) || start
            == Phase::Ended(SessionOutcome::Failed(SessionFailure::Fault)),
    ensures
        phase_from(start, events) == Phase::Draining(
            SessionOutcome::Failed(SessionFailure::Fault),
        ) || phase_from(start, events) == Phase::Ended(
            SessionOutcome::Failed(SessionFailure::Fault),
        ),
    decreases events.len(),
{
    if events.len() > 0 {
        lemma_fault_sticks(start, events.drop_last());
    }
}

/// A fault that is intercepted while the session logic runs always yields a
/// failure: whatever was reported before it and whatever is reported after
/// it, the outcome of the session is the fault, and the fault was logged as
/// an error when it was intercepted.
pub proof fn law_fault_yields_failure(before: Seq<SessionEvent>, after: Seq<SessionEvent>)
    requires
        in_session_logic(phase_after(before)),
    ensures
        ({
            let end = phase_after(before.push(SessionEvent::FaultIntercepted) + after);
            end == Phase::Draining(SessionOutcome::Failed(SessionFailure::Fault)) || end
                == Phase::Ended(SessionOutcome::Failed(SessionFailure::Fault))
        }),
        count(
            trace(before.push(SessionEvent::FaultIntercepted)),
            Directive::Log(LogEvent::ServerPanicked),
        ) >= 1,
{
    let faulted = before.push(SessionEvent::FaultIntercepted);
    assert(faulted.drop_last() =~= before);
    assert(faulted.last() == SessionEvent::FaultIntercepted);
    let here = phase_after(faulted);
    assert(here == Phase::Draining(SessionOutcome::Failed(SessionFailure::Fault)));
    lemma_phase_concat(Phase::Startup, faulted, after);
    lemma_fault_sticks(here, after);
    let added = directed(phase_after(before), SessionEvent::FaultIntercepted);
    lemma_count_concat(trace(before), added, Directive::Log(LogEvent::ServerPanicked));
    lemma_count_short(added, Directive::Log(LogEvent::ServerPanicked));
}

} // verus!
