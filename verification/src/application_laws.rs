//! What the application owes to whoever runs it, stated event by event.

use crate::application::{
    law_first_verdict_decides, Event, HandlerEnd, HandlerState, HandlerWake, Lifecycle, Phase,
    Ready, ShutdownSignal, TaskOutcome,
};
use crate::errors::AppError;
use vstd::prelude::*;

verus! {

/// Whether `next` is `l` with its end settled as `result`: the token is cancelled,
/// the signal handler is as it was, and what is left is to wait for it, if it has
/// not ended.
pub open spec fn settles(l: Lifecycle, next: Lifecycle, result: Result<(), AppError>) -> bool {
    &&& next.cancel_requested
    &&& next.handler == l.handler
    &&& l.handler == HandlerState::Listening ==> next.phase == (Phase::Stopping { result })
    &&& l.handler != HandlerState::Listening ==> next.phase == (Phase::Stopped {
        result,
        graceful: true,
    })
}

/// An application starts with everything running: nothing cancelled, the signal
/// handler listening, no end settled.
pub proof fn law_everything_runs_at_the_start()
    ensures
        !Lifecycle::initial().cancel_requested,
        Lifecycle::initial().handler == HandlerState::Listening,
        Lifecycle::initial().phase is Running,
        Lifecycle::initial().result() is None,
        Lifecycle::initial().wf(),
{
}

/// What ends a running application, and how: the end of either service, with the
/// error of that service where it failed or panicked, or a cancellation.
pub proof fn law_what_ends_a_running_application(l: Lifecycle, why: String)
    requires
        l.phase is Running,
    ensures
        settles(l, l.after(Event::HealthServer(TaskOutcome::Completed)), Ok(())),
        settles(
            l,
            l.after(Event::HealthServer(TaskOutcome::Failed(why))),
            Err(AppError::HealthServerFailed(why)),
        ),
        settles(
            l,
            l.after(Event::HealthServer(TaskOutcome::Panicked(why))),
            Err(AppError::HealthServerPanicked(why)),
        ),
        settles(l, l.after(Event::Drainer(TaskOutcome::Completed)), Ok(())),
        settles(
            l,
            l.after(Event::Drainer(TaskOutcome::Failed(why))),
            Err(AppError::DrainerFailed(why)),
        ),
        settles(
            l,
            l.after(Event::Drainer(TaskOutcome::Panicked(why))),
            Err(AppError::DrainerPanicked(why)),
        ),
        settles(l, l.after(Event::Cancelled), Ok(())),
{
}

/// What does not end a running application: the end of the signal handler, which
/// cancels the token where a signal brought it about and changes nothing else,
/// and the clock.
pub proof fn law_what_a_running_application_survives(l: Lifecycle, signal: ShutdownSignal)
    requires
        l.phase is Running,
    ensures
        l.handler == HandlerState::Listening ==> {
            &&& l.after(Event::Signal(signal)) == (Lifecycle {
                cancel_requested: true,
                handler: HandlerState::Signalled(signal),
                phase: Phase::Running,
            })
            &&& l.after(Event::HandlerStopped) == (Lifecycle {
                cancel_requested: l.cancel_requested,
                handler: HandlerState::Stopped,
                phase: Phase::Running,
            })
            &&& l.after(Event::HandlerFailed) == (Lifecycle {
                cancel_requested: l.cancel_requested,
                handler: HandlerState::Failed,
                phase: Phase::Running,
            })
        },
        l.wf() && l.handler != HandlerState::Listening ==> {
            &&& l.after(Event::Signal(signal)) == l
            &&& l.after(Event::HandlerStopped) == l
            &&& l.after(Event::HandlerFailed) == l
        },
        l.wf() ==> l.after(Event::GraceElapsed) == l,
{
}

/// What a shutdown waits for: the end of the signal handler, by which it is
/// graceful, or the end of the grace period, by which it is not. Nothing else
/// changes it, and its result stays as it was settled.
pub proof fn law_what_a_shutdown_waits_for(
    l: Lifecycle,
    result: Result<(), AppError>,
    signal: ShutdownSignal,
    outcome: TaskOutcome,
)
    requires
        l.phase == (Phase::Stopping { result }),
        l.handler == HandlerState::Listening,
    ensures
        l.after(Event::Signal(signal)) == (Lifecycle {
            cancel_requested: l.cancel_requested,
            handler: HandlerState::Signalled(signal),
            phase: Phase::Stopped { result, graceful: true },
        }),
        l.after(Event::HandlerStopped) == (Lifecycle {
            cancel_requested: l.cancel_requested,
            handler: HandlerState::Stopped,
            phase: Phase::Stopped { result, graceful: true },
        }),
        l.after(Event::HandlerFailed) == (Lifecycle {
            cancel_requested: l.cancel_requested,
            handler: HandlerState::Failed,
            phase: Phase::Stopped { result, graceful: true },
        }),
        l.after(Event::GraceElapsed) == (Lifecycle {
            cancel_requested: l.cancel_requested,
            handler: HandlerState::Listening,
            phase: Phase::Stopped { result, graceful: false },
        }),
        l.after(Event::HealthServer(outcome)) == l,
        l.after(Event::Drainer(outcome)) == l,
        l.after(Event::Cancelled) == l,
{
}

/// An application that has stopped stays as it stopped.
pub proof fn law_stopped_is_stopped(l: Lifecycle, event: Event)
    requires
        l.phase is Stopped,
    ensures
        l.after(event) == l,
{
}

/// The settled result is the one that the phase holds.
pub proof fn law_result_is_in_the_phase(l: Lifecycle, result: Result<(), AppError>, graceful: bool)
    ensures
        l.result() is None <==> l.phase is Running,
        l.phase == (Phase::Stopping { result }) ==> l.result() == Some(result),
        l.phase == (Phase::Stopped { result, graceful }) ==> l.result() == Some(result),
{
}

/// A signal handler that has ended stays ended as it did, whatever comes.
pub proof fn law_handler_ends_once(l: Lifecycle, events: Seq<Event>)
    requires
        l.handler != HandlerState::Listening,
    ensures
        l.after_all(events).handler == l.handler,
    decreases events.len(),
{
    if events.len() > 0 {
        law_handler_ends_once(l, events.drop_last());
    }
}

/// Where the signal handler has ended there is nothing to wait for: whatever ends
/// the application, a service or a cancellation, stops it at once and gracefully.
pub proof fn law_nothing_to_wait_for(l: Lifecycle, event: Event)
    requires
        l.phase is Running,
        l.handler != HandlerState::Listening,
        event is HealthServer || event is Drainer || event is Cancelled,
    ensures
        l.after(event).phase is Stopped,
        l.after(event).phase->graceful,
        l.after(event).handler == l.handler,
        l.after(event).cancel_requested,
{
}

/// A sequence of events is taken one by one, from first to last.
pub proof fn law_events_are_taken_in_turn(l: Lifecycle, events: Seq<Event>, event: Event)
    ensures
        l.after_all(Seq::empty()) == l,
        l.after_all(events.push(event)) == l.after_all(events).after(event),
{
    assert(events.push(event).drop_last() =~= events);
}

/// What wakes the signal handler is reported as what it was.
pub proof fn law_wakes_are_reported_as_they_were()
    ensures
        crate::application::handler_report(HandlerWake::CtrlC) == Event::Signal(
            ShutdownSignal::Interrupt,
        ),
        crate::application::handler_report(HandlerWake::Terminate) == Event::Signal(
            ShutdownSignal::Terminate,
        ),
        crate::application::handler_report(HandlerWake::TokenCancelled) == Event::HandlerStopped,
        HandlerWake::CtrlC.woken_by() == Some(ShutdownSignal::Interrupt),
        HandlerWake::Terminate.woken_by() == Some(ShutdownSignal::Terminate),
        HandlerWake::TokenCancelled.woken_by() is None,
        ShutdownSignal::Interrupt.notice_text() == "Received SIGINT (Ctrl+C)"@,
        ShutdownSignal::Terminate.notice_text() == "Received SIGTERM"@,
{
}

/// Whether what is known bears the event out.
pub open spec fn is_known(ready: Ready, event: Event) -> bool {
    match event {
        Event::HealthServer(outcome) => ready.health_server == Some(outcome),
        Event::Drainer(outcome) => ready.drainer == Some(outcome),
        Event::Signal(ShutdownSignal::Interrupt) => ready.handler == Some(
            HandlerEnd::Woken(HandlerWake::CtrlC),
        ),
        Event::Signal(ShutdownSignal::Terminate) => ready.handler == Some(
            HandlerEnd::Woken(HandlerWake::Terminate),
        ),
        Event::HandlerStopped => ready.handler == Some(
            HandlerEnd::Woken(HandlerWake::TokenCancelled),
        ),
        Event::HandlerFailed => ready.handler == Some(HandlerEnd::Failed),
        Event::Cancelled => ready.cancelled,
        Event::GraceElapsed => ready.grace_elapsed,
    }
}

/// The turn at which an event counts: the services first, then the signal handler,
/// then the token, and last the clock.
pub open spec fn turn(event: Event) -> int {
    match event {
        Event::HealthServer(_) | Event::Drainer(_) => 0,
        Event::Signal(_) | Event::HandlerStopped | Event::HandlerFailed => 1,
        Event::Cancelled => 2,
        Event::GraceElapsed => 3,
    }
}

/// One, if so.
pub open spec fn count_if(so: bool) -> int {
    if so {
        1
    } else {
        0
    }
}

/// All that is known is told, and nothing else: there is an event for each thing
/// known, and as many events as things.
pub proof fn law_all_that_is_known_is_told(ready: Ready, event: Event)
    ensures
        ready.events().contains(event) <==> is_known(ready, event),
        ready.events().len() == count_if(ready.health_server is Some) + count_if(
            ready.drainer is Some,
        ) + count_if(ready.handler is Some) + count_if(ready.cancelled) + count_if(
            ready.grace_elapsed,
        ),
{
    let events = ready.events();
    let n = services(ready);
    if ready.health_server is Some {
        let k: int = if ready.drainer_first() {
            1
        } else {
            0
        };
        assert(events[k] == Event::HealthServer(ready.health_server->0));
    }
    if ready.drainer is Some {
        let k: int = if ready.health_server is Some && !ready.drainer_first() {
            1
        } else {
            0
        };
        assert(events[k] == Event::Drainer(ready.drainer->0));
    }
    if ready.handler is Some {
        lemma_handler_event(ready);
    }
    if ready.cancelled {
        assert(events[n + count_if(ready.handler is Some)] == Event::Cancelled);
    }
    if ready.grace_elapsed {
        assert(events[n + count_if(ready.handler is Some) + count_if(ready.cancelled)]
            == Event::GraceElapsed);
    }
    if events.contains(event) {
        let k = events.index_of(event);
        assert(events[k] == event);
        assert(k < n ==> event is HealthServer || event is Drainer);
    }
}

/// How many services are known to have ended.
pub open spec fn services(ready: Ready) -> int {
    count_if(ready.health_server is Some) + count_if(ready.drainer is Some)
}

proof fn lemma_handler_event(ready: Ready)
    requires
        ready.handler is Some,
    ensures
        services(ready) < ready.events().len(),
        turn(ready.events()[services(ready)]) == 1,
        is_known(ready, ready.events()[services(ready)]),
        forall|i: int| 0 <= i < services(ready) ==> turn(#[trigger] ready.events()[i]) == 0,
{
    let handler = ready.handler->0;
    assert(ready.events()[services(ready)] == crate::application::handler_event(handler));
    match handler {
        HandlerEnd::Woken(wake) => {
            match wake {
                HandlerWake::CtrlC => {},
                HandlerWake::Terminate => {},
                HandlerWake::TokenCancelled => {},
            }
        },
        HandlerEnd::Failed => {},
    }
}

/// What is known is told in the order in which it counts: services before the
/// signal handler, that before the cancellation, that before the clock; of two
/// services the one that failed before the one that ended well, and else the
/// health server first.
pub proof fn law_what_counts_more_comes_first(ready: Ready, i: int, j: int)
    requires
        0 <= i < j < ready.events().len(),
    ensures
        turn(ready.events()[i]) <= turn(ready.events()[j]),
        turn(ready.events()[j]) == 0 ==> {
            let drainer_failed = !(ready.drainer->0 is Completed);
            let health_server_failed = !(ready.health_server->0 is Completed);
            if drainer_failed && !health_server_failed {
                ready.events()[i] is Drainer && ready.events()[j] is HealthServer
            } else {
                ready.events()[i] is HealthServer && ready.events()[j] is Drainer
            }
        },
{
    if ready.handler is Some {
        lemma_handler_event(ready);
    }
}

/// Any end of a service that is known settles the end of a running application and
/// cancels the token, whatever else is known; and where none that is known has
/// failed, it ends well.
pub proof fn law_known_end_settles_it(l: Lifecycle, ready: Ready)
    requires
        l.phase is Running,
        ready.health_server is Some || ready.drainer is Some,
    ensures
        l.after_all(ready.events()).result() is Some,
        l.after_all(ready.events()).cancel_requested,
        (ready.health_server is Some ==> ready.health_server->0 is Completed) && (
        ready.drainer is Some ==> ready.drainer->0 is Completed) ==> l.after_all(
            ready.events(),
        ).result() == Some(Ok::<(), AppError>(())),
{
    let events = ready.events();
    assert(events[0] is HealthServer || events[0] is Drainer);
    law_first_verdict_decides(l, events, 0);
    lemma_settled_is_cancelled(l, events);
}

proof fn lemma_settled_is_cancelled(l: Lifecycle, events: Seq<Event>)
    requires
        l.result() is Some ==> l.cancel_requested,
    ensures
        l.after_all(events).result() is Some ==> l.after_all(events).cancel_requested,
        l.cancel_requested ==> l.after_all(events).cancel_requested,
    decreases events.len(),
{
    if events.len() > 0 {
        lemma_settled_is_cancelled(l, events.drop_last());
    }
}

/// A signal is not lost: where the listening signal handler of a running
/// application is known to have been woken by a signal, whatever else is known,
/// the token is cancelled and the handler is down as woken by that very signal.
pub proof fn law_known_signal_cancels(l: Lifecycle, ready: Ready)
    requires
        l.phase is Running,
        l.handler == HandlerState::Listening,
    ensures
        ready.handler == Some(HandlerEnd::Woken(HandlerWake::CtrlC)) ==> {
            &&& l.after_all(ready.events()).cancel_requested
            &&& l.after_all(ready.events()).handler == HandlerState::Signalled(
                ShutdownSignal::Interrupt,
            )
        },
        ready.handler == Some(HandlerEnd::Woken(HandlerWake::Terminate)) ==> {
            &&& l.after_all(ready.events()).cancel_requested
            &&& l.after_all(ready.events()).handler == HandlerState::Signalled(
                ShutdownSignal::Terminate,
            )
        },
        ready.handler == Some(HandlerEnd::Woken(HandlerWake::TokenCancelled)) ==> l.after_all(
            ready.events(),
        ).handler == HandlerState::Stopped,
        ready.handler == Some(HandlerEnd::Failed) ==> l.after_all(ready.events()).handler
            == HandlerState::Failed,
{
    if ready.handler is Some {
        lemma_handler_event(ready);
        lemma_handler_end_counts(l, ready.events(), services(ready));
    }
}

/// The end of the listening signal handler counts as what it was, whatever the
/// services did before it and whatever comes after; and a signal cancels.
proof fn lemma_handler_end_counts(l: Lifecycle, events: Seq<Event>, k: int)
    requires
        l.phase is Running,
        l.handler == HandlerState::Listening,
        0 <= k < events.len(),
        forall|i: int| 0 <= i < k ==> turn(#[trigger] events[i]) == 0,
        turn(events[k]) == 1,
    ensures
        match events[k] {
            Event::Signal(signal) => {
                &&& l.after_all(events).cancel_requested
                &&& l.after_all(events).handler == HandlerState::Signalled(signal)
            },
            Event::HandlerStopped => l.after_all(events).handler == HandlerState::Stopped,
            _ => l.after_all(events).handler == HandlerState::Failed,
        },
    decreases events.len(),
{
    let earlier = events.drop_last();
    if k < earlier.len() {
        assert(forall|i: int| 0 <= i < k ==> turn(#[trigger] earlier[i]) == 0) by {
            assert(forall|i: int| 0 <= i < k ==> earlier[i] == events[i]);
        }
        lemma_handler_end_counts(l, earlier, k);
    } else {
        assert forall|i: int| 0 <= i < earlier.len() implies turn(#[trigger] earlier[i]) == 0 by {
            assert(earlier[i] == events[i]);
        }
        lemma_services_leave_the_handler(l, earlier);
    }
}

proof fn lemma_services_leave_the_handler(l: Lifecycle, events: Seq<Event>)
    requires
        l.phase is Running,
        l.handler == HandlerState::Listening,
        forall|i: int| 0 <= i < events.len() ==> turn(#[trigger] events[i]) == 0,
    ensures
        l.after_all(events).handler == HandlerState::Listening,
        !(l.after_all(events).phase is Stopped),
        l.after_all(events).phase is Stopping ==> l.after_all(events).cancel_requested,
    decreases events.len(),
{
    if events.len() > 0 {
        let earlier = events.drop_last();
        assert forall|i: int| 0 <= i < earlier.len() implies turn(#[trigger] earlier[i]) == 0 by {
            assert(earlier[i] == events[i]);
        }
        lemma_services_leave_the_handler(l, earlier);
        assert(turn(events[events.len() - 1]) == 0);
    }
}

/// The token is what the application goes by, in every state that it can come to:
/// it is cancelled exactly if a signal has arrived at the listening handler or the
/// end is settled.
pub proof fn law_cancelled_exactly_with_a_cause(events: Seq<Event>)
    ensures
        ({
            let l = Lifecycle::initial().after_all(events);
            l.cancel_requested <==> l.handler is Signalled || l.result() is Some
        }),
    decreases events.len(),
{
    if events.len() > 0 {
        law_cancelled_exactly_with_a_cause(events.drop_last());
    }
}

} // verus!
