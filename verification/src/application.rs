//! The running application: its tasks, what ends it, and its shutdown.
//!
//! Three tasks run side by side: the health server, the drainer service and the
//! signal handler. The first of the two services to end, or a cancellation,
//! settles how the application ends. Then every task is told to stop through the
//! cancellation token, and the application waits for the signal handler, though
//! no longer than a grace period.

use crate::cancellation::{cancel, CancelledToken, FreshToken, GivenToken};
use crate::delay::{Delay, NANOS_PER_SEC};
use crate::errors::AppError;
use tokio_util::sync::CancellationToken;
use vstd::prelude::*;

verus! {

/// Grace period for shutdown operations, in seconds.
pub const SHUTDOWN_GRACE_SECS: u64 = 30;

/// Grace period for shutdown operations.
pub fn shutdown_grace_period() -> (period: Delay)
    ensures
        period@ == SHUTDOWN_GRACE_SECS * NANOS_PER_SEC,
        period@ == 30_000_000_000,
{
    Delay::from_secs(SHUTDOWN_GRACE_SECS)
}

/// The signals that ask for a shutdown.
#[derive(Clone, Copy, Debug, PartialEq, Eq, Structural)]
pub enum ShutdownSignal {
    Interrupt,
    Terminate,
}

impl ShutdownSignal {
    /// The line that is logged when the signal arrives.
    pub open spec fn notice_text(self) -> Seq<char> {
        match self {
            ShutdownSignal::Interrupt => "Received SIGINT (Ctrl+C)"@,
            ShutdownSignal::Terminate => "Received SIGTERM"@,
        }
    }

    /// The line that is logged when the signal arrives.
    pub fn notice(&self) -> (text: String)
        ensures
            text@ == self.notice_text(),
    {
        match self {
            ShutdownSignal::Interrupt => "Received SIGINT (Ctrl+C)".to_owned(),
            ShutdownSignal::Terminate => "Received SIGTERM".to_owned(),
        }
    }
}

/// How a service task ended.
pub enum TaskOutcome {
    /// It returned without an error.
    Completed,
    /// It returned the error described.
    Failed(String),
    /// It panicked, as described.
    Panicked(String),
}

/// What first woke the signal handler.
pub enum HandlerWake {
    /// An interrupt from the keyboard.
    CtrlC,
    /// A request to terminate.
    Terminate,
    /// The token was cancelled: the application is stopping anyway.
    TokenCancelled,
}

/// What the application learns of its tasks.
pub enum Event {
    /// The health server ended.
    HealthServer(TaskOutcome),
    /// The drainer service ended.
    Drainer(TaskOutcome),
    /// The token was seen cancelled.
    Cancelled,
    /// The signal handler received a signal, and is done.
    Signal(ShutdownSignal),
    /// The signal handler is done without a signal.
    HandlerStopped,
    /// The task of the signal handler failed.
    HandlerFailed,
    /// The grace period is over.
    GraceElapsed,
}

impl HandlerWake {
    /// The signal that woke the handler, if one did.
    pub open spec fn woken_by(self) -> Option<ShutdownSignal> {
        match self {
            HandlerWake::CtrlC => Some(ShutdownSignal::Interrupt),
            HandlerWake::Terminate => Some(ShutdownSignal::Terminate),
            HandlerWake::TokenCancelled => None,
        }
    }

    /// The signal that woke the handler, if one did.
    pub fn signal(&self) -> (signal: Option<ShutdownSignal>)
        ensures
            signal == self.woken_by(),
    {
        match self {
            HandlerWake::CtrlC => Some(ShutdownSignal::Interrupt),
            HandlerWake::Terminate => Some(ShutdownSignal::Terminate),
            HandlerWake::TokenCancelled => None,
        }
    }
}

/// What the signal handler reports when it wakes: the signal that woke it, or
/// that it stopped because the token was cancelled.
pub open spec fn handler_report(wake: HandlerWake) -> Event {
    match wake.woken_by() {
        Some(signal) => Event::Signal(signal),
        None => Event::HandlerStopped,
    }
}

/// The report of the signal handler on what woke it first.
pub fn wait_for_shutdown_signal(wake: HandlerWake) -> (event: Event)
    ensures
        event == handler_report(wake),
        match wake {
            HandlerWake::CtrlC => event == Event::Signal(ShutdownSignal::Interrupt),
            HandlerWake::Terminate => event == Event::Signal(ShutdownSignal::Terminate),
            HandlerWake::TokenCancelled => event == Event::HandlerStopped,
        },
{
    match wake.signal() {
        Some(signal) => Event::Signal(signal),
        None => Event::HandlerStopped,
    }
}

/// How the task of the signal handler ended.
pub enum HandlerEnd {
    /// It was woken.
    Woken(HandlerWake),
    /// It failed.
    Failed,
}

/// All that is known at one moment of the tasks that the application waits for:
/// how each one ended that has ended, whether the token is seen cancelled, and
/// whether the grace period is over.
pub struct Ready {
    pub health_server: Option<TaskOutcome>,
    pub drainer: Option<TaskOutcome>,
    pub handler: Option<HandlerEnd>,
    pub cancelled: bool,
    pub grace_elapsed: bool,
}

impl TaskOutcome {
    /// Whether the task did not end well.
    pub open spec fn failed(self) -> bool {
        !(self is Completed)
    }

    fn has_failed(&self) -> (failed: bool)
        ensures
            failed == self.failed(),
    {
        match self {
            TaskOutcome::Completed => false,
            _ => true,
        }
    }
}

/// A sequence of the event, where there is one.
pub open spec fn event_if<A>(value: Option<A>, event: spec_fn(A) -> Event) -> Seq<Event> {
    match value {
        Some(value) => seq![event(value)],
        None => Seq::empty(),
    }
}

/// The end of the signal handler, as an event.
pub open spec fn handler_event(end: HandlerEnd) -> Event {
    match end {
        HandlerEnd::Woken(wake) => handler_report(wake),
        HandlerEnd::Failed => Event::HandlerFailed,
    }
}

impl Ready {
    /// Whether the drainer service comes before the health server: where it failed
    /// and the health server ended well.
    pub open spec fn drainer_first(self) -> bool {
        &&& self.drainer is Some && self.drainer->0.failed()
        &&& self.health_server is Some && !self.health_server->0.failed()
    }

    /// The ends of the services, a failure before a good end.
    pub open spec fn service_events(self) -> Seq<Event> {
        let health_server = event_if(self.health_server, |o: TaskOutcome| Event::HealthServer(o));
        let drainer = event_if(self.drainer, |o: TaskOutcome| Event::Drainer(o));
        if self.drainer_first() {
            drainer + health_server
        } else {
            health_server + drainer
        }
    }

    /// What is known, as events in the order in which they count: the ends of the
    /// services, then that of the signal handler, then the cancellation, and last
    /// the end of the grace period.
    pub open spec fn events(self) -> Seq<Event> {
        self.service_events() + event_if(self.handler, |end: HandlerEnd| handler_event(end)) + (
        if self.cancelled {
            seq![Event::Cancelled]
        } else {
            Seq::empty()
        }) + (if self.grace_elapsed {
            seq![Event::GraceElapsed]
        } else {
            Seq::empty()
        })
    }

    /// Nothing is known.
    pub fn nothing() -> (ready: Ready)
        ensures
            ready.events() == Seq::<Event>::empty(),
            ready == (Ready {
                health_server: None,
                drainer: None,
                handler: None,
                cancelled: false,
                grace_elapsed: false,
            }),
    {
        let ready = Ready {
            health_server: None,
            drainer: None,
            handler: None,
            cancelled: false,
            grace_elapsed: false,
        };
        assert(ready.events() =~= Seq::<Event>::empty());
        ready
    }

    /// Whether nothing is known.
    pub fn is_nothing(&self) -> (nothing: bool)
        ensures
            nothing == (self.events().len() == 0),
            nothing <==> self.health_server is None && self.drainer is None && self.handler is None
                && !self.cancelled && !self.grace_elapsed,
    {
        self.health_server.is_none() && self.drainer.is_none() && self.handler.is_none()
            && !self.cancelled && !self.grace_elapsed
    }

    /// What is known, as events in the order in which they count.
    pub fn into_events(self) -> (events: Vec<Event>)
        ensures
            events@ == self.events(),
    {
        let ghost ready = self;
        let drainer_first = match (&self.drainer, &self.health_server) {
            (Some(drainer), Some(health_server)) => drainer.has_failed()
                && !health_server.has_failed(),
            _ => false,
        };
        let Ready { health_server, drainer, handler, cancelled, grace_elapsed } = self;
        let mut events: Vec<Event> = Vec::new();
        let mut late: Option<TaskOutcome> = None;
        if let Some(outcome) = health_server {
            if drainer_first {
                late = Some(outcome);
            } else {
                events.push(Event::HealthServer(outcome));
            }
        }
        if let Some(outcome) = drainer {
            events.push(Event::Drainer(outcome));
        }
        if let Some(outcome) = late {
            events.push(Event::HealthServer(outcome));
        }
        assert(events@ =~= ready.service_events());
        if let Some(end) = handler {
            let event = match end {
                HandlerEnd::Woken(wake) => wait_for_shutdown_signal(wake),
                HandlerEnd::Failed => Event::HandlerFailed,
            };
            events.push(event);
        }
        if cancelled {
            events.push(Event::Cancelled);
        }
        if grace_elapsed {
            events.push(Event::GraceElapsed);
        }
        assert(events@ =~= ready.events());
        events
    }
}

/// The signal handler, as the application knows it.
#[derive(Clone, Copy, Debug, PartialEq, Eq, Structural)]
pub enum HandlerState {
    Listening,
    Signalled(ShutdownSignal),
    Stopped,
    Failed,
}

/// How far the application is.
pub enum Phase {
    /// Nothing has ended it.
    Running,
    /// How it ends is settled, and it waits for the signal handler.
    Stopping { result: Result<(), AppError> },
    /// It has ended, and whether it did before the grace period was over.
    Stopped { result: Result<(), AppError>, graceful: bool },
}

/// All that the application knows: whether it has cancelled the token, the
/// signal handler, and its phase.
pub struct Lifecycle {
    pub cancel_requested: bool,
    pub handler: HandlerState,
    pub phase: Phase,
}

/// The outcome that the end of the health server calls for.
pub open spec fn health_server_result(outcome: TaskOutcome) -> Result<(), AppError> {
    match outcome {
        TaskOutcome::Completed => Ok(()),
        TaskOutcome::Failed(e) => Err(AppError::HealthServerFailed(e)),
        TaskOutcome::Panicked(e) => Err(AppError::HealthServerPanicked(e)),
    }
}

/// The outcome that the end of the drainer service calls for.
pub open spec fn drainer_result(outcome: TaskOutcome) -> Result<(), AppError> {
    match outcome {
        TaskOutcome::Completed => Ok(()),
        TaskOutcome::Failed(e) => Err(AppError::DrainerFailed(e)),
        TaskOutcome::Panicked(e) => Err(AppError::DrainerPanicked(e)),
    }
}

impl Event {
    /// How the application ends, if this is what ends it.
    pub open spec fn verdict(self) -> Option<Result<(), AppError>> {
        match self {
            Event::HealthServer(outcome) => Some(health_server_result(outcome)),
            Event::Drainer(outcome) => Some(drainer_result(outcome)),
            Event::Cancelled => Some(Ok(())),
            _ => None,
        }
    }
}

impl HandlerState {
    /// The handler after an event: it ends once, and stays as it ended.
    pub open spec fn after(self, event: Event) -> HandlerState {
        if self != HandlerState::Listening {
            self
        } else {
            match event {
                Event::Signal(signal) => HandlerState::Signalled(signal),
                Event::HandlerStopped => HandlerState::Stopped,
                Event::HandlerFailed => HandlerState::Failed,
                _ => self,
            }
        }
    }
}

impl Lifecycle {
    /// All tasks run and nothing has been cancelled.
    pub open spec fn initial() -> Lifecycle {
        Lifecycle {
            cancel_requested: false,
            handler: HandlerState::Listening,
            phase: Phase::Running,
        }
    }

    /// How the application ends, once that is settled.
    pub open spec fn result(self) -> Option<Result<(), AppError>> {
        match self.phase {
            Phase::Running => None,
            Phase::Stopping { result } => Some(result),
            Phase::Stopped { result, .. } => Some(result),
        }
    }

    /// Once the end is settled the token is cancelled, and while the application
    /// still waits, the signal handler still listens.
    pub open spec fn wf(self) -> bool {
        &&& !(self.phase is Running) ==> self.cancel_requested
        &&& self.phase is Stopping ==> self.handler == HandlerState::Listening
        &&& self.handler is Signalled ==> self.cancel_requested
    }

    /// The application after an event.
    pub open spec fn after(self, event: Event) -> Lifecycle {
        let handler = self.handler.after(event);
        match self.phase {
            Phase::Running => match event.verdict() {
                Some(result) => Lifecycle {
                    cancel_requested: true,
                    handler,
                    phase: if handler == HandlerState::Listening {
                        Phase::Stopping { result }
                    } else {
                        Phase::Stopped { result, graceful: true }
                    },
                },
                None => Lifecycle {
                    cancel_requested: self.cancel_requested || handler is Signalled,
                    handler,
                    phase: Phase::Running,
                },
            },
            Phase::Stopping { result } => if handler != HandlerState::Listening {
                Lifecycle {
                    handler,
                    phase: Phase::Stopped { result, graceful: true },
                    ..self
                }
            } else if event is GraceElapsed {
                Lifecycle { phase: Phase::Stopped { result, graceful: false }, ..self }
            } else {
                self
            },
            Phase::Stopped { .. } => self,
        }
    }

    /// The application after a sequence of events.
    pub open spec fn after_all(self, events: Seq<Event>) -> Lifecycle
        decreases events.len(),
    {
        if events.len() == 0 {
            self
        } else {
            self.after_all(events.drop_last()).after(events.last())
        }
    }
}

/// The token of an application, and what was done with it.
enum TokenState {
    /// Its first handle, made for the application, which has not cancelled it.
    Fresh(FreshToken),
    /// It came from outside, and the application has not cancelled it.
    Given(GivenToken),
    /// The application has cancelled it.
    Cancelled(CancelledToken),
}

impl TokenState {
    spec fn token(self) -> CancellationToken {
        match self {
            TokenState::Fresh(fresh) => fresh.token(),
            TokenState::Given(given) => given.token(),
            TokenState::Cancelled(cancelled) => cancelled.token(),
        }
    }

    /// The same token, cancelled.
    fn cancel(self) -> (state: TokenState)
        ensures
            state is Cancelled,
            state.token() == self.token(),
    {
        match self {
            TokenState::Fresh(fresh) => TokenState::Cancelled(cancel(fresh.into_token())),
            TokenState::Given(given) => TokenState::Cancelled(cancel(given.into_token())),
            TokenState::Cancelled(cancelled) => TokenState::Cancelled(cancelled),
        }
    }
}

/// The handle by which an application holds its token, as what was done with it.
pub enum TokenHandle<'a> {
    /// The token was made for the application, which has not cancelled it.
    Fresh(&'a FreshToken),
    /// The token was given, and the application has not cancelled it.
    Given(&'a GivenToken),
    /// The application has cancelled the token.
    Cancelled(&'a CancelledToken),
}

impl TokenHandle<'_> {
    /// The token.
    pub open spec fn token(self) -> CancellationToken {
        match self {
            TokenHandle::Fresh(fresh) => fresh.token(),
            TokenHandle::Given(given) => given.token(),
            TokenHandle::Cancelled(cancelled) => cancelled.token(),
        }
    }
}

/// The running application and the token through which it stops its tasks.
pub struct Application {
    token: TokenState,
    handler: HandlerState,
    phase: Phase,
}

/// What the drainer service is started with.
pub struct DrainerStart<S, M> {
    pub state: S,
    pub stores: M,
}

/// Starts the application: from here on its tasks run until the token is
/// cancelled. The drainer service is started with the state and the stores given.
pub fn run_application<S, M>(state: S, stores: M, cancellation_token: CancellationToken) -> (started:
    (Application, DrainerStart<S, M>))
    ensures
        started.0.wf(),
        started.0.state() == Lifecycle::initial(),
        started.0.token() == cancellation_token,
        !started.0.has_fresh_token(),
        started.1.state == state,
        started.1.stores == stores,
{
    let app = Application {
        token: TokenState::Given(GivenToken::new(cancellation_token)),
        handler: HandlerState::Listening,
        phase: Phase::Running,
    };
    (app, DrainerStart { state, stores })
}

/// Starts the application under a token that was made for it.
pub(crate) fn run_under_fresh_token<S, M>(state: S, stores: M, fresh: FreshToken) -> (started: (
    Application,
    DrainerStart<S, M>,
))
    ensures
        started.0.wf(),
        started.0.state() == Lifecycle::initial(),
        started.0.token() == fresh.token(),
        started.0.has_fresh_token(),
        started.1.state == state,
        started.1.stores == stores,
{
    let app = Application {
        token: TokenState::Fresh(fresh),
        handler: HandlerState::Listening,
        phase: Phase::Running,
    };
    (app, DrainerStart { state, stores })
}

fn health_server_verdict(outcome: TaskOutcome) -> (result: Result<(), AppError>)
    ensures
        result == health_server_result(outcome),
{
    match outcome {
        TaskOutcome::Completed => Ok(()),
        TaskOutcome::Failed(e) => Err(AppError::HealthServerFailed(e)),
        TaskOutcome::Panicked(e) => Err(AppError::HealthServerPanicked(e)),
    }
}

fn drainer_verdict(outcome: TaskOutcome) -> (result: Result<(), AppError>)
    ensures
        result == drainer_result(outcome),
{
    match outcome {
        TaskOutcome::Completed => Ok(()),
        TaskOutcome::Failed(e) => Err(AppError::DrainerFailed(e)),
        TaskOutcome::Panicked(e) => Err(AppError::DrainerPanicked(e)),
    }
}

impl HandlerState {
    fn next(self, event: &Event) -> (state: HandlerState)
        ensures
            state == self.after(*event),
    {
        match self {
            HandlerState::Listening => match event {
                Event::Signal(signal) => HandlerState::Signalled(*signal),
                Event::HandlerStopped => HandlerState::Stopped,
                Event::HandlerFailed => HandlerState::Failed,
                _ => self,
            },
            _ => self,
        }
    }

    fn is_listening(&self) -> (listening: bool)
        ensures
            listening == (*self == HandlerState::Listening),
    {
        match self {
            HandlerState::Listening => true,
            _ => false,
        }
    }
}

impl Application {
    /// What the application knows. It has cancelled its token where it holds it as
    /// a cancelled one.
    pub closed spec fn state(self) -> Lifecycle {
        Lifecycle {
            cancel_requested: self.token is Cancelled,
            handler: self.handler,
            phase: self.phase,
        }
    }

    /// The token of the application.
    pub closed spec fn token(self) -> CancellationToken {
        self.token.token()
    }

    /// Whether the handle that the application holds is the one that its token was
    /// made with, and the application has not cancelled the token through it.
    pub closed spec fn has_fresh_token(self) -> bool {
        self.token is Fresh
    }

    /// What the application knows is consistent.
    pub open spec fn wf(self) -> bool {
        self.state().wf()
    }

    /// The token that every task of the application watches.
    pub fn cancellation_token(&self) -> (token: &CancellationToken)
        ensures
            *token == self.token(),
    {
        match &self.token {
            TokenState::Fresh(fresh) => fresh.as_token(),
            TokenState::Given(given) => given.as_token(),
            TokenState::Cancelled(cancelled) => cancelled.as_token(),
        }
    }

    /// The handle by which the application holds its token: a cancelled one exactly
    /// if the application has cancelled the token.
    pub fn token_handle(&self) -> (handle: TokenHandle<'_>)
        ensures
            handle.token() == self.token(),
            handle is Cancelled <==> self.state().cancel_requested,
            handle is Fresh <==> self.has_fresh_token(),
    {
        match &self.token {
            TokenState::Fresh(fresh) => TokenHandle::Fresh(fresh),
            TokenState::Given(given) => TokenHandle::Given(given),
            TokenState::Cancelled(cancelled) => TokenHandle::Cancelled(cancelled),
        }
    }

    /// How far the application is.
    pub fn phase(&self) -> (phase: &Phase)
        ensures
            *phase == self.state().phase,
    {
        &self.phase
    }

    /// The signal handler, as the application knows it.
    pub fn handler(&self) -> (handler: HandlerState)
        ensures
            handler == self.state().handler,
    {
        self.handler
    }

    /// Whether the application has cancelled its token.
    pub fn cancel_requested(&self) -> (requested: bool)
        ensures
            requested == self.state().cancel_requested,
    {
        match &self.token {
            TokenState::Cancelled(_) => true,
            _ => false,
        }
    }

    /// Settles how the application ends: all tasks are told to stop, and where
    /// the signal handler is done already, there is nothing to wait for.
    fn settle(self, handler: HandlerState, result: Result<(), AppError>) -> (app: Application)
        ensures
            app.token() == self.token(),
            app.state() == (Lifecycle {
                cancel_requested: true,
                handler,
                phase: if handler == HandlerState::Listening {
                    Phase::Stopping { result }
                } else {
                    Phase::Stopped { result, graceful: true }
                },
            }),
    {
        let token = self.token.cancel();
        let phase = if handler.is_listening() {
            Phase::Stopping { result }
        } else {
            Phase::Stopped { result, graceful: true }
        };
        Application { token, handler, phase }
    }

    /// The application after an event. The token is cancelled where a signal
    /// arrives, and where the end of the application is settled; otherwise the
    /// application keeps its handle to it as it was.
    pub fn step(self, event: Event) -> (app: Application)
        requires
            self.wf(),
        ensures
            app.wf(),
            app.state() == self.state().after(event),
            app.token() == self.token(),
            app.has_fresh_token() == (self.has_fresh_token() && !app.state().cancel_requested),
    {
        let handler = self.handler.next(&event);
        match self.phase {
            Phase::Running => match event {
                Event::HealthServer(outcome) => self.settle(
                    handler,
                    health_server_verdict(outcome),
                ),
                Event::Drainer(outcome) => self.settle(handler, drainer_verdict(outcome)),
                Event::Cancelled => self.settle(handler, Ok(())),
                Event::Signal(_) => {
                    let token = if self.handler.is_listening() {
                        self.token.cancel()
                    } else {
                        self.token
                    };
                    Application { token, handler, phase: Phase::Running }
                },
                _ => Application { token: self.token, handler, phase: Phase::Running },
            },
            Phase::Stopping { result } => {
                let phase = match event {
                    Event::Signal(_) => Phase::Stopped { result, graceful: true },
                    Event::HandlerStopped => Phase::Stopped { result, graceful: true },
                    Event::HandlerFailed => Phase::Stopped { result, graceful: true },
                    Event::GraceElapsed => Phase::Stopped { result, graceful: false },
                    _ => Phase::Stopping { result },
                };
                Application { token: self.token, handler, phase }
            },
            Phase::Stopped { result, graceful } => Application {
                token: self.token,
                handler: self.handler,
                phase: Phase::Stopped { result, graceful },
            },
        }
    }

    /// The application after all that is known at one moment, each thing taken in
    /// the order in which it counts.
    pub fn observe(self, ready: Ready) -> (app: Application)
        requires
            self.wf(),
        ensures
            app.wf(),
            app.state() == self.state().after_all(ready.events()),
            app.token() == self.token(),
            app.has_fresh_token() == (self.has_fresh_token() && !app.state().cancel_requested),
    {
        let ghost before = self.state();
        let ghost token = self.token();
        let ghost fresh = self.has_fresh_token();
        let mut left: Vec<Event> = ready.into_events();
        let ghost events = left@;
        let mut app = self;
        let ghost mut done: int = 0;
        proof {
            assert(events.take(0) =~= Seq::<Event>::empty());
        }
        while left.len() > 0
            invariant
                0 <= done <= events.len(),
                left@ == events.skip(done),
                app.wf(),
                app.state() == before.after_all(events.take(done)),
                app.token() == token,
                app.has_fresh_token() == (fresh && !app.state().cancel_requested),
            decreases left@.len(),
        {
            let event = left.remove(0);
            app = app.step(event);
            proof {
                assert(events.take(done + 1).drop_last() =~= events.take(done));
                assert(events.take(done + 1).last() == event);
                done = done + 1;
                assert(left@ =~= events.skip(done));
            }
        }
        assert(events.take(done) =~= events);
        app
    }

    /// How the application ended, and whether it did so before the grace period
    /// was over. Nothing, while it has not ended. An application that has ended
    /// has cancelled its token.
    pub fn finish(self) -> (end: Option<(Result<(), AppError>, bool)>)
        requires
            self.wf(),
        ensures
            end is Some ==> self.state().cancel_requested,
            end == (match self.state().phase {
                Phase::Stopped { result, graceful } => Some((result, graceful)),
                _ => None,
            }),
    {
        match self.phase {
            Phase::Stopped { result, graceful } => Some((result, graceful)),
            _ => None,
        }
    }
}

/// The first event that calls for an end settles how the application ends, and
/// until one comes it keeps running.
pub proof fn law_first_verdict_decides(l: Lifecycle, events: Seq<Event>, k: int)
    requires
        l.phase is Running,
        0 <= k <= events.len(),
        forall|i: int| 0 <= i < k ==> (#[trigger] events[i]).verdict() is None,
        k < events.len() ==> events[k].verdict() is Some,
    ensures
        k < events.len() ==> l.after_all(events).result() == events[k].verdict(),
        k == events.len() ==> l.after_all(events).phase is Running,
    decreases events.len(),
{
    if events.len() > 0 {
        let earlier = events.drop_last();
        if k < events.len() {
            law_first_verdict_decides(l, earlier, k);
        } else {
            law_first_verdict_decides(l, earlier, k - 1);
        }
    }
}

/// How the application ends is settled once: nothing that happens afterwards
/// changes it.
pub proof fn law_result_is_final(l: Lifecycle, events: Seq<Event>)
    requires
        !(l.phase is Running),
    ensures
        l.after_all(events).result() == l.result(),
        l.phase is Stopped ==> l.after_all(events) == l,
    decreases events.len(),
{
    if events.len() > 0 {
        law_result_is_final(l, events.drop_last());
    }
}

/// In every state that the application comes to, its token is cancelled once its
/// end is settled, and once a signal has arrived; and it never ceases to be.
pub proof fn law_shutdown_cancels_the_tasks(l: Lifecycle, events: Seq<Event>)
    requires
        l.wf(),
    ensures
        l.after_all(events).wf(),
        l.after_all(events).result() is Some ==> l.after_all(events).cancel_requested,
        l.after_all(events).handler is Signalled ==> l.after_all(events).cancel_requested,
        l.cancel_requested ==> l.after_all(events).cancel_requested,
    decreases events.len(),
{
    if events.len() > 0 {
        law_shutdown_cancels_the_tasks(l, events.drop_last());
    }
}

/// The application cancels nothing of its own accord: without a signal and
/// without an event that calls for an end, it does not cancel its token.
pub proof fn law_no_cause_no_cancellation(l: Lifecycle, events: Seq<Event>)
    requires
        l.phase is Running,
        !l.cancel_requested,
        l.handler !is Signalled,
        forall|i: int|
            0 <= i < events.len() ==> (#[trigger] events[i]).verdict() is None && !(
            events[i] is Signal),
    ensures
        !l.after_all(events).cancel_requested,
        l.after_all(events).handler !is Signalled,
        l.after_all(events).phase is Running,
    decreases events.len(),
{
    if events.len() > 0 {
        let earlier = events.drop_last();
        assert forall|i: int| 0 <= i < earlier.len() implies (#[trigger] earlier[i]).verdict()
            is None && !(earlier[i] is Signal) by {
            assert(earlier[i] == events[i]);
        }
        law_no_cause_no_cancellation(l, earlier);
        assert(events.last() == events[events.len() - 1]);
    }
}

/// A failing health server shuts the application down: the token is cancelled,
/// and it ends with an error whose message says that the health server failed and
/// why, whatever comes later.
pub proof fn law_health_server_failure_triggers_shutdown(
    l: Lifecycle,
    cause: String,
    later: Seq<Event>,
)
    requires
        l.phase is Running,
    ensures
        ({
            let failed = l.after(Event::HealthServer(TaskOutcome::Failed(cause)));
            let end = failed.after_all(later);
            &&& failed.cancel_requested
            &&& end.cancel_requested
            &&& end.result() == Some(Err::<(), AppError>(AppError::HealthServerFailed(cause)))
            &&& end.result()->0->Err_0.message_text() == "Health server failed: "@ + cause@
        }),
{
    let failed = l.after(Event::HealthServer(TaskOutcome::Failed(cause)));
    law_result_is_final(failed, later);
    lemma_cancelled_stays_cancelled(failed, later);
}

/// A failing drainer service shuts the application down: the token is cancelled,
/// and it ends with an error whose report says that the drainer service failed
/// and why, whatever comes later.
pub proof fn law_drainer_failure_triggers_shutdown(
    l: Lifecycle,
    cause: String,
    later: Seq<Event>,
)
    requires
        l.phase is Running,
    ensures
        ({
            let failed = l.after(Event::Drainer(TaskOutcome::Failed(cause)));
            let end = failed.after_all(later);
            &&& failed.cancel_requested
            &&& end.cancel_requested
            &&& end.result() == Some(Err::<(), AppError>(AppError::DrainerFailed(cause)))
            &&& end.result()->0->Err_0.message_text() == "Drainer service failed"@
            &&& end.result()->0->Err_0.report_text() == "Drainer service failed"@ + ": "@ + cause@
        }),
{
    let failed = l.after(Event::Drainer(TaskOutcome::Failed(cause)));
    law_result_is_final(failed, later);
    lemma_cancelled_stays_cancelled(failed, later);
}

proof fn lemma_cancelled_stays_cancelled(l: Lifecycle, events: Seq<Event>)
    requires
        l.cancel_requested,
    ensures
        l.after_all(events).cancel_requested,
    decreases events.len(),
{
    if events.len() > 0 {
        lemma_cancelled_stays_cancelled(l, events.drop_last());
    }
}

/// A failure is not lost: where a service is known to have failed, the
/// application fails, whatever else is known at that moment: also where the token
/// is seen cancelled, and where the other service ended well.
pub proof fn law_known_failure_fails_the_application(l: Lifecycle, ready: Ready)
    requires
        l.phase is Running,
        (ready.health_server is Some && ready.health_server->0.failed()) || (ready.drainer is Some
            && ready.drainer->0.failed()),
    ensures
        l.after_all(ready.events()).result() is Some,
        l.after_all(ready.events()).result()->0 is Err,
        ready.health_server is Some && ready.health_server->0.failed() ==> l.after_all(
            ready.events(),
        ).result() == Some(health_server_result(ready.health_server->0)),
        !(ready.health_server is Some && ready.health_server->0.failed()) ==> l.after_all(
            ready.events(),
        ).result() == Some(drainer_result(ready.drainer->0)),
{
    let events = ready.events();
    let services = ready.service_events();
    assert(services.len() > 0);
    assert(events[0] == services[0]);
    law_first_verdict_decides(l, events, 0);
}

/// A cancellation that is seen ends a running application well where no service
/// is known to have ended.
pub proof fn law_seen_cancellation_ends_it_well(l: Lifecycle, ready: Ready)
    requires
        l.phase is Running,
        ready.health_server is None,
        ready.drainer is None,
        ready.cancelled,
    ensures
        l.after_all(ready.events()).result() == Some(Ok::<(), AppError>(())),
        l.after_all(ready.events()).cancel_requested,
{
    let events = ready.events();
    let k: int = if ready.handler is Some {
        1
    } else {
        0
    };
    assert(events[k] == Event::Cancelled);
    law_first_verdict_decides(l, events, k);
    lemma_settled_means_cancelled(l, events);
}

proof fn lemma_settled_means_cancelled(l: Lifecycle, events: Seq<Event>)
    requires
        l.result() is Some ==> l.cancel_requested,
    ensures
        l.after_all(events).result() is Some ==> l.after_all(events).cancel_requested,
    decreases events.len(),
{
    if events.len() > 0 {
        lemma_settled_means_cancelled(l, events.drop_last());
    }
}

/// The signal handler comes before the clock: a shutdown in which both are known
/// to have ended is graceful.
pub proof fn law_handler_comes_before_the_clock(l: Lifecycle, ready: Ready)
    requires
        l.wf(),
        l.phase is Stopping,
        ready.health_server is None,
        ready.drainer is None,
        ready.handler is Some,
    ensures
        l.after_all(ready.events()).phase == (Phase::Stopped {
            result: l.phase->Stopping_result,
            graceful: true,
        }),
{
    let events = ready.events();
    let first = events.take(1);
    assert(events[0] == handler_event(ready.handler->0));
    assert(first.drop_last() =~= Seq::<Event>::empty());
    assert(l.after_all(Seq::<Event>::empty()) == l);
    let stopped = l.after(events[0]);
    assert(l.after_all(first) == stopped);
    lemma_stopped_stays(l, events, 1);
}

proof fn lemma_stopped_stays(l: Lifecycle, events: Seq<Event>, k: int)
    requires
        0 <= k <= events.len(),
        l.after_all(events.take(k)).phase is Stopped,
    ensures
        l.after_all(events) == l.after_all(events.take(k)),
    decreases events.len(),
{
    if k == events.len() {
        assert(events.take(k) =~= events);
    } else {
        assert(events.drop_last().take(k) =~= events.take(k));
        lemma_stopped_stays(l, events.drop_last(), k);
    }
}

/// A cancellation without a signal ends the application well, and as soon as the
/// signal handler, which watches the same token, has stopped: no grace period has
/// to pass.
pub proof fn law_cancellation_is_graceful(l: Lifecycle)
    requires
        l.wf(),
        l.phase is Running,
    ensures
        l.after(Event::Cancelled).cancel_requested,
        l.after(Event::Cancelled).after(handler_report(HandlerWake::TokenCancelled)).phase == (
        Phase::Stopped { result: Ok(()), graceful: true }),
{
}

/// A signal cancels the token, and the cancellation then ends the application
/// well and at once: the signal handler is done already.
pub proof fn law_signal_is_graceful(l: Lifecycle, signal: ShutdownSignal)
    requires
        l.wf(),
        l.phase is Running,
        l.handler == HandlerState::Listening,
    ensures
        l.after(Event::Signal(signal)).cancel_requested,
        l.after(Event::Signal(signal)).phase is Running,
        l.after(Event::Signal(signal)).after(Event::Cancelled).phase == (Phase::Stopped {
            result: Ok(()),
            graceful: true,
        }),
{
}

/// A shutdown ends: any end of the signal handler ends it, and at the latest the
/// end of the grace period does. Its result is the one that was settled before.
pub proof fn law_shutdown_ends(l: Lifecycle, event: Event)
    requires
        l.wf(),
        l.phase is Stopping,
        event is Signal || event is HandlerStopped || event is HandlerFailed
            || event is GraceElapsed,
    ensures
        l.after(event).phase == (Phase::Stopped {
            result: l.phase->Stopping_result,
            graceful: !(event is GraceElapsed),
        }),
{
}

/// A shutdown does not wait for the services: once it has begun, what becomes of
/// them changes nothing.
pub proof fn law_shutdown_ignores_the_services(l: Lifecycle, outcome: TaskOutcome)
    requires
        l.wf(),
        !(l.phase is Running),
    ensures
        l.after(Event::HealthServer(outcome)) == l,
        l.after(Event::Drainer(outcome)) == l,
        l.after(Event::Cancelled) == l,
{
}

/// A shutdown that was not graceful outlasted the grace period.
pub proof fn law_ungraceful_means_timeout(events: Seq<Event>)
    ensures
        (Lifecycle::initial().after_all(events).phase matches Phase::Stopped { graceful, .. }
            && !graceful) ==> events.contains(Event::GraceElapsed),
    decreases events.len(),
{
    if events.len() > 0 {
        let earlier = events.drop_last();
        law_ungraceful_means_timeout(earlier);
        if earlier.contains(Event::GraceElapsed) {
            let k = earlier.index_of(Event::GraceElapsed);
            assert(events[k] == Event::GraceElapsed);
        }
        assert(events[events.len() - 1] == events.last());
    }
}

} // verus!
