//! The application and the stages before it, event by event.

use drainer::application::{
    run_application, shutdown_grace_period, wait_for_shutdown_signal, Application, Event,
    HandlerEnd, HandlerState, HandlerWake, Phase, Ready, ShutdownSignal, TaskOutcome,
};
use drainer::bootstrap::{bootstrap_and_run, start_application, Stage, StageReport};
use drainer::delay::Delay;
use drainer::errors::{exit_for, AppError, InitError};
use tokio_util::sync::CancellationToken;

fn application() -> (Application, CancellationToken) {
    let token = CancellationToken::new();
    (run_application((), (), token.clone()).0, token)
}

fn end_of(event: Event) -> (Result<(), AppError>, bool) {
    let (app, token) = application();
    let app = app.step(event);
    assert!(app.cancel_requested());
    assert!(token.is_cancelled());
    assert!(matches!(app.phase(), Phase::Stopping { .. }));
    app.step(Event::HandlerStopped).finish().unwrap()
}

#[test]
fn services_that_complete_end_the_application_well() {
    for event in [
        Event::HealthServer(TaskOutcome::Completed),
        Event::Drainer(TaskOutcome::Completed),
        Event::Cancelled,
    ] {
        let (result, graceful) = end_of(event);
        assert!(result.is_ok());
        assert!(graceful);
    }
}

#[test]
fn failures_of_services_are_reported() {
    let e = |text: &str| text.to_string();
    let cases = [
        (
            Event::HealthServer(TaskOutcome::Failed(e("port in use"))),
            "Health server failed: port in use",
            "Health server failed: port in use",
        ),
        (
            Event::HealthServer(TaskOutcome::Panicked(e("boom"))),
            "Health server task panicked: boom",
            "Health server task panicked: boom",
        ),
        (
            Event::Drainer(TaskOutcome::Failed(e("redis: gone"))),
            "Drainer service failed",
            "Drainer service failed: redis: gone",
        ),
        (
            Event::Drainer(TaskOutcome::Panicked(e("boom"))),
            "Drainer service task panicked: boom",
            "Drainer service task panicked: boom",
        ),
    ];
    for (event, message, report) in cases {
        let (result, graceful) = end_of(event);
        let error = result.err().unwrap();
        assert_eq!(error.message(), message);
        assert_eq!(error.report(), report);
        assert!(graceful);
    }
}

#[test]
fn nothing_cancels_without_a_cause() {
    let (app, token) = application();
    let other = CancellationToken::new();
    let app = app.step(Event::HandlerStopped).step(Event::GraceElapsed).step(Event::HandlerFailed);
    assert!(matches!(app.phase(), Phase::Running));
    assert!(!app.cancel_requested());
    assert!(!token.is_cancelled());
    // The token that is cancelled in the end is the one that was given.
    assert!(*app.cancellation_token() == token);
    let app = app.step(Event::Drainer(TaskOutcome::Failed("boom".to_string())));
    assert!(token.is_cancelled());
    assert!(*app.cancellation_token() == token);
    assert!(!other.is_cancelled());
    let error = app.finish().unwrap().0.err().unwrap();
    assert_eq!(error.message(), "Drainer service failed");
    assert_eq!(error.report(), "Drainer service failed: boom");
}

#[test]
fn each_application_has_its_own_token() {
    let due = || Stage::<u8, u8, u8>::RunApplication { state: 1, stores: 2 };
    let (one, _) = start_application(due()).1.unwrap();
    let (two, _) = start_application(due()).1.unwrap();
    assert!(*one.cancellation_token() != *two.cancellation_token());
    let one = one.step(Event::Cancelled);
    assert!(one.cancellation_token().is_cancelled());
    assert!(!two.cancellation_token().is_cancelled());
}

#[test]
fn the_first_verdict_stands() {
    let (app, _) = application();
    let app = app.step(Event::HandlerFailed);
    assert_eq!(app.handler(), HandlerState::Failed);
    assert!(!app.cancel_requested());
    let app = app.step(Event::Drainer(TaskOutcome::Failed("first".to_string())));
    // The signal handler is done, so there is nothing to wait for.
    let app = app.step(Event::HealthServer(TaskOutcome::Failed("second".to_string())));
    let (result, graceful) = app.step(Event::GraceElapsed).finish().unwrap();
    assert_eq!(result.err().unwrap().report(), "Drainer service failed: first");
    assert!(graceful);
}

#[test]
fn a_signal_cancels_and_then_ends_at_once() {
    for (wake, signal, notice) in [
        (HandlerWake::CtrlC, ShutdownSignal::Interrupt, "Received SIGINT (Ctrl+C)"),
        (HandlerWake::Terminate, ShutdownSignal::Terminate, "Received SIGTERM"),
    ] {
        let (app, token) = application();
        assert!(!token.is_cancelled());
        assert_eq!(wake.signal(), Some(signal));
        let app = app.step(wait_for_shutdown_signal(wake));
        assert_eq!(app.handler(), HandlerState::Signalled(signal));
        assert_eq!(signal.notice(), notice);
        assert!(token.is_cancelled());
        assert!(matches!(app.phase(), Phase::Running));
        let (result, graceful) = app.step(Event::Cancelled).finish().unwrap();
        assert!(result.is_ok());
        assert!(graceful);
    }
}

#[test]
fn the_grace_period_ends_a_shutdown() {
    assert_eq!(shutdown_grace_period(), Delay::from_secs(30));
    let (app, token) = application();
    let app = app.step(Event::GraceElapsed);
    assert!(matches!(app.phase(), Phase::Running));
    assert!(!token.is_cancelled());
    let app = app.step(Event::Cancelled).step(Event::Cancelled);
    assert!(matches!(app.phase(), Phase::Stopping { .. }));
    let (result, graceful) = app.step(Event::GraceElapsed).finish().unwrap();
    assert!(result.is_ok());
    assert!(!graceful);
}

#[test]
fn a_signal_during_the_shutdown_ends_it() {
    let (app, _) = application();
    let app = app.step(Event::HealthServer(TaskOutcome::Completed));
    let app = app.step(Event::Signal(ShutdownSignal::Terminate));
    assert_eq!(app.handler(), HandlerState::Signalled(ShutdownSignal::Terminate));
    let (result, graceful) = app.finish().unwrap();
    assert!(result.is_ok());
    assert!(graceful);
}

type TestReport = StageReport<&'static str, u8, Vec<u8>>;
type TestStage = Stage<&'static str, u8, Vec<u8>>;

fn successes() -> Vec<TestReport> {
    vec![
        StageReport::SettingsLoaded(Ok("conf")),
        StageReport::SettingsValidated(Ok(())),
        StageReport::LoggingSetUp(Ok(())),
        StageReport::StartupInfoLogged,
        StageReport::StateCreated(Ok(7)),
        StageReport::StoresInitialized(Ok(vec![1, 2])),
    ]
}

#[test]
fn the_application_runs_after_all_stages() {
    let mut stage: TestStage = Stage::LoadSettings;
    for report in successes() {
        let (same, started) = start_application(stage);
        assert!(started.is_none());
        stage = bootstrap_and_run(same, report);
        match &stage {
            Stage::ValidateSettings { conf }
            | Stage::SetupLogging { conf }
            | Stage::LogStartupInfo { conf }
            | Stage::CreateState { conf } => assert_eq!(*conf, "conf"),
            Stage::InitializeStores { conf, state } => {
                assert_eq!(*conf, "conf");
                assert_eq!(*state, 7);
            }
            _ => {}
        }
    }
    assert!(matches!(stage, Stage::RunApplication { .. }));
    let (stage, started) = start_application(stage);
    assert!(matches!(stage, Stage::ApplicationRunning));
    let (app, drainer) = started.unwrap();
    assert_eq!(drainer.state, 7);
    assert_eq!(drainer.stores, vec![1, 2]);
    assert!(matches!(app.phase(), Phase::Running));
    assert!(!app.cancellation_token().is_cancelled());

    // It is started once.
    let (stage, started) = start_application(stage);
    assert!(started.is_none());

    let stage = bootstrap_and_run(stage, StageReport::ApplicationEnded(Ok(())));
    assert!(matches!(stage, Stage::Finished(Ok(()))));
}

#[test]
fn a_report_on_another_stage_changes_nothing() {
    let stage: TestStage = Stage::LoadSettings;
    let stage = bootstrap_and_run(stage, StageReport::LoggingSetUp(Ok(())));
    assert!(matches!(stage, Stage::LoadSettings));
    let stage = bootstrap_and_run(stage, StageReport::StateCreated(Err("no".to_string())));
    assert!(matches!(stage, Stage::LoadSettings));
}

fn ready(health_server: Option<TaskOutcome>, drainer: Option<TaskOutcome>) -> Ready {
    Ready { health_server, drainer, handler: None, cancelled: true, grace_elapsed: true }
}

fn failed(text: &str) -> Option<TaskOutcome> {
    Some(TaskOutcome::Failed(text.to_string()))
}

#[test]
fn a_known_failure_is_not_lost() {
    let cases = vec![
        (ready(failed("a"), None), "Health server failed: a"),
        (ready(failed("a"), Some(TaskOutcome::Completed)), "Health server failed: a"),
        (ready(failed("a"), failed("b")), "Health server failed: a"),
        (ready(None, failed("b")), "Drainer service failed: b"),
        (ready(Some(TaskOutcome::Completed), failed("b")), "Drainer service failed: b"),
    ];
    for (known, report) in cases {
        let (app, token) = application();
        let app = app.observe(known);
        assert!(token.is_cancelled());
        let (result, graceful) = app.finish().unwrap();
        assert_eq!(result.err().unwrap().report(), report);
        assert!(!graceful);
    }
    let (app, _) = application();
    assert!(app.observe(ready(None, None)).finish().unwrap().0.is_ok());
}

#[test]
fn events_come_in_the_order_in_which_they_count() {
    assert!(Ready::nothing().is_nothing());
    assert!(Ready::nothing().into_events().is_empty());
    let mut known = ready(Some(TaskOutcome::Completed), failed("b"));
    known.handler = Some(HandlerEnd::Woken(HandlerWake::Terminate));
    assert!(!known.is_nothing());
    let events = known.into_events();
    assert_eq!(events.len(), 5);
    assert!(matches!(events[0], Event::Drainer(TaskOutcome::Failed(_))));
    assert!(matches!(events[1], Event::HealthServer(TaskOutcome::Completed)));
    assert!(matches!(events[2], Event::Signal(ShutdownSignal::Terminate)));
    assert!(matches!(events[3], Event::Cancelled));
    assert!(matches!(events[4], Event::GraceElapsed));
    let mut known = Ready::nothing();
    known.handler = Some(HandlerEnd::Failed);
    assert!(matches!(known.into_events()[0], Event::HandlerFailed));
}

#[test]
fn the_handler_comes_before_the_clock() {
    let (app, _) = application();
    let app = app.step(Event::Cancelled);
    let mut known = Ready::nothing();
    known.handler = Some(HandlerEnd::Woken(HandlerWake::TokenCancelled));
    known.grace_elapsed = true;
    let (result, graceful) = app.observe(known).finish().unwrap();
    assert!(result.is_ok());
    assert!(graceful);
}

#[test]
fn each_stage_fails_with_its_own_error() {
    let e = || Err("why".to_string());
    let failures: Vec<(TestReport, &str)> = vec![
        (StageReport::SettingsLoaded(Err("why".to_string())), "Unable to construct application configuration: why"),
        (StageReport::SettingsValidated(e()), "Failed to validate drainer configuration: why"),
        (StageReport::LoggingSetUp(e()), "Failed to setup logging: why"),
        (StageReport::StartupInfoLogged, ""),
        (StageReport::StateCreated(Err("why".to_string())), "Failed to create application state: why"),
        (
            StageReport::StoresInitialized(Err(InitError::PermitDenied)),
            "Failed to initialize tenant stores: Failed to initialize one or more tenant stores: \
             Failed to acquire semaphore permit",
        ),
        (
            StageReport::ApplicationEnded(Err(AppError::DrainerFailed("why".to_string()))),
            "Drainer service failed: why",
        ),
    ];
    for (n, (failure, text)) in failures.into_iter().enumerate() {
        let mut stage: TestStage = Stage::LoadSettings;
        for report in successes().into_iter().take(n) {
            stage = bootstrap_and_run(stage, report);
        }
        stage = start_application(stage).0;
        stage = bootstrap_and_run(stage, failure);
        if text.is_empty() {
            assert!(matches!(stage, Stage::CreateState { .. }));
            continue;
        }
        // Nothing goes on after the failure.
        for report in successes() {
            stage = bootstrap_and_run(stage, report);
        }
        match stage {
            Stage::Finished(result) => {
                let exit = exit_for(&result);
                assert_eq!(exit.code, 1);
                assert_eq!(exit.line.unwrap(), format!("Application failed: {}", text));
                assert!(text.starts_with(&result.err().unwrap().message()));
            }
            _ => panic!("the failure should end it"),
        }
    }
}

#[test]
fn a_good_end_leaves_no_line() {
    let exit = exit_for(&Ok(()));
    assert_eq!(exit.code, 0);
    assert!(exit.line.is_none());
}
