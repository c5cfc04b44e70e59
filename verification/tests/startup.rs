//! The startup and shutdown logic, driven as the program drives it.

use std::sync::Arc;
use std::time::{Duration, Instant};

use drainer::application::{
    run_application, wait_for_shutdown_signal, Application, Event, HandlerWake, Phase, Ready,
    TaskOutcome,
};
use drainer::errors::InitError;
use drainer::settings::Settings;
use drainer::store_init::{initialize_stores_parallel, StoreInit, StoreOutcome};
use drainer::test_support::{
    mock_start_drainer, mock_start_web_server, CreationBehavior, MockService, MockState, MockStore,
    SettingsTestExt,
};
use futures::future::{select, Either};
use futures::stream::{FuturesUnordered, StreamExt};
use tokio::sync::oneshot;
use tokio_util::sync::CancellationToken;
use vstd::hash_map::StringHashMap;

fn runtime() -> tokio::runtime::Runtime {
    tokio::runtime::Builder::new_current_thread().enable_all().build().unwrap()
}

fn create_test_config() -> Settings {
    Settings::default_for_testing()
}

fn as_duration(delay: drainer::delay::Delay) -> Duration {
    Duration::new(delay.as_secs(), delay.subsec_nanos())
}

/// Creates the stores of all tenants as mocks, concurrently.
async fn initialize_stores(
    state: &MockState<u8, u8>,
    conf: &Settings,
) -> Result<StringHashMap<Arc<MockStore>>, InitError> {
    let mut init: StoreInit<Arc<MockStore>> = initialize_stores_parallel(conf);
    let mut in_flight = FuturesUnordered::new();
    while !init.is_finished() {
        while let Some(tenant) = init.start_next() {
            in_flight.push(async move {
                let name = &conf.get_tenants()[tenant];
                let creation = MockStore::create_mock(&state.store, conf, name);
                if let Some(delay) = creation.sleep {
                    tokio::time::sleep(as_duration(delay)).await;
                }
                match creation.outcome {
                    Ok(store) => (tenant, StoreOutcome::Created(Arc::new(store))),
                    Err(e) => (tenant, StoreOutcome::CreationFailed(e.message())),
                }
            });
        }
        let (tenant, outcome) = in_flight.next().await.unwrap();
        init.complete(tenant, outcome);
    }
    init.finish().unwrap()
}

/// How a service task ended.
fn outcome(result: Result<Result<(), String>, tokio::task::JoinError>) -> TaskOutcome {
    match result {
        Ok(Ok(())) => TaskOutcome::Completed,
        Ok(Err(e)) => TaskOutcome::Failed(e),
        Err(e) => TaskOutcome::Panicked(e.to_string()),
    }
}

/// Lets the application stop, as its signal handler stops on its token.
async fn stop(app: Application) -> Application {
    let token = app.cancellation_token().clone();
    token.cancelled().await;
    app.step(wait_for_shutdown_signal(HandlerWake::TokenCancelled))
}

#[test]
fn test_startup_success_uses_mock_store() {
    runtime().block_on(async {
        let mut stores = std::collections::HashMap::new();
        let mock_store = Arc::new(MockStore::new_success());
        stores.insert("test_tenant".to_string(), mock_store.clone());

        let cancellation_token = CancellationToken::new();
        let cancel_handle = cancellation_token.clone();

        let (health_tx, health_rx) = oneshot::channel::<()>();
        let (drainer_tx, drainer_rx) = oneshot::channel::<()>();

        let (app, drainer) = run_application((), stores, cancellation_token);

        // Mock services that complete when told to; the drainer gets the stores.
        let health_server = tokio::spawn(async move {
            let _ = health_rx.await;
        });
        let drainer_service = tokio::spawn(async move {
            let _ = drainer_rx.await;
            drainer.stores
        });

        let app_handle = tokio::spawn(async move {
            let token = app.cancellation_token().clone();
            token.cancelled().await;
            let app = app.step(Event::Cancelled);
            health_server.await.unwrap();
            let app = app.step(Event::HealthServer(TaskOutcome::Completed));
            let stores = drainer_service.await.unwrap();
            assert!(stores["test_tenant"].was_created());
            let app = app.step(Event::Drainer(TaskOutcome::Completed));
            stop(app).await.finish()
        });

        tokio::time::sleep(Duration::from_millis(100)).await;
        cancel_handle.cancel();
        let _ = health_tx.send(());
        let _ = drainer_tx.send(());

        let (result, graceful) =
            app_handle.await.expect("App task should not panic").expect("App should have ended");
        assert!(result.is_ok(), "Application should start and shutdown successfully");
        assert!(graceful);
        assert!(mock_store.was_created(), "Mock store should have been created");
    });
}

#[test]
fn test_health_server_failure_triggers_shutdown() {
    runtime().block_on(async {
        let stores: StringHashMap<Arc<MockStore>> = StringHashMap::new();
        let cancellation_token = CancellationToken::new();
        let watcher = cancellation_token.clone();

        let (drainer_tx, drainer_rx) = oneshot::channel::<()>();

        let (app, drainer) = run_application((), stores, cancellation_token);

        // Mock failing health server
        let health_server = tokio::spawn(async {
            tokio::time::sleep(Duration::from_millis(50)).await;
            Err::<(), String>("Health server failed".to_string())
        });

        // Mock drainer that waits for signal
        let drainer_service = tokio::spawn(async move {
            let _ = drainer_rx.await;
            drop(drainer);
            Ok::<(), String>(())
        });

        let app_handle = tokio::spawn(async move {
            let mut ready = Ready::nothing();
            match select(health_server, drainer_service).await {
                Either::Left((result, _)) => ready.health_server = Some(outcome(result)),
                Either::Right((result, _)) => ready.drainer = Some(outcome(result)),
            }
            let token = app.cancellation_token().clone();
            ready.cancelled = token.is_cancelled();
            stop(app.observe(ready)).await.finish()
        });

        let (result, _) = app_handle.await.expect("App task should not panic").unwrap();

        let _ = drainer_tx.send(());

        assert!(result.is_err(), "Application should fail when health server fails");
        assert!(
            result.unwrap_err().message().contains("Health server failed"),
            "Error should indicate health server failure"
        );
        assert!(watcher.is_cancelled());
    });
}

#[test]
fn test_ctrl_c_graceful_shutdown() {
    runtime().block_on(async {
        let cancellation_token = CancellationToken::new();
        let shutdown_signal = cancellation_token.clone();

        // No mocks: both services wait for the cancellation.
        let state: MockState<u8, u8> = MockState::new();
        assert!(matches!(
            mock_start_web_server(&state.server),
            MockService::WaitForCancellation
        ));
        assert!(matches!(mock_start_drainer(&state.server), MockService::WaitForCancellation));

        let (app, _) = run_application((), (), cancellation_token);
        let app_handle = tokio::spawn(async move {
            let token = app.cancellation_token().clone();
            token.cancelled().await;
            stop(app.step(Event::Cancelled)).await.finish()
        });

        tokio::time::sleep(Duration::from_millis(100)).await;
        shutdown_signal.cancel();

        let result = tokio::time::timeout(Duration::from_secs(5), app_handle)
            .await
            .expect("App should shutdown within timeout");
        let (app_result, graceful) = result.expect("App task should not panic").unwrap();
        assert!(
            app_result.is_ok(),
            "Application should shutdown gracefully on cancellation signal"
        );
        assert!(graceful);
    });
}

#[test]
fn test_concurrent_store_initialization() {
    runtime().block_on(async {
        let conf = create_test_config();
        let mut state: MockState<u8, u8> = MockState::new();

        let tenant_count = 5;
        MockStore::set_creation_delay(&mut state.store, drainer::delay::Delay::from_millis(100));

        let start_time = Instant::now();
        let stores = initialize_stores(&state, &conf).await;
        let elapsed = start_time.elapsed();

        assert!(stores.is_ok(), "Store initialization should succeed");
        let stores = stores.ok().unwrap();
        assert_eq!(stores.len(), tenant_count, "Should initialize all tenant stores");
        for name in conf.get_tenants() {
            assert!(stores.get(name).unwrap().was_created());
        }

        assert!(
            elapsed < Duration::from_millis(300),
            "Parallel initialization should be faster than sequential. Took: {:?}",
            elapsed
        );
        assert!(elapsed >= Duration::from_millis(100));
    });
}

#[test]
fn test_store_initialization_failure_handling() {
    runtime().block_on(async {
        let conf = create_test_config();
        let mut state: MockState<u8, u8> = MockState::new();
        MockStore::set_creation_behavior(&mut state.store, CreationBehavior::Fail);

        let result = initialize_stores(&state, &conf).await;

        assert!(result.is_err(), "Store initialization should fail when store creation fails");
        let error = result.err().unwrap();
        assert!(
            error.message().contains("Failed to initialize"),
            "Error should indicate initialization failure"
        );
        assert_eq!(
            error.report(),
            "Failed to initialize one or more tenant stores: \
             Failed to create store for tenant: test_tenant_0: Mock store creation failed"
        );
    });
}

#[test]
fn ending_is_not_a_phase_of_a_running_application() {
    let (app, drainer) = run_application(7, "stores", CancellationToken::new());
    assert_eq!(drainer.state, 7);
    assert_eq!(drainer.stores, "stores");
    assert!(matches!(app.phase(), Phase::Running));
    assert!(!app.cancel_requested());
    assert!(!app.cancellation_token().is_cancelled());
    assert!(app.finish().is_none());
}
