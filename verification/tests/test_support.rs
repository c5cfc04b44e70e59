//! The mocks and the utilities around a test.

use std::time::{Duration, Instant};

use drainer::delay::Delay;
use drainer::settings::Settings;
use drainer::test_support::test_utils::{cleanup_test_state, create_test_config_with_tenants};
use drainer::test_support::{
    mock_start_drainer, mock_start_web_server, CreationBehavior, MockService, MockState, MockStore,
    MockStoreError, SettingsTestExt,
};
use tokio::time::timeout;
use tokio_util::sync::CancellationToken;

fn runtime() -> tokio::runtime::Runtime {
    tokio::runtime::Builder::new_current_thread().enable_all().build().unwrap()
}

async fn create_mock(
    state: &MockState<u8, u8>,
    config: &Settings,
    tenant: &str,
) -> Result<MockStore, MockStoreError> {
    let creation = MockStore::create_mock(&state.store, config, tenant);
    if let Some(delay) = creation.sleep {
        tokio::time::sleep(Duration::new(delay.as_secs(), delay.subsec_nanos())).await;
    }
    creation.outcome
}

#[test]
fn test_mock_store_creation_success() {
    let mut state: MockState<u8, u8> = MockState::new();
    MockStore::set_creation_behavior(&mut state.store, CreationBehavior::Success);

    let config = Settings::default_for_testing();
    let result = runtime().block_on(create_mock(&state, &config, "test_tenant"));

    assert!(result.is_ok());
    let store = result.ok().unwrap();
    assert!(store.was_created());
}

#[test]
fn test_mock_store_creation_failure() {
    let mut state: MockState<u8, u8> = MockState::new();
    MockStore::set_creation_behavior(&mut state.store, CreationBehavior::Fail);

    let config = Settings::default_for_testing();
    let result = runtime().block_on(create_mock(&state, &config, "test_tenant"));

    assert!(result.is_err());
    assert_eq!(result.err().unwrap().message(), "Mock store creation failed");
}

#[test]
fn test_mock_store_creation_delay() {
    let mut state: MockState<u8, u8> = MockState::new();
    let delay = Duration::from_millis(100);
    MockStore::set_creation_delay(&mut state.store, Delay::from_millis(100));

    let config = Settings::default_for_testing();
    let start = Instant::now();
    let result = runtime().block_on(create_mock(&state, &config, "test_tenant"));
    let elapsed = start.elapsed();

    assert!(result.is_ok());
    assert!(elapsed >= delay);
}

#[test]
fn test_mock_health_server_default_behavior() {
    runtime().block_on(async {
        let state: MockState<u8, u8> = MockState::new();
        let token = CancellationToken::new();
        let token_clone = token.clone();

        let server_task = tokio::spawn(async move {
            match mock_start_web_server(&state.server) {
                MockService::Call(_) => Err("no mock was set"),
                MockService::WaitForCancellation => {
                    token_clone.cancelled().await;
                    Ok(())
                }
            }
        });

        tokio::time::sleep(Duration::from_millis(10)).await;

        token.cancel();
        let result = timeout(Duration::from_millis(100), server_task).await;

        assert!(result.is_ok());
        assert!(result.unwrap().unwrap().is_ok());
    });
}

#[test]
fn test_cleanup_resets_state() {
    let mut state: MockState<u8, u8> = MockState::new();
    MockStore::set_creation_delay(&mut state.store, Delay::from_millis(100));
    MockStore::set_creation_behavior(&mut state.store, CreationBehavior::Fail);
    state.server.set_health_server_mock(1);
    state.server.set_drainer_mock(2);

    cleanup_test_state(&mut state);

    let delay = state.store.creation_delay();
    let behavior = state.store.creation_behavior();

    assert_eq!(delay, Delay::from_millis(0));
    assert!(matches!(behavior, CreationBehavior::Success));
    assert!(matches!(mock_start_web_server(&state.server), MockService::WaitForCancellation));
    assert!(matches!(mock_start_drainer(&state.server), MockService::WaitForCancellation));
}

#[test]
fn mocks_stand_in_for_their_own_service() {
    let mut state: MockState<u8, u16> = MockState::new();
    state.server.set_health_server_mock(7);
    assert!(matches!(mock_start_web_server(&state.server), MockService::Call(7)));
    assert!(matches!(mock_start_drainer(&state.server), MockService::WaitForCancellation));
    state.server.set_drainer_mock(300);
    assert!(matches!(mock_start_web_server(&state.server), MockService::Call(7)));
    assert!(matches!(mock_start_drainer(&state.server), MockService::Call(300)));
    state.server.clear_mocks();
    assert!(matches!(mock_start_web_server(&state.server), MockService::WaitForCancellation));
    assert!(matches!(mock_start_drainer(&state.server), MockService::WaitForCancellation));
}

#[test]
fn what_is_set_stays_apart() {
    let mut state: MockState<u8, u8> = MockState::new();
    MockStore::set_creation_delay(&mut state.store, Delay::from_millis(1500));
    assert_eq!(state.store.creation_behavior(), CreationBehavior::Success);
    MockStore::set_creation_behavior(&mut state.store, CreationBehavior::Fail);
    assert_eq!(state.store.creation_delay(), Delay::new(1, 500_000_000));
    let config = Settings::default_for_testing();
    let creation = MockStore::create_mock(&state.store, &config, "test_tenant");
    assert_eq!(creation.sleep, Some(Delay::from_millis(1500)));
    assert_eq!(creation.outcome.err(), Some(MockStoreError));
}

#[test]
fn test_configs_have_the_requested_tenants() {
    assert_eq!(Settings::new_for_testing().get_tenants().len(), 5);
    assert_eq!(create_test_config_with_tenants(0).get_tenants().len(), 0);
    let conf = create_test_config_with_tenants(112);
    let names = conf.get_tenants();
    assert_eq!(names.len(), 112);
    assert_eq!(names[0], "test_tenant_0");
    assert_eq!(names[9], "test_tenant_9");
    assert_eq!(names[10], "test_tenant_10");
    assert_eq!(names[109], "test_tenant_109");
    let different: std::collections::HashSet<&String> = names.iter().collect();
    assert_eq!(different.len(), 112);
}
