//! The initialization of the stores, step by step, and the configuration.

use drainer::delay::Delay;
use drainer::errors::InitError;
use drainer::settings::{log_startup_info, Settings};
use drainer::store_init::{
    initialize_stores_parallel, StoreInit, StoreOutcome, MAX_CONCURRENT_STORES,
};
use drainer::test_support::test_utils::create_test_config_with_tenants;

fn begin(tenants: usize) -> StoreInit<u32> {
    initialize_stores_parallel(&create_test_config_with_tenants(tenants))
}

#[test]
fn no_tenants_no_stores() {
    let mut init = begin(0);
    assert_eq!(init.permits(), 0);
    assert!(init.start_next().is_none());
    assert!(init.is_finished());
    assert_eq!(init.finish().unwrap().ok().unwrap().len(), 0);
}

#[test]
fn never_more_than_the_permits_at_once() {
    assert_eq!(MAX_CONCURRENT_STORES, 10);
    assert_eq!(begin(3).permits(), 3);
    assert_eq!(begin(10).permits(), 10);
    let mut init = begin(25);
    assert_eq!(init.permits(), 10);
    for expected in 0..10 {
        assert_eq!(init.start_next(), Some(expected));
    }
    assert_eq!(init.start_next(), None);
    assert!(!init.is_finished());
    // One that ends makes room for one.
    init.complete(4, StoreOutcome::Created(4));
    assert_eq!(init.start_next(), Some(10));
    assert_eq!(init.start_next(), None);
    // What is said twice, or of a tenant that was not started, changes nothing.
    init.complete(4, StoreOutcome::Created(99));
    init.complete(20, StoreOutcome::Created(99));
    init.complete(1000, StoreOutcome::PermitDenied);
    assert_eq!(init.start_next(), None);
    for tenant in (0..25).rev() {
        init.complete(tenant, StoreOutcome::Created(tenant as u32));
    }
    assert!(!init.is_finished());
    while let Some(tenant) = init.start_next() {
        init.complete(tenant, StoreOutcome::Created(tenant as u32));
    }
    assert!(init.is_finished());
    let stores = init.finish().unwrap().ok().unwrap();
    assert_eq!(stores.len(), 25);
    for tenant in 0..25u32 {
        assert_eq!(stores.get(&format!("test_tenant_{}", tenant)), Some(&tenant));
    }
    assert_eq!(stores.get("test_tenant_25"), None);
}

#[test]
fn the_first_failure_ends_it() {
    let mut init = begin(12);
    while init.start_next().is_some() {}
    init.complete(3, StoreOutcome::Created(3));
    init.complete(7, StoreOutcome::CreationFailed("no database".to_string()));
    assert!(init.is_finished());
    assert_eq!(init.start_next(), None);
    init.complete(1, StoreOutcome::PermitDenied);
    let error = init.finish().unwrap().err().unwrap();
    assert_eq!(error.message(), "Failed to initialize one or more tenant stores");
    assert_eq!(
        error.report(),
        "Failed to initialize one or more tenant stores: \
         Failed to create store for tenant: test_tenant_7: no database"
    );
}

#[test]
fn a_refused_permit_fails_it() {
    let mut init = begin(1);
    assert_eq!(init.start_next(), Some(0));
    init.complete(0, StoreOutcome::PermitDenied);
    let error = init.finish().unwrap().err().unwrap();
    assert!(matches!(error, InitError::PermitDenied));
    assert_eq!(
        error.report(),
        "Failed to initialize one or more tenant stores: Failed to acquire semaphore permit"
    );
}

#[test]
fn nothing_to_finish_while_it_is_open() {
    let mut init = begin(2);
    assert_eq!(init.start_next(), Some(0));
    init.complete(0, StoreOutcome::Created(0));
    assert!(!init.is_finished());
    assert!(init.finish().is_none());
}

#[test]
fn tenants_are_configured_once() {
    let mut conf = Settings::new("Info".to_string());
    assert!(conf.add_tenant("public".to_string()));
    assert!(conf.add_tenant("global".to_string()));
    assert!(!conf.add_tenant("public".to_string()));
    assert!(conf.has_tenant(&"global".to_string()));
    assert!(!conf.has_tenant(&"globa".to_string()));
    assert_eq!(conf.get_tenants(), &vec!["public".to_string(), "global".to_string()]);
}

#[test]
fn startup_log_tells_counts_only() {
    let mut conf = Settings::new("Info".to_string());
    conf.add_tenant("secret_name".to_string());
    let info = log_startup_info(&conf, None);
    assert_eq!(info.banner, "Starting drainer");
    assert_eq!(info.notice, "Drainer configuration loaded");
    assert_eq!(info.tenant_count, 1);
    assert_eq!(info.log_level, "Info");
    let info = log_startup_info(&conf, Some("v1.2"));
    assert_eq!(info.banner, "Starting drainer (Version: v1.2)");
}

#[test]
fn delays_split_into_seconds_and_the_rest() {
    let delay = Delay::from_millis(61_250);
    assert_eq!(delay.as_secs(), 61);
    assert_eq!(delay.subsec_nanos(), 250_000_000);
    assert!(!delay.is_zero());
    assert!(Delay::from_secs(0).is_zero());
    assert!(!Delay::new(0, 1).is_zero());
    assert_eq!(Delay::from_secs(2), Delay::from_millis(2000));
}
