//! Utilities around a test.

use crate::delay::Delay;
use crate::settings::Settings;
use crate::test_support::{is_test_config, test_config, CreationBehavior, MockState, MockStore};
use vstd::prelude::*;

verus! {

/// Create a test configuration with the given number of tenants.
pub fn create_test_config_with_tenants(tenant_count: usize) -> (conf: Settings)
    ensures
        is_test_config(conf, tenant_count as nat),
        conf.tenants().len() == tenant_count,
        conf.wf(),
{
    test_config(tenant_count)
}

/// Cleanup function to be called after each test: whatever was set up, nothing
/// is left of it.
pub fn cleanup_test_state<H, D>(state: &mut MockState<H, D>)
    ensures
        final(state).is_default(),
        final(state).server.health() is None,
        final(state).server.drainer() is None,
        final(state).store.delay()@ == 0,
        final(state).store.behavior() == CreationBehavior::Success,
{
    state.server.clear_mocks();
    MockStore::set_creation_behavior(&mut state.store, CreationBehavior::Success);
    MockStore::set_creation_delay(&mut state.store, Delay::from_millis(0));
}

} // verus!
