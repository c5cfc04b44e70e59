//! Test support: stand-ins for the stores and services, under the control of the
//! test.
//!
//! What a test sets up is kept in a [`MockState`]. Where several tests share one,
//! [`test_utils::cleanup_test_state`] puts it back to its defaults.

use crate::decimal::{decimal, decimal_text, lemma_decimal_text_injective};
use crate::delay::Delay;
use crate::errors::join;
use crate::settings::Settings;
use vstd::prelude::*;

pub mod test_utils;

verus! {

/// How many tenants the default configuration for tests has.
pub const DEFAULT_TEST_TENANTS: usize = 5;

/// The mocks in place of the services: the one of the health server, of type
/// `H`, and the one of the drainer service, of type `D`.
#[verifier::reject_recursive_types(H)]
#[verifier::reject_recursive_types(D)]
pub struct MockServer<H, D> {
    health_server_mock: Option<H>,
    drainer_mock: Option<D>,
}

/// Behavior of the creation of a mock store.
#[derive(Clone, Copy, Debug, PartialEq, Eq, Structural)]
pub enum CreationBehavior {
    Success,
    Fail,
}

/// How mock stores are created: how long it takes, and how it ends.
pub struct MockStoreSettings {
    creation_delay: Delay,
    creation_behavior: CreationBehavior,
}

/// All that a test can set up.
#[verifier::reject_recursive_types(H)]
#[verifier::reject_recursive_types(D)]
pub struct MockState<H, D> {
    pub server: MockServer<H, D>,
    pub store: MockStoreSettings,
}

impl<H, D> MockServer<H, D> {
    /// The mock of the health server, where one is set.
    pub closed spec fn health(self) -> Option<H> {
        self.health_server_mock
    }

    /// The mock of the drainer service, where one is set.
    pub closed spec fn drainer(self) -> Option<D> {
        self.drainer_mock
    }

    /// No mocks.
    pub fn new() -> (server: Self)
        ensures
            server.health() is None,
            server.drainer() is None,
    {
        MockServer { health_server_mock: None, drainer_mock: None }
    }

    /// Set the mock for the health server.
    pub fn set_health_server_mock(&mut self, mock: H)
        ensures
            final(self).health() == Some(mock),
            final(self).drainer() == old(self).drainer(),
    {
        self.health_server_mock = Some(mock);
    }

    /// Set the mock for the drainer service.
    pub fn set_drainer_mock(&mut self, mock: D)
        ensures
            final(self).drainer() == Some(mock),
            final(self).health() == old(self).health(),
    {
        self.drainer_mock = Some(mock);
    }

    /// Clear all mocks.
    pub fn clear_mocks(&mut self)
        ensures
            final(self).health() is None,
            final(self).drainer() is None,
    {
        self.health_server_mock = None;
        self.drainer_mock = None;
    }
}

impl MockStoreSettings {
    /// How long the creation of a store takes.
    pub closed spec fn delay(self) -> Delay {
        self.creation_delay
    }

    /// How the creation of a store ends.
    pub closed spec fn behavior(self) -> CreationBehavior {
        self.creation_behavior
    }

    /// Stores are created at once and without failure.
    pub fn new() -> (settings: Self)
        ensures
            settings.delay()@ == 0,
            settings.behavior() == CreationBehavior::Success,
    {
        MockStoreSettings {
            creation_delay: Delay::from_millis(0),
            creation_behavior: CreationBehavior::Success,
        }
    }

    /// How long the creation of a store takes.
    pub fn creation_delay(&self) -> (delay: Delay)
        ensures
            delay == self.delay(),
    {
        self.creation_delay
    }

    /// How the creation of a store ends.
    pub fn creation_behavior(&self) -> (behavior: CreationBehavior)
        ensures
            behavior == self.behavior(),
    {
        self.creation_behavior
    }
}

impl<H, D> MockState<H, D> {
    /// Whether nothing is set up: no mocks, and stores that are created at once
    /// and without failure.
    pub open spec fn is_default(self) -> bool {
        &&& self.server.health() is None
        &&& self.server.drainer() is None
        &&& self.store.delay()@ == 0
        &&& self.store.behavior() == CreationBehavior::Success
    }

    /// Nothing set up.
    pub fn new() -> (state: Self)
        ensures
            state.is_default(),
    {
        MockState { server: MockServer::new(), store: MockStoreSettings::new() }
    }
}

/// Mock store.
pub struct MockStore {
    created: bool,
    creation_delay: Delay,
    creation_behavior: CreationBehavior,
}

/// The creation of a mock store failed.
#[derive(Clone, Copy, Debug, PartialEq, Eq, Structural)]
pub struct MockStoreError;

impl MockStoreError {
    /// The description of the error.
    pub fn message(&self) -> (text: String)
        ensures
            text@ == "Mock store creation failed"@,
    {
        "Mock store creation failed".to_owned()
    }
}

/// The creation of a mock store: for how long to sleep first, if at all, and
/// what comes of it then.
pub struct MockCreation {
    pub sleep: Option<Delay>,
    pub outcome: Result<MockStore, MockStoreError>,
}

/// For how long the creation of a mock store sleeps: not at all without a delay.
pub open spec fn creation_sleep(settings: MockStoreSettings) -> Option<Delay> {
    if settings.delay()@ == 0 {
        None
    } else {
        Some(settings.delay())
    }
}

/// Whether what came of the creation of a mock store is what was configured: a
/// store like any new one, or the error.
pub open spec fn creation_meets(
    settings: MockStoreSettings,
    outcome: Result<MockStore, MockStoreError>,
) -> bool {
    match settings.behavior() {
        CreationBehavior::Success => {
            &&& outcome matches Ok(store)
            &&& store.is_success()
        },
        CreationBehavior::Fail => outcome is Err,
    }
}

impl MockStore {
    /// Whether the store says that it was created.
    pub closed spec fn created(self) -> bool {
        self.created
    }

    /// The delay that the store holds.
    pub closed spec fn delay(self) -> Delay {
        self.creation_delay
    }

    /// The behavior that the store holds.
    pub closed spec fn behavior(self) -> CreationBehavior {
        self.creation_behavior
    }

    /// Whether the store is one that was created, at once and without failure.
    pub open spec fn is_success(self) -> bool {
        &&& self.created()
        &&& self.delay()@ == 0
        &&& self.behavior() == CreationBehavior::Success
    }

    /// Create a new mock store that indicates successful creation.
    pub fn new_success() -> (store: Self)
        ensures
            store.is_success(),
    {
        MockStore {
            created: true,
            creation_delay: Delay::from_millis(0),
            creation_behavior: CreationBehavior::Success,
        }
    }

    /// Check if the mock store was created (for test assertions).
    pub fn was_created(&self) -> (created: bool)
        ensures
            created == self.created(),
    {
        self.created
    }

    /// Set the creation delay for all mock stores.
    pub fn set_creation_delay(settings: &mut MockStoreSettings, delay: Delay)
        ensures
            final(settings).delay() == delay,
            final(settings).behavior() == old(settings).behavior(),
    {
        settings.creation_delay = delay;
    }

    /// Set the creation behavior for all mock stores.
    pub fn set_creation_behavior(settings: &mut MockStoreSettings, behavior: CreationBehavior)
        ensures
            final(settings).behavior() == behavior,
            final(settings).delay() == old(settings).delay(),
    {
        settings.creation_behavior = behavior;
    }

    /// Create a mock store with the configured behavior. What is configured when
    /// the creation begins holds to its end; the configuration and the tenant of
    /// the store do not matter.
    pub fn create_mock(
        settings: &MockStoreSettings,
        _config: &Settings,
        _tenant: &str,
    ) -> (creation: MockCreation)
        ensures
            creation.sleep == creation_sleep(*settings),
            creation_meets(*settings, creation.outcome),
            creation.outcome is Ok <==> settings.behavior() == CreationBehavior::Success,
            creation.outcome matches Ok(store) ==> store.created(),
    {
        let delay = settings.creation_delay;
        let sleep = if delay.is_zero() {
            None
        } else {
            Some(delay)
        };
        let outcome = match settings.creation_behavior {
            CreationBehavior::Success => Ok(MockStore::new_success()),
            CreationBehavior::Fail => Err(MockStoreError),
        };
        MockCreation { sleep, outcome }
    }
}

/// What stands in for a service.
pub enum MockService<M> {
    /// The mock that the test has set.
    Call(M),
    /// Nothing but to wait for the cancellation, and then to end well.
    WaitForCancellation,
}

/// What stands in for a service of which this mock was set.
pub open spec fn stand_in<M>(mock: Option<M>) -> MockService<M> {
    match mock {
        Some(mock) => MockService::Call(mock),
        None => MockService::WaitForCancellation,
    }
}

/// What stands in for the health server.
pub fn mock_start_web_server<H: Copy, D>(server: &MockServer<H, D>) -> (service: MockService<H>)
    ensures
        service == stand_in(server.health()),
{
    match server.health_server_mock {
        Some(mock) => MockService::Call(mock),
        None => MockService::WaitForCancellation,
    }
}

/// What stands in for the drainer service.
pub fn mock_start_drainer<H, D: Copy>(server: &MockServer<H, D>) -> (service: MockService<D>)
    ensures
        service == stand_in(server.drainer()),
{
    match server.drainer_mock {
        Some(mock) => MockService::Call(mock),
        None => MockService::WaitForCancellation,
    }
}

/// Where nothing is set up, mock stores are created at once and without failure,
/// and both services just wait for the cancellation.
pub proof fn law_defaults_are_harmless<H, D>(
    state: MockState<H, D>,
    outcome: Result<MockStore, MockStoreError>,
)
    requires
        state.is_default(),
    ensures
        creation_sleep(state.store) is None,
        creation_meets(state.store, outcome) ==> outcome is Ok && outcome->Ok_0.created(),
        stand_in(state.server.health()) is WaitForCancellation,
        stand_in(state.server.drainer()) is WaitForCancellation,
{
}

/// The name of the test tenant of that number.
pub open spec fn test_tenant_name(number: int) -> Seq<char> {
    "test_tenant_"@ + decimal_text(number as nat)
}

/// Whether the configuration is one for tests, with that many tenants.
pub open spec fn is_test_config(conf: Settings, tenant_count: nat) -> bool {
    &&& conf.wf()
    &&& conf.tenants().len() == tenant_count
    &&& forall|i: int|
        0 <= i < tenant_count ==> (#[trigger] conf.tenants()[i])@ == test_tenant_name(i)
    &&& conf.level() == "DEBUG"@
}

pub(crate) fn test_config(tenant_count: usize) -> (conf: Settings)
    ensures
        is_test_config(conf, tenant_count as nat),
        conf.tenants().len() == tenant_count,
        conf.wf(),
{
    let mut tenants: Vec<String> = Vec::new();
    let mut i: usize = 0;
    while i < tenant_count
        invariant
            i <= tenant_count,
            tenants@.len() == i,
            forall|j: int| 0 <= j < i ==> (#[trigger] tenants@[j])@ == test_tenant_name(j),
        decreases tenant_count - i,
    {
        let number = decimal(i);
        tenants.push(join("test_tenant_", number.as_str()));
        i += 1;
    }
    assert forall|a: int, b: int| 0 <= a < b < tenants@.len() implies (#[trigger] tenants@[a])@ != (
    #[trigger] tenants@[b])@ by {
        if tenants@[a]@ == tenants@[b]@ {
            lemma_test_tenant_name_injective(a, b);
        }
    }
    Settings::with_tenants(tenants, "DEBUG".to_owned())
}

proof fn lemma_test_tenant_name_injective(a: int, b: int)
    requires
        a >= 0,
        b >= 0,
        test_tenant_name(a) == test_tenant_name(b),
    ensures
        a == b,
{
    let prefix = "test_tenant_"@;
    assert(decimal_text(a as nat) =~= test_tenant_name(a).skip(prefix.len() as int));
    assert(decimal_text(b as nat) =~= test_tenant_name(b).skip(prefix.len() as int));
    lemma_decimal_text_injective(a as nat, b as nat);
}

/// Extension trait for settings to provide test-specific configurations.
pub trait SettingsTestExt: Sized {
    /// Create a default settings instance suitable for testing.
    fn default_for_testing() -> Self;
}

impl SettingsTestExt for Settings {
    fn default_for_testing() -> (conf: Self)
        ensures
            is_test_config(conf, DEFAULT_TEST_TENANTS as nat),
            conf.tenants().len() == 5,
            conf.wf(),
    {
        Settings::new_for_testing()
    }
}

impl Settings {
    /// Create a new settings instance configured for testing: a small number of
    /// test tenants.
    pub fn new_for_testing() -> (conf: Self)
        ensures
            is_test_config(conf, DEFAULT_TEST_TENANTS as nat),
            conf.tenants().len() == 5,
            conf.wf(),
    {
        test_config(DEFAULT_TEST_TENANTS)
    }
}

/// How long the creation of a mock store sleeps depends on the delay alone, not on
/// how it ends: without a delay not at all, with one for as long as that.
pub proof fn law_creation_sleeps_for_its_delay(settings: MockStoreSettings)
    ensures
        creation_sleep(settings) is None <==> settings.delay()@ == 0,
        creation_sleep(settings) is Some ==> creation_sleep(settings)->0 == settings.delay(),
{
}

/// How the creation of a mock store ends depends on the behavior alone: with
/// success there is a store that says it was created, and with failure there is
/// none.
pub proof fn law_creation_ends_as_configured(
    settings: MockStoreSettings,
    outcome: Result<MockStore, MockStoreError>,
)
    requires
        creation_meets(settings, outcome),
    ensures
        settings.behavior() == CreationBehavior::Success <==> outcome is Ok,
        settings.behavior() == CreationBehavior::Fail <==> outcome is Err,
        outcome is Ok ==> outcome->Ok_0.created() && outcome->Ok_0.delay()@ == 0
            && outcome->Ok_0.behavior() == CreationBehavior::Success,
{
}

/// A mock that is set is called, that very one; without one the service waits.
pub proof fn law_mocks_stand_in<M>(mock: M)
    ensures
        stand_in(Some(mock)) == MockService::Call(mock),
        stand_in(None::<M>) == MockService::<M>::WaitForCancellation,
{
}

/// Nothing is set up exactly if there are no mocks, no delay and no failure.
pub proof fn law_when_nothing_is_set_up<H, D>(state: MockState<H, D>)
    ensures
        state.is_default() <==> state.server.health() is None && state.server.drainer() is None
            && state.store.delay()@ == 0 && state.store.behavior() == CreationBehavior::Success,
{
}

/// A configuration for tests has as many tenants as asked for, each with a name of
/// its own that begins like those of all test tenants and ends in its number.
pub proof fn law_test_tenants_are_numbered(conf: Settings, tenant_count: nat, i: int, j: int)
    requires
        is_test_config(conf, tenant_count),
        0 <= i < tenant_count,
        0 <= j < tenant_count,
    ensures
        conf.tenants().len() == tenant_count,
        conf.tenants()[i]@ == "test_tenant_"@ + decimal_text(i as nat),
        conf.tenants()[i]@ == conf.tenants()[j]@ <==> i == j,
        conf.level() == "DEBUG"@,
{
    assert(conf.tenants()[i]@ == test_tenant_name(i));
    assert(conf.tenants()[j]@ == test_tenant_name(j));
    if conf.tenants()[i]@ == conf.tenants()[j]@ {
        lemma_test_tenant_name_injective(i, j);
    }
}

} // verus!
