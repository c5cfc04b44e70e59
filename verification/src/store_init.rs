//! Initialization of the tenant stores, several at a time.
//!
//! The stores are created concurrently, but never more than
//! [`MAX_CONCURRENT_STORES`] of them at once. [`StoreInit`] says which tenant to
//! start next and takes the outcome of each creation; the first failure ends the
//! whole initialization.

use crate::errors::InitError;
use crate::settings::{distinct_names, Settings};
use vstd::hash_map::StringHashMap;
use vstd::prelude::*;

verus! {

/// Maximum concurrent tenant store initializations.
pub const MAX_CONCURRENT_STORES: usize = 10;

/// How the creation of one store ended.
pub enum StoreOutcome<S> {
    /// The store is there.
    Created(S),
    /// The permit to create it was refused.
    PermitDenied,
    /// Its creation failed, for the reason given.
    CreationFailed(String),
}

/// An initialization under way: which tenants have been started (always the
/// first ones), which stores are there, and the failure that ended it, if any.
#[verifier::reject_recursive_types(S)]
pub struct StoreInit<S> {
    tenants: Vec<String>,
    started: usize,
    running: usize,
    stores: Vec<Option<S>>,
    failure: Option<InitError>,
}

/// The state of an initialization.
#[verifier::ext_equal]
pub ghost struct InitState<S> {
    pub tenants: Seq<String>,
    pub started: int,
    pub stores: Seq<Option<S>>,
    pub failure: Option<InitError>,
}

/// How many stores may be created at once for that many tenants.
pub open spec fn concurrency_limit(tenant_count: nat) -> nat {
    if tenant_count <= MAX_CONCURRENT_STORES {
        tenant_count
    } else {
        MAX_CONCURRENT_STORES as nat
    }
}

impl<S> InitState<S> {
    /// Nothing started yet.
    pub open spec fn initial(tenants: Seq<String>) -> Self {
        InitState {
            tenants,
            started: 0,
            stores: Seq::new(tenants.len(), |i: int| None::<S>),
            failure: None,
        }
    }

    /// How many stores may be created at once.
    pub open spec fn limit(self) -> nat {
        concurrency_limit(self.tenants.len())
    }

    /// The tenants whose stores are being created. A failure drops them all.
    pub open spec fn in_flight(self) -> Set<int> {
        if self.failure is Some {
            Set::empty()
        } else {
            Set::new(|i: int| 0 <= i < self.started && self.stores[i] is None)
        }
    }

    /// Whether another tenant may be started now.
    pub open spec fn can_start(self) -> bool {
        &&& self.failure is None
        &&& self.started < self.tenants.len()
        &&& self.in_flight().len() < self.limit()
    }

    /// The state after the next tenant was started, where one may be.
    pub open spec fn after_start(self) -> Self {
        if self.can_start() {
            InitState { started: self.started + 1, ..self }
        } else {
            self
        }
    }

    /// The state after the creation of the store of tenant `i` ended. What is
    /// said of a tenant that is not in flight changes nothing.
    pub open spec fn after_completion(self, i: int, outcome: StoreOutcome<S>) -> Self {
        if !self.in_flight().contains(i) {
            self
        } else {
            match outcome {
                StoreOutcome::Created(store) => InitState {
                    stores: self.stores.update(i, Some(store)),
                    ..self
                },
                StoreOutcome::PermitDenied => InitState {
                    failure: Some(InitError::PermitDenied),
                    ..self
                },
                StoreOutcome::CreationFailed(cause) => InitState {
                    failure: Some(InitError::StoreCreation { tenant: self.tenants[i], cause }),
                    ..self
                },
            }
        }
    }

    /// Whether the outcome of the whole is settled: a failure, or all stores
    /// there.
    pub open spec fn finished(self) -> bool {
        ||| self.failure is Some
        ||| forall|i: int| 0 <= i < self.stores.len() ==> (#[trigger] self.stores[i]) is Some
    }

    /// Only started tenants have stores, and no more are in flight than may be.
    pub open spec fn wf(self) -> bool {
        &&& distinct_names(self.tenants)
        &&& 0 <= self.started <= self.tenants.len()
        &&& self.stores.len() == self.tenants.len()
        &&& forall|i: int|
            self.started <= i < self.stores.len() ==> (#[trigger] self.stores[i]) is None
        &&& self.in_flight().finite()
        &&& self.in_flight().len() <= self.limit()
    }
}

/// The stores by the names of their tenants: for each of the first `n` tenants
/// the store that was made for it.
pub open spec fn stores_by_name<S>(
    tenants: Seq<String>,
    stores: Seq<Option<S>>,
    n: int,
) -> Map<Seq<char>, S>
    decreases n,
{
    if n <= 0 {
        Map::empty()
    } else {
        stores_by_name(tenants, stores, n - 1).insert(tenants[n - 1]@, stores[n - 1]->0)
    }
}

proof fn lemma_start<S>(s: InitState<S>)
    requires
        s.wf(),
        s.can_start(),
    ensures
        s.after_start().wf(),
        s.after_start().in_flight() == s.in_flight().insert(s.started),
        s.after_start().in_flight().len() == s.in_flight().len() + 1,
{
    assert(s.after_start().in_flight() =~= s.in_flight().insert(s.started));
}

proof fn lemma_completion<S>(s: InitState<S>, i: int, outcome: StoreOutcome<S>)
    requires
        s.wf(),
        s.in_flight().contains(i),
    ensures
        s.after_completion(i, outcome).wf(),
        s.in_flight().len() > 0,
        s.after_completion(i, outcome).failure is None ==> s.after_completion(
            i,
            outcome,
        ).in_flight() == s.in_flight().remove(i),
        s.after_completion(i, outcome).failure is None ==> s.after_completion(
            i,
            outcome,
        ).in_flight().len() == s.in_flight().len() - 1,
{
    let t = s.after_completion(i, outcome);
    if t.failure is None {
        assert(t.in_flight() =~= s.in_flight().remove(i));
    }
}

proof fn lemma_finished<S>(s: InitState<S>)
    requires
        s.wf(),
    ensures
        s.finished() <==> s.failure is Some || (s.started == s.tenants.len()
            && s.in_flight().len() == 0),
{
    if s.failure is None {
        if s.finished() {
            assert(s.in_flight() =~= Set::empty());
            if s.started < s.tenants.len() {
                assert(s.stores[s.started] is None);
            }
        } else if s.started == s.tenants.len() {
            let i = choose|i: int| 0 <= i < s.stores.len() && (#[trigger] s.stores[i]) is None;
            assert(s.in_flight().contains(i));
            assert(s.in_flight().len() != 0);
        }
    }
}

impl<S> StoreInit<S> {
    /// The state of the initialization.
    pub closed spec fn state(self) -> InitState<S> {
        InitState {
            tenants: self.tenants@,
            started: self.started as int,
            stores: self.stores@,
            failure: self.failure,
        }
    }

    /// The state is consistent, and the count of the stores being created is
    /// right.
    pub closed spec fn wf(self) -> bool {
        &&& self.state().wf()
        &&& self.running == self.state().in_flight().len()
    }
}

/// Begins the initialization of the stores of all configured tenants.
pub fn initialize_stores_parallel<S>(conf: &Settings) -> (init: StoreInit<S>)
    requires
        conf.wf(),
    ensures
        init.wf(),
        init.state() == InitState::<S>::initial(conf.tenants()),
{
    let names = conf.get_tenants();
    let mut tenants: Vec<String> = Vec::new();
    let mut stores: Vec<Option<S>> = Vec::new();
    let mut i: usize = 0;
    while i < names.len()
        invariant
            i <= names@.len(),
            tenants@ == names@.take(i as int),
            stores@ == Seq::new(i as nat, |j: int| None::<S>),
        decreases names@.len() - i,
    {
        tenants.push(names[i].clone());
        stores.push(None);
        i += 1;
        assert(tenants@ =~= names@.take(i as int));
    }
    assert(names@.take(names@.len() as int) =~= names@);
    let init = StoreInit { tenants, started: 0, running: 0, stores, failure: None };
    assert(init.state() =~= InitState::<S>::initial(conf.tenants()));
    assert(init.state().in_flight() =~= Set::empty());
    init
}

impl<S> StoreInit<S> {
    /// How many stores may be created at once: the number of permits.
    pub fn permits(&self) -> (permits: usize)
        ensures
            permits == self.state().limit(),
    {
        if self.tenants.len() <= MAX_CONCURRENT_STORES {
            self.tenants.len()
        } else {
            MAX_CONCURRENT_STORES
        }
    }

    /// Starts the next tenant, where a permit is free: the answer says which.
    pub fn start_next(&mut self) -> (tenant: Option<usize>)
        requires
            old(self).wf(),
        ensures
            final(self).wf(),
            final(self).state() == old(self).state().after_start(),
            match tenant {
                Some(i) => old(self).state().can_start() && i == old(self).state().started,
                None => !old(self).state().can_start(),
            },
    {
        if self.failure.is_none() && self.started < self.tenants.len() && self.running
            < self.permits() {
            proof {
                lemma_start(self.state());
            }
            let tenant: usize = self.started;
            self.started = tenant + 1;
            self.running = self.running + 1;
            Some(tenant)
        } else {
            None
        }
    }

    /// Takes note of how the creation of one tenant's store ended.
    pub fn complete(&mut self, tenant: usize, outcome: StoreOutcome<S>)
        requires
            old(self).wf(),
        ensures
            final(self).wf(),
            final(self).state() == old(self).state().after_completion(tenant as int, outcome),
    {
        if self.failure.is_none() && tenant < self.started && self.stores[tenant].is_none() {
            proof {
                lemma_completion(self.state(), tenant as int, outcome);
            }
            match outcome {
                StoreOutcome::Created(store) => {
                    self.stores.set(tenant, Some(store));
                    self.running = self.running - 1;
                },
                StoreOutcome::PermitDenied => {
                    self.failure = Some(InitError::PermitDenied);
                    self.running = 0;
                },
                StoreOutcome::CreationFailed(cause) => {
                    let name = self.tenants[tenant].clone();
                    self.failure = Some(InitError::StoreCreation { tenant: name, cause });
                    self.running = 0;
                },
            }
        }
    }

    /// Whether the outcome of the whole is settled.
    pub fn is_finished(&self) -> (finished: bool)
        requires
            self.wf(),
        ensures
            finished == self.state().finished(),
    {
        proof {
            lemma_finished(self.state());
        }
        self.failure.is_some() || (self.started == self.tenants.len() && self.running == 0)
    }

    /// The outcome of the whole, once it is settled: the stores by the names of
    /// their tenants, or the failure. Nothing, while it is not settled.
    pub fn finish(self) -> (result: Option<Result<StringHashMap<S>, InitError>>)
        requires
            self.wf(),
        ensures
            result is None <==> !self.state().finished(),
            result matches Some(Err(e)) ==> self.state().failure == Some(e),
            result matches Some(Ok(stores)) ==> {
                &&& self.state().failure is None
                &&& stores@ == stores_by_name(
                    self.state().tenants,
                    self.state().stores,
                    self.state().tenants.len() as int,
                )
                &&& stores@.len() == self.state().tenants.len()
                &&& forall|i: int|
                    0 <= i < self.state().tenants.len() ==> {
                        &&& stores@.contains_key((#[trigger] self.state().tenants[i])@)
                        &&& Some(stores@[self.state().tenants[i]@]) == self.state().stores[i]
                    }
            },
    {
        if !self.is_finished() {
            return None;
        }
        let ghost state = self.state();
        let StoreInit { tenants, started: _, running: _, stores, failure } = self;
        if let Some(e) = failure {
            return Some(Err(e));
        }
        let mut stores = stores;
        let mut by_name: StringHashMap<S> = StringHashMap::with_capacity(tenants.len());
        let mut i: usize = 0;
        while i < tenants.len()
            invariant
                i <= tenants@.len(),
                tenants@ == state.tenants,
                stores@.len() == tenants@.len(),
                state.stores.len() == tenants@.len(),
                forall|j: int|
                    0 <= j < state.stores.len() ==> (#[trigger] state.stores[j]) is Some,
                forall|j: int| i <= j < stores@.len() ==> stores@[j] == state.stores[j],
                by_name@ == stores_by_name(state.tenants, state.stores, i as int),
            decreases tenants@.len() - i,
        {
            let slot = stores[i].take();
            if let Some(store) = slot {
                by_name.insert(tenants[i].clone(), store);
            }
            i += 1;
        }
        proof {
            law_every_tenant_has_its_store(state.tenants, state.stores);
        }
        Some(Ok(by_name))
    }
}

/// One thing that happens to an initialization.
pub ghost enum InitStep<S> {
    /// The next tenant is asked for.
    Start,
    /// The creation of a tenant's store ends.
    Completion(int, StoreOutcome<S>),
}

impl<S> InitState<S> {
    /// The state after one step.
    pub open spec fn after_step(self, step: InitStep<S>) -> Self {
        match step {
            InitStep::Start => self.after_start(),
            InitStep::Completion(i, outcome) => self.after_completion(i, outcome),
        }
    }

    /// The state after a sequence of steps.
    pub open spec fn after(self, steps: Seq<InitStep<S>>) -> Self
        decreases steps.len(),
    {
        if steps.len() == 0 {
            self
        } else {
            self.after(steps.drop_last()).after_step(steps.last())
        }
    }

    /// How many steps can still make a difference.
    pub open spec fn work_left(self) -> int {
        if self.failure is Some {
            0
        } else {
            2 * (self.tenants.len() - self.started) + self.in_flight().len()
        }
    }
}

/// Bounded concurrency: whatever happens, and in whatever order, never more
/// stores are being created at once than there are permits, which are never more
/// than [`MAX_CONCURRENT_STORES`] nor than there are tenants.
pub proof fn law_concurrency_is_bounded<S>(tenants: Seq<String>, steps: Seq<InitStep<S>>)
    requires
        distinct_names(tenants),
    ensures
        InitState::<S>::initial(tenants).after(steps).wf(),
        InitState::<S>::initial(tenants).after(steps).tenants == tenants,
        InitState::<S>::initial(tenants).after(steps).in_flight().finite(),
        InitState::<S>::initial(tenants).after(steps).in_flight().len() <= concurrency_limit(
            tenants.len(),
        ),
        concurrency_limit(tenants.len()) <= MAX_CONCURRENT_STORES,
        concurrency_limit(tenants.len()) <= tenants.len(),
    decreases steps.len(),
{
    let start = InitState::<S>::initial(tenants);
    if steps.len() == 0 {
        assert(start.in_flight() =~= Set::empty());
    } else {
        law_concurrency_is_bounded(tenants, steps.drop_last());
        let before = start.after(steps.drop_last());
        match steps.last() {
            InitStep::Start => {
                if before.can_start() {
                    lemma_start(before);
                }
            },
            InitStep::Completion(i, outcome) => {
                if before.in_flight().contains(i) {
                    lemma_completion(before, i, outcome);
                }
            },
        }
    }
}

/// No stall: while the outcome is open and no tenant may be started, some store
/// is being created, so there is a completion to wait for.
pub proof fn law_no_stall<S>(s: InitState<S>)
    requires
        s.wf(),
        !s.finished(),
        !s.can_start(),
    ensures
        s.in_flight().len() > 0,
{
    lemma_finished(s);
}

/// No idle permit: after as many starts as are allowed, every permit is in use
/// or every tenant has been started.
pub proof fn law_no_idle_permit<S>(s: InitState<S>)
    requires
        s.wf(),
        s.failure is None,
        !s.can_start(),
    ensures
        s.in_flight().len() == s.limit() || s.started == s.tenants.len(),
{
}

/// No tenant is started twice: two starts that are allowed, at different places
/// of one sequence of steps, name different tenants, the later one a later tenant.
pub proof fn law_no_tenant_starts_twice<S>(
    tenants: Seq<String>,
    steps: Seq<InitStep<S>>,
    i: int,
    j: int,
)
    requires
        0 <= i < j < steps.len(),
        steps[i] is Start,
        steps[j] is Start,
        InitState::<S>::initial(tenants).after(steps.take(i)).can_start(),
        InitState::<S>::initial(tenants).after(steps.take(j)).can_start(),
    ensures
        InitState::<S>::initial(tenants).after(steps.take(i)).started < InitState::<S>::initial(
            tenants,
        ).after(steps.take(j)).started,
{
    let start = InitState::<S>::initial(tenants);
    assert(steps.take(i + 1).drop_last() =~= steps.take(i));
    lemma_started_grows(start, steps.take(j), i + 1);
    assert(steps.take(j).take(i + 1) =~= steps.take(i + 1));
}

proof fn lemma_started_grows<S>(s: InitState<S>, steps: Seq<InitStep<S>>, k: int)
    requires
        0 <= k <= steps.len(),
    ensures
        s.after(steps.take(k)).started <= s.after(steps).started,
    decreases steps.len(),
{
    if k == steps.len() {
        assert(steps.take(k) =~= steps);
    } else {
        lemma_started_grows(s, steps.drop_last(), k);
        assert(steps.drop_last().take(k) =~= steps.take(k));
    }
}

/// Termination: every start that is allowed, and every completion of a tenant in
/// flight, leaves strictly less to do, and where nothing is left the outcome is
/// settled.
pub proof fn law_work_runs_out<S>(s: InitState<S>, step: InitStep<S>)
    requires
        s.wf(),
    ensures
        s.work_left() >= 0,
        step is Start && s.can_start() ==> s.after_step(step).work_left() < s.work_left(),
        (step matches InitStep::Completion(i, outcome) && s.in_flight().contains(i))
            ==> s.after_step(step).work_left() < s.work_left(),
        s.work_left() == 0 <==> s.finished(),
{
    lemma_finished(s);
    match step {
        InitStep::Start => {
            if s.can_start() {
                lemma_start(s);
            }
        },
        InitStep::Completion(i, outcome) => {
            if s.in_flight().contains(i) {
                lemma_completion(s, i, outcome);
            }
        },
    }
}

/// The first failure is final: nothing that happens afterwards starts a tenant,
/// adds a store or replaces the failure.
pub proof fn law_failure_is_final<S>(s: InitState<S>, steps: Seq<InitStep<S>>)
    requires
        s.failure is Some,
    ensures
        s.after(steps) == s,
    decreases steps.len(),
{
    if steps.len() > 0 {
        law_failure_is_final(s, steps.drop_last());
    }
}

/// A failure of a tenant in flight fails the whole, with an error that names
/// the tenant and the cause.
pub proof fn law_one_failure_fails_all<S>(s: InitState<S>, i: int, cause: String)
    requires
        s.wf(),
        s.in_flight().contains(i),
    ensures
        s.after_completion(i, StoreOutcome::CreationFailed(cause)).finished(),
        s.after_completion(i, StoreOutcome::CreationFailed(cause)).failure == Some(
            InitError::StoreCreation { tenant: s.tenants[i], cause },
        ),
        s.after_completion(i, StoreOutcome::PermitDenied).finished(),
        s.after_completion(i, StoreOutcome::PermitDenied).failure == Some(
            InitError::PermitDenied,
        ),
{
}

/// Nothing is made up: a store that is there was delivered for its tenant, and a
/// failure is that of a completion that failed. So an initialization in which no
/// creation fails does not fail.
pub proof fn law_outcomes_were_delivered<S>(tenants: Seq<String>, steps: Seq<InitStep<S>>)
    requires
        distinct_names(tenants),
    ensures
        ({
            let s = InitState::<S>::initial(tenants).after(steps);
            &&& forall|i: int|
                0 <= i < tenants.len() && (#[trigger] s.stores[i]) is Some ==> steps.contains(
                    InitStep::Completion(i, StoreOutcome::Created(s.stores[i]->0)),
                )
            &&& s.failure is Some ==> exists|i: int|
                0 <= i < tenants.len() && #[trigger] failed_with(tenants[i], i, s.failure->0, steps)
        }),
    decreases steps.len(),
{
    let start = InitState::<S>::initial(tenants);
    if steps.len() > 0 {
        let earlier = steps.drop_last();
        law_outcomes_were_delivered(tenants, earlier);
        law_concurrency_is_bounded(tenants, earlier);
        let before = start.after(earlier);
        let after = start.after(steps);
        assert(steps =~= earlier.push(steps.last()));
        assert forall|step: InitStep<S>| earlier.contains(step) implies steps.contains(step) by {
            let k = earlier.index_of(step);
            assert(steps[k] == step);
        }
        assert(steps.contains(steps.last())) by {
            assert(steps[steps.len() - 1] == steps.last());
        }
        if before.failure is Some {
            let i = choose|i: int|
                0 <= i < tenants.len() && #[trigger] failed_with(
                    tenants[i],
                    i,
                    before.failure->0,
                    earlier,
                );
            assert(after == before);
            assert(failed_with(tenants[i], i, after.failure->0, steps));
        } else if after.failure is Some {
            let i = steps.last()->Completion_0;
            assert(failed_with(tenants[i], i, after.failure->0, steps));
        }
        assert forall|i: int|
            0 <= i < tenants.len() && (#[trigger] after.stores[i]) is Some implies steps.contains(
            InitStep::Completion(i, StoreOutcome::Created(after.stores[i]->0)),
        ) by {
            if before.stores[i] != after.stores[i] {
                assert(steps.last() == InitStep::Completion(
                    i,
                    StoreOutcome::Created(after.stores[i]->0),
                ));
            }
        }
    }
}

/// Whether the error is that of a failed completion of tenant `i` among the
/// steps.
pub open spec fn failed_with<S>(
    tenant: String,
    i: int,
    error: InitError,
    steps: Seq<InitStep<S>>,
) -> bool {
    match error {
        InitError::PermitDenied => steps.contains(
            InitStep::Completion(i, StoreOutcome::PermitDenied),
        ),
        InitError::StoreCreation { tenant: named, cause } => {
            &&& named == tenant
            &&& steps.contains(InitStep::Completion(i, StoreOutcome::CreationFailed(cause)))
        },
    }
}

/// The stores by name hold exactly one store for every tenant: the one that was
/// made for it.
pub proof fn law_every_tenant_has_its_store<S>(tenants: Seq<String>, stores: Seq<Option<S>>)
    requires
        distinct_names(tenants),
        stores.len() == tenants.len(),
    ensures
        stores_by_name(tenants, stores, tenants.len() as int).dom().finite(),
        stores_by_name(tenants, stores, tenants.len() as int).len() == tenants.len(),
        forall|i: int|
            0 <= i < tenants.len() ==> {
                &&& stores_by_name(tenants, stores, tenants.len() as int).contains_key(
                    (#[trigger] tenants[i])@,
                )
                &&& stores_by_name(tenants, stores, tenants.len() as int)[tenants[i]@]
                    == stores[i]->0
            },
        forall|name: Seq<char>| #[trigger]
            stores_by_name(tenants, stores, tenants.len() as int).contains_key(name)
                ==> crate::settings::has_name(tenants, name),
{
    lemma_stores_by_name(tenants, stores, tenants.len() as int);
}

proof fn lemma_stores_by_name<S>(tenants: Seq<String>, stores: Seq<Option<S>>, n: int)
    requires
        distinct_names(tenants),
        0 <= n <= tenants.len(),
        stores.len() == tenants.len(),
    ensures
        stores_by_name(tenants, stores, n).dom().finite(),
        stores_by_name(tenants, stores, n).len() == n,
        forall|i: int|
            0 <= i < n ==> {
                &&& stores_by_name(tenants, stores, n).contains_key((#[trigger] tenants[i])@)
                &&& stores_by_name(tenants, stores, n)[tenants[i]@] == stores[i]->0
            },
        forall|name: Seq<char>| #[trigger]
            stores_by_name(tenants, stores, n).contains_key(name) ==> exists|i: int|
                0 <= i < n && (#[trigger] tenants[i])@ == name,
    decreases n,
{
    if n > 0 {
        lemma_stores_by_name(tenants, stores, n - 1);
        let before = stores_by_name(tenants, stores, n - 1);
        assert(!before.contains_key(tenants[n - 1]@));
        let now = stores_by_name(tenants, stores, n);
        assert forall|name: Seq<char>| #[trigger] now.contains_key(name) implies exists|i: int|
            0 <= i < n && (#[trigger] tenants[i])@ == name by {
            if before.contains_key(name) {
                let i = choose|i: int| 0 <= i < n - 1 && (#[trigger] tenants[i])@ == name;
                assert(tenants[i]@ == name);
            } else {
                assert(tenants[n - 1]@ == name);
            }
        }
    }
}

/// Where there are no more tenants than permits can be, all of them are started
/// before any store has to be there.
pub proof fn law_small_sets_start_at_once<S>(tenants: Seq<String>)
    requires
        distinct_names(tenants),
        tenants.len() <= MAX_CONCURRENT_STORES,
    ensures
        InitState::<S>::initial(tenants).after(
            Seq::new(tenants.len(), |i: int| InitStep::<S>::Start),
        ) == (InitState { started: tenants.len() as int, ..InitState::<S>::initial(tenants) }),
{
    lemma_starts::<S>(tenants, tenants.len());
}

proof fn lemma_starts<S>(tenants: Seq<String>, n: nat)
    requires
        distinct_names(tenants),
        n <= tenants.len() <= MAX_CONCURRENT_STORES,
    ensures
        InitState::<S>::initial(tenants).after(Seq::new(n, |i: int| InitStep::<S>::Start)) == (
        InitState { started: n as int, ..InitState::<S>::initial(tenants) }),
        InitState::<S>::initial(tenants).after(
            Seq::new(n, |i: int| InitStep::<S>::Start),
        ).in_flight().len() == n,
    decreases n,
{
    let start = InitState::<S>::initial(tenants);
    let steps = Seq::new(n, |i: int| InitStep::<S>::Start);
    law_concurrency_is_bounded(tenants, steps);
    if n == 0 {
        assert(start.in_flight() =~= Set::empty());
    } else {
        let m = (n - 1) as nat;
        let fewer = Seq::new(m, |i: int| InitStep::<S>::Start);
        lemma_starts::<S>(tenants, m);
        law_concurrency_is_bounded(tenants, fewer);
        assert(steps.drop_last() =~= fewer);
        lemma_start(start.after(fewer));
    }
}

/// Without tenants the outcome is settled from the start: no stores, no failure.
pub proof fn law_no_tenants_no_stores<S>(tenants: Seq<String>)
    requires
        tenants.len() == 0,
    ensures
        InitState::<S>::initial(tenants).finished(),
        InitState::<S>::initial(tenants).failure is None,
        stores_by_name(tenants, InitState::<S>::initial(tenants).stores, 0) == Map::<
            Seq<char>,
            S,
        >::empty(),
{
}

} // verus!
