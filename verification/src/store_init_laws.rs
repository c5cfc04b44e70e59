//! What the initialization of the stores owes to the tenants, stated step by step.

use crate::errors::InitError;
use crate::settings::distinct_names;
use crate::store_init::{concurrency_limit, InitState, InitStep, StoreOutcome};
use vstd::prelude::*;

verus! {

/// Nothing has happened at the beginning, however many tenants there are: none
/// started, none in flight, no store, no failure.
pub proof fn law_nothing_is_in_flight_at_the_beginning<S>(tenants: Seq<String>)
    ensures
        InitState::<S>::initial(tenants).tenants == tenants,
        InitState::<S>::initial(tenants).started == 0,
        InitState::<S>::initial(tenants).in_flight() == Set::<int>::empty(),
        InitState::<S>::initial(tenants).stores.len() == tenants.len(),
        forall|i: int|
            0 <= i < tenants.len() ==> (#[trigger] InitState::<S>::initial(tenants).stores[i])
                is None,
        InitState::<S>::initial(tenants).failure is None,
{
    assert(InitState::<S>::initial(tenants).in_flight() =~= Set::<int>::empty());
}

/// There are ten permits, or one for each tenant where there are fewer tenants.
pub proof fn law_ten_permits_or_one_each(tenant_count: nat)
    ensures
        concurrency_limit(tenant_count) <= 10,
        concurrency_limit(tenant_count) <= tenant_count,
        concurrency_limit(tenant_count) == 10 || concurrency_limit(tenant_count) == tenant_count,
{
}

/// A tenant is in flight exactly as long as it is started, has no store, and
/// nothing has failed.
pub proof fn law_who_is_in_flight<S>(s: InitState<S>, i: int)
    ensures
        s.in_flight().contains(i) <==> s.failure is None && 0 <= i < s.started && s.stores[i]
            is None,
        s.limit() == concurrency_limit(s.tenants.len()),
{
}

/// While nothing has failed, a tenant is left and a permit is free, asking for the
/// next tenant starts it, and that is all that changes; else nothing changes.
pub proof fn law_what_a_start_does<S>(s: InitState<S>)
    ensures
        ({
            let free = s.in_flight().len() < 10 && s.in_flight().len() < s.tenants.len();
            if s.failure is None && s.started < s.tenants.len() && free {
                &&& s.can_start()
                &&& s.after_start() == (InitState {
                    tenants: s.tenants,
                    started: s.started + 1,
                    stores: s.stores,
                    failure: None,
                })
            } else {
                &&& !s.can_start()
                &&& s.after_start() == s
            }
        }),
{
}

/// A store that is delivered for a tenant in flight is kept for that tenant, and
/// nothing else changes; a failure of a tenant in flight is kept, with the tenant
/// and the cause, and nothing else changes; and what is said of any other tenant
/// changes nothing.
pub proof fn law_what_a_completion_does<S>(
    s: InitState<S>,
    i: int,
    store: S,
    cause: String,
    outcome: StoreOutcome<S>,
)
    requires
        s.stores.len() == s.tenants.len(),
        s.started <= s.tenants.len(),
    ensures
        if s.failure is None && 0 <= i < s.started && s.stores[i] is None {
            &&& s.after_completion(i, StoreOutcome::Created(store)) == (InitState {
                tenants: s.tenants,
                started: s.started,
                stores: s.stores.update(i, Some(store)),
                failure: None,
            })
            &&& s.after_completion(i, StoreOutcome::PermitDenied) == (InitState {
                tenants: s.tenants,
                started: s.started,
                stores: s.stores,
                failure: Some(InitError::PermitDenied),
            })
            &&& s.after_completion(i, StoreOutcome::CreationFailed(cause)) == (InitState {
                tenants: s.tenants,
                started: s.started,
                stores: s.stores,
                failure: Some(InitError::StoreCreation { tenant: s.tenants[i], cause }),
            })
        } else {
            s.after_completion(i, outcome) == s
        },
{
}

/// The outcome is settled exactly by a failure, or by a store for every tenant.
pub proof fn law_when_it_is_settled<S>(s: InitState<S>)
    requires
        s.stores.len() == s.tenants.len(),
    ensures
        s.failure is Some ==> s.finished(),
        s.failure is None ==> (s.finished() <==> forall|i: int|
            0 <= i < s.tenants.len() ==> (#[trigger] s.stores[i]) is Some),
{
}

/// The order in which stores become ready does not matter: the stores of two
/// tenants, delivered one after the other, are kept alike either way.
pub proof fn law_order_of_delivery_does_not_matter<S>(
    s: InitState<S>,
    i: int,
    j: int,
    a: S,
    b: S,
)
    requires
        s.wf(),
        i != j,
    ensures
        s.after_completion(i, StoreOutcome::Created(a)).after_completion(
            j,
            StoreOutcome::Created(b),
        ) == s.after_completion(j, StoreOutcome::Created(b)).after_completion(
            i,
            StoreOutcome::Created(a),
        ),
{
    let one = s.after_completion(i, StoreOutcome::Created(a)).after_completion(
        j,
        StoreOutcome::Created(b),
    );
    let two = s.after_completion(j, StoreOutcome::Created(b)).after_completion(
        i,
        StoreOutcome::Created(a),
    );
    assert(one.stores =~= two.stores);
}

/// A store that is there stays there, and a tenant that was started stays started,
/// whatever happens; and who the tenants are does not change.
pub proof fn law_stores_stay<S>(s: InitState<S>, steps: Seq<InitStep<S>>, i: int)
    requires
        s.stores.len() == s.tenants.len(),
        0 <= s.started <= s.tenants.len(),
        0 <= i < s.stores.len(),
        s.stores[i] is Some,
    ensures
        s.after(steps).tenants == s.tenants,
        s.after(steps).stores.len() == s.stores.len(),
        s.started <= s.after(steps).started <= s.tenants.len(),
        s.after(steps).stores[i] == s.stores[i],
    decreases steps.len(),
{
    if steps.len() > 0 {
        law_stores_stay(s, steps.drop_last(), i);
    }
}

/// A sequence of steps is taken one by one, from first to last.
pub proof fn law_steps_are_taken_in_turn<S>(
    s: InitState<S>,
    steps: Seq<InitStep<S>>,
    i: int,
    outcome: StoreOutcome<S>,
)
    ensures
        s.after(Seq::empty()) == s,
        s.after(steps.push(InitStep::Start)) == s.after(steps).after_start(),
        s.after(steps.push(InitStep::Completion(i, outcome))) == s.after(steps).after_completion(
            i,
            outcome,
        ),
{
    assert(steps.push(InitStep::Start).drop_last() =~= steps);
    assert(steps.push(InitStep::Completion(i, outcome)).drop_last() =~= steps);
}

/// Whether step `k` is the allowed start that names tenant `i`.
pub open spec fn names<S>(tenants: Seq<String>, steps: Seq<InitStep<S>>, k: int, i: int) -> bool {
    let before = InitState::<S>::initial(tenants).after(steps.take(k));
    &&& 0 <= k < steps.len()
    &&& steps[k] is Start
    &&& before.can_start()
    &&& before.started == i
}

/// Every tenant that counts as started was named: whatever the steps were, there
/// is an allowed start among them that named it.
pub proof fn law_every_started_tenant_was_named<S>(
    tenants: Seq<String>,
    steps: Seq<InitStep<S>>,
    i: int,
)
    requires
        0 <= i < InitState::<S>::initial(tenants).after(steps).started,
    ensures
        exists|k: int| #[trigger] names(tenants, steps, k, i),
    decreases steps.len(),
{
    let start = InitState::<S>::initial(tenants);
    if steps.len() > 0 {
        let earlier = steps.drop_last();
        let before = start.after(earlier);
        if i < before.started {
            law_every_started_tenant_was_named(tenants, earlier, i);
            let k = choose|k: int| #[trigger] names(tenants, earlier, k, i);
            assert(earlier.take(k) =~= steps.take(k));
            assert(earlier[k] == steps[k]);
            assert(names(tenants, steps, k, i));
        } else {
            let k = steps.len() - 1;
            assert(steps.take(k) =~= earlier);
            assert(names(tenants, steps, k, i));
        }
    }
}

/// Where the whole has succeeded, every tenant was named by a start and had its
/// store delivered.
pub proof fn law_success_means_every_tenant_was_served<S>(
    tenants: Seq<String>,
    steps: Seq<InitStep<S>>,
    i: int,
)
    requires
        distinct_names(tenants),
        0 <= i < tenants.len(),
        InitState::<S>::initial(tenants).after(steps).finished(),
        InitState::<S>::initial(tenants).after(steps).failure is None,
    ensures
        exists|k: int| #[trigger] names(tenants, steps, k, i),
        steps.contains(
            InitStep::Completion(
                i,
                StoreOutcome::Created(
                    InitState::<S>::initial(tenants).after(steps).stores[i]->0,
                ),
            ),
        ),
{
    let s = InitState::<S>::initial(tenants).after(steps);
    crate::store_init::law_concurrency_is_bounded(tenants, steps);
    crate::store_init::law_outcomes_were_delivered(tenants, steps);
    assert(s.stores[i] is Some);
    assert(i < s.started);
    law_every_started_tenant_was_named(tenants, steps, i);
}

} // verus!
