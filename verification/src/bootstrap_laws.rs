//! What each stage owes to its report, stated stage by stage.

use crate::bootstrap::{BootstrapStep, Stage, StageReport};
use crate::errors::{AppError, InitError};
use vstd::prelude::*;

verus! {

/// A stage that fails ends the whole, whatever the reason, with the error of that
/// stage, which holds the reason.
pub proof fn law_every_failure_ends_it<C, S, M>(
    conf: C,
    state: S,
    why: String,
    init: InitError,
    app: AppError,
)
    ensures
        Stage::<C, S, M>::LoadSettings.after(StageReport::SettingsLoaded(Err(why))) == Stage::<
            C,
            S,
            M,
        >::Finished(Err(AppError::Configuration(why))),
        (Stage::<C, S, M>::ValidateSettings { conf }).after(
            StageReport::SettingsValidated(Err(why)),
        ) == Stage::<C, S, M>::Finished(Err(AppError::Validation(why))),
        (Stage::<C, S, M>::SetupLogging { conf }).after(StageReport::LoggingSetUp(Err(why)))
            == Stage::<C, S, M>::Finished(Err(AppError::Logging(why))),
        (Stage::<C, S, M>::CreateState { conf }).after(StageReport::StateCreated(Err(why)))
            == Stage::<C, S, M>::Finished(Err(AppError::State(why))),
        (Stage::<C, S, M>::InitializeStores { conf, state }).after(
            StageReport::StoresInitialized(Err(init)),
        ) == Stage::<C, S, M>::Finished(Err(AppError::Stores(init))),
        Stage::<C, S, M>::ApplicationRunning.after(StageReport::ApplicationEnded(Err(app)))
            == Stage::<C, S, M>::Finished(Err(app)),
{
}

/// A stage that succeeds leads to the next one, which holds what there was and
/// what was made; and the start leads from the application that is due to the one
/// that runs.
pub proof fn law_every_success_leads_on<C, S, M>(conf: C, state: S, stores: M)
    ensures
        Stage::<C, S, M>::LoadSettings.after(StageReport::SettingsLoaded(Ok(conf))) == (Stage::<
            C,
            S,
            M,
        >::ValidateSettings { conf }),
        (Stage::<C, S, M>::ValidateSettings { conf }).after(
            StageReport::SettingsValidated(Ok(())),
        ) == (Stage::<C, S, M>::SetupLogging { conf }),
        (Stage::<C, S, M>::SetupLogging { conf }).after(StageReport::LoggingSetUp(Ok(()))) == (
        Stage::<C, S, M>::LogStartupInfo { conf }),
        (Stage::<C, S, M>::LogStartupInfo { conf }).after(StageReport::StartupInfoLogged) == (
        Stage::<C, S, M>::CreateState { conf }),
        (Stage::<C, S, M>::CreateState { conf }).after(StageReport::StateCreated(Ok(state))) == (
        Stage::<C, S, M>::InitializeStores { conf, state }),
        (Stage::<C, S, M>::InitializeStores { conf, state }).after(
            StageReport::StoresInitialized(Ok(stores)),
        ) == (Stage::<C, S, M>::RunApplication { state, stores }),
        (Stage::<C, S, M>::RunApplication { state, stores }).after_start() == Stage::<
            C,
            S,
            M,
        >::ApplicationRunning,
        Stage::<C, S, M>::ApplicationRunning.after(StageReport::ApplicationEnded(Ok(())))
            == Stage::<C, S, M>::Finished(Ok(())),
{
}

/// A stage waits for its own report: no other one changes it. Where the
/// application is due no report does, only its start; and the start changes
/// nothing anywhere else.
pub proof fn law_stages_wait_for_their_own_report<C, S, M>(
    stage: Stage<C, S, M>,
    report: StageReport<C, S, M>,
)
    ensures
        stage is LoadSettings && !(report is SettingsLoaded) ==> stage.after(report) == stage,
        stage is ValidateSettings && !(report is SettingsValidated) ==> stage.after(report)
            == stage,
        stage is SetupLogging && !(report is LoggingSetUp) ==> stage.after(report) == stage,
        stage is LogStartupInfo && !(report is StartupInfoLogged) ==> stage.after(report) == stage,
        stage is CreateState && !(report is StateCreated) ==> stage.after(report) == stage,
        stage is InitializeStores && !(report is StoresInitialized) ==> stage.after(report)
            == stage,
        stage is RunApplication ==> stage.after(report) == stage,
        stage is ApplicationRunning && !(report is ApplicationEnded) ==> stage.after(report)
            == stage,
        stage is Finished ==> stage.after(report) == stage,
        !(stage is RunApplication) ==> stage.after_start() == stage,
{
}

/// A sequence of steps is taken one by one, from first to last: a report as a
/// report, the start as the start.
pub proof fn law_steps_are_taken_in_turn<C, S, M>(
    stage: Stage<C, S, M>,
    steps: Seq<BootstrapStep<C, S, M>>,
    report: StageReport<C, S, M>,
)
    ensures
        stage.after_all(Seq::empty()) == stage,
        stage.after_all(steps.push(BootstrapStep::Report(report))) == stage.after_all(steps).after(
            report,
        ),
        stage.after_all(steps.push(BootstrapStep::Start)) == stage.after_all(steps).after_start(),
{
    assert(steps.push(BootstrapStep::Report(report)).drop_last() =~= steps);
    assert(steps.push(BootstrapStep::Start).drop_last() =~= steps);
}

} // verus!
