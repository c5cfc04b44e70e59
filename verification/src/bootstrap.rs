//! The way from the command line to the running application, stage by stage.
//!
//! Each stage is entered when the one before it has succeeded, and holds what the
//! ones before it have made; the first one that fails ends the whole, with an
//! error that says which it was.

use crate::application::{run_under_fresh_token, Application, DrainerStart, Lifecycle};
use crate::cancellation::fresh_token;
use crate::errors::{AppError, InitError};
use vstd::prelude::*;

verus! {

/// What is to be done next, and with what: the configuration, of type `C`, the
/// application state, of type `S`, and the stores, of type `M`.
pub enum Stage<C, S, M> {
    /// Load the configuration.
    LoadSettings,
    /// Validate it.
    ValidateSettings { conf: C },
    /// Set up logging.
    SetupLogging { conf: C },
    /// Log what may be told of the configuration.
    LogStartupInfo { conf: C },
    /// Create the application state.
    CreateState { conf: C },
    /// Initialize the tenant stores.
    InitializeStores { conf: C, state: S },
    /// Start the application.
    RunApplication { state: S, stores: M },
    /// The application runs.
    ApplicationRunning,
    /// All is done, with this outcome.
    Finished(Result<(), AppError>),
}

/// What became of a stage: what it made, or why it failed. Failures that have no
/// type of their own are described in words.
pub enum StageReport<C, S, M> {
    SettingsLoaded(Result<C, String>),
    SettingsValidated(Result<(), String>),
    LoggingSetUp(Result<(), String>),
    StartupInfoLogged,
    StateCreated(Result<S, String>),
    StoresInitialized(Result<M, InitError>),
    ApplicationEnded(Result<(), AppError>),
}

/// One thing that happens on the way: a report on a stage, or the start of the
/// application.
pub ghost enum BootstrapStep<C, S, M> {
    Report(StageReport<C, S, M>),
    Start,
}

impl<C, S, M> Stage<C, S, M> {
    /// The place of the stage in the order of stages.
    pub open spec fn rank(self) -> int {
        match self {
            Stage::LoadSettings => 0,
            Stage::ValidateSettings { .. } => 1,
            Stage::SetupLogging { .. } => 2,
            Stage::LogStartupInfo { .. } => 3,
            Stage::CreateState { .. } => 4,
            Stage::InitializeStores { .. } => 5,
            Stage::RunApplication { .. } => 6,
            Stage::ApplicationRunning => 7,
            Stage::Finished(_) => 8,
        }
    }

    /// The stage that follows when this one succeeds as reported: it keeps what
    /// there was and takes what was made.
    pub open spec fn successor(self, report: StageReport<C, S, M>) -> Self {
        match (self, report) {
            (Stage::LoadSettings, StageReport::SettingsLoaded(Ok(conf))) =>
                Stage::ValidateSettings { conf },
            (Stage::ValidateSettings { conf }, _) => Stage::SetupLogging { conf },
            (Stage::SetupLogging { conf }, _) => Stage::LogStartupInfo { conf },
            (Stage::LogStartupInfo { conf }, _) => Stage::CreateState { conf },
            (Stage::CreateState { conf }, StageReport::StateCreated(Ok(state))) =>
                Stage::InitializeStores { conf, state },
            (
                Stage::InitializeStores { conf, state },
                StageReport::StoresInitialized(Ok(stores)),
            ) => Stage::RunApplication { state, stores },
            (Stage::ApplicationRunning, _) => Stage::Finished(Ok(())),
            _ => self,
        }
    }

    /// The stage after a report. A report on another stage changes nothing.
    pub open spec fn after(self, report: StageReport<C, S, M>) -> Self {
        if report.rank() != self.rank() {
            self
        } else {
            match report.verdict() {
                Some(error) => Stage::Finished(Err(error)),
                None => self.successor(report),
            }
        }
    }

    /// The stage after the application was started, where that was due.
    pub open spec fn after_start(self) -> Self {
        if self is RunApplication {
            Stage::ApplicationRunning
        } else {
            self
        }
    }

    /// The stage after one step.
    pub open spec fn after_step(self, step: BootstrapStep<C, S, M>) -> Self {
        match step {
            BootstrapStep::Report(report) => self.after(report),
            BootstrapStep::Start => self.after_start(),
        }
    }

    /// The stage after a sequence of steps.
    pub open spec fn after_all(self, steps: Seq<BootstrapStep<C, S, M>>) -> Self
        decreases steps.len(),
    {
        if steps.len() == 0 {
            self
        } else {
            self.after_all(steps.drop_last()).after_step(steps.last())
        }
    }
}

impl<C, S, M> StageReport<C, S, M> {
    /// The place of the stage that is reported on.
    pub open spec fn rank(self) -> int {
        match self {
            StageReport::SettingsLoaded(_) => 0,
            StageReport::SettingsValidated(_) => 1,
            StageReport::LoggingSetUp(_) => 2,
            StageReport::StartupInfoLogged => 3,
            StageReport::StateCreated(_) => 4,
            StageReport::StoresInitialized(_) => 5,
            StageReport::ApplicationEnded(_) => 7,
        }
    }

    /// The error that the whole ends with, if the stage failed.
    pub open spec fn verdict(self) -> Option<AppError> {
        match self {
            StageReport::SettingsLoaded(Err(e)) => Some(AppError::Configuration(e)),
            StageReport::SettingsValidated(Err(e)) => Some(AppError::Validation(e)),
            StageReport::LoggingSetUp(Err(e)) => Some(AppError::Logging(e)),
            StageReport::StateCreated(Err(e)) => Some(AppError::State(e)),
            StageReport::StoresInitialized(Err(e)) => Some(AppError::Stores(e)),
            StageReport::ApplicationEnded(Err(e)) => Some(e),
            _ => None,
        }
    }
}

/// The stage that follows a stage and its report.
pub fn bootstrap_and_run<C, S, M>(
    stage: Stage<C, S, M>,
    report: StageReport<C, S, M>,
) -> (next: Stage<C, S, M>)
    ensures
        next == stage.after(report),
{
    match (stage, report) {
        (Stage::LoadSettings, StageReport::SettingsLoaded(result)) => match result {
            Ok(conf) => Stage::ValidateSettings { conf },
            Err(e) => Stage::Finished(Err(AppError::Configuration(e))),
        },
        (Stage::ValidateSettings { conf }, StageReport::SettingsValidated(result)) => match result {
            Ok(()) => Stage::SetupLogging { conf },
            Err(e) => Stage::Finished(Err(AppError::Validation(e))),
        },
        (Stage::SetupLogging { conf }, StageReport::LoggingSetUp(result)) => match result {
            Ok(()) => Stage::LogStartupInfo { conf },
            Err(e) => Stage::Finished(Err(AppError::Logging(e))),
        },
        (Stage::LogStartupInfo { conf }, StageReport::StartupInfoLogged) => Stage::CreateState {
            conf,
        },
        (Stage::CreateState { conf }, StageReport::StateCreated(result)) => match result {
            Ok(state) => Stage::InitializeStores { conf, state },
            Err(e) => Stage::Finished(Err(AppError::State(e))),
        },
        (
            Stage::InitializeStores { conf: _, state },
            StageReport::StoresInitialized(result),
        ) => match result {
            Ok(stores) => Stage::RunApplication { state, stores },
            Err(e) => Stage::Finished(Err(AppError::Stores(e))),
        },
        (Stage::ApplicationRunning, StageReport::ApplicationEnded(result)) => match result {
            Ok(()) => Stage::Finished(Ok(())),
            Err(e) => Stage::Finished(Err(e)),
        },
        (stage, _) => stage,
    }
}

/// Starts the application, where the stages have come to that point: under a new
/// cancellation token, and with the drainer service to be started with the state
/// and the stores that were made.
pub fn start_application<C, S, M>(stage: Stage<C, S, M>) -> (next: (
    Stage<C, S, M>,
    Option<(Application, DrainerStart<S, M>)>,
))
    ensures
        next.0 == stage.after_start(),
        match stage {
            Stage::RunApplication { state, stores } => {
                &&& next.1 matches Some((app, drainer))
                &&& app.wf()
                &&& app.state() == Lifecycle::initial()
                &&& app.has_fresh_token()
                &&& drainer.state == state
                &&& drainer.stores == stores
            },
            _ => next.1 is None,
        },
{
    match stage {
        Stage::RunApplication { state, stores } => {
            let started = run_under_fresh_token(state, stores, fresh_token());
            (Stage::ApplicationRunning, Some(started))
        },
        stage => (stage, None),
    }
}

/// Whether step `i` is the success by which `stage` is entered from the stage
/// before it.
pub open spec fn enters<C, S, M>(
    steps: Seq<BootstrapStep<C, S, M>>,
    i: int,
    stage: Stage<C, S, M>,
) -> bool {
    let before = Stage::<C, S, M>::LoadSettings.after_all(steps.take(i));
    &&& 0 <= i < steps.len()
    &&& before.rank() == stage.rank() - 1
    &&& before.after_step(steps[i]) == stage
    &&& match steps[i] {
        BootstrapStep::Report(report) => report.rank() == before.rank() && report.verdict() is None,
        BootstrapStep::Start => before is RunApplication,
    }
}

/// A stage is entered from the one before it and by its success alone: whatever
/// happened, where it leads to a stage, an earlier part of it led to the one
/// before, and the next step was that this one succeeded.
pub proof fn law_stages_run_in_order<C, S, M>(steps: Seq<BootstrapStep<C, S, M>>)
    requires
        Stage::<C, S, M>::LoadSettings.after_all(steps) !is LoadSettings,
        !(Stage::<C, S, M>::LoadSettings.after_all(steps) matches Stage::Finished(Err(_))),
    ensures
        exists|i: int| #[trigger]
            enters(steps, i, Stage::<C, S, M>::LoadSettings.after_all(steps)),
    decreases steps.len(),
{
    let start = Stage::<C, S, M>::LoadSettings;
    let stage = start.after_all(steps);
    if steps.len() > 0 {
        let earlier = steps.drop_last();
        let before = start.after_all(earlier);
        if before == stage {
            law_stages_run_in_order(earlier);
            let i = choose|i: int| #[trigger] enters(earlier, i, stage);
            assert(earlier.take(i) =~= steps.take(i));
            assert(earlier[i] == steps[i]);
            assert(enters(steps, i, stage));
        } else {
            let i = steps.len() - 1;
            assert(steps.take(i) =~= earlier);
            assert(enters(steps, i, stage));
        }
    }
}

/// Each stage is entered at most once. So the application is started at most
/// once.
pub proof fn law_each_stage_is_entered_once<C, S, M>(
    steps: Seq<BootstrapStep<C, S, M>>,
    i: int,
    j: int,
    a: Stage<C, S, M>,
    b: Stage<C, S, M>,
)
    requires
        enters(steps, i, a),
        enters(steps, j, b),
        a.rank() == b.rank(),
    ensures
        i == j,
        a == b,
{
    lemma_not_entered_before(steps, i, j, a, b);
    lemma_not_entered_before(steps, j, i, b, a);
}

proof fn lemma_not_entered_before<C, S, M>(
    steps: Seq<BootstrapStep<C, S, M>>,
    i: int,
    j: int,
    a: Stage<C, S, M>,
    b: Stage<C, S, M>,
)
    requires
        enters(steps, i, a),
        enters(steps, j, b),
        a.rank() == b.rank(),
    ensures
        i >= j,
{
    let start = Stage::<C, S, M>::LoadSettings;
    if i < j {
        assert(steps.take(i + 1).drop_last() =~= steps.take(i));
        assert(start.after_all(steps.take(i + 1)) == a);
        lemma_never_goes_back(start, steps.take(j), i + 1);
        assert(steps.take(j).take(i + 1) =~= steps.take(i + 1));
    }
}

proof fn lemma_never_goes_back<C, S, M>(
    stage: Stage<C, S, M>,
    steps: Seq<BootstrapStep<C, S, M>>,
    k: int,
)
    requires
        0 <= k <= steps.len(),
    ensures
        stage.after_all(steps.take(k)).rank() <= stage.after_all(steps).rank(),
    decreases steps.len(),
{
    if k == steps.len() {
        assert(steps.take(k) =~= steps);
    } else {
        lemma_never_goes_back(stage, steps.drop_last(), k);
        assert(steps.drop_last().take(k) =~= steps.take(k));
    }
}

/// Nothing is made up on the way: the configuration, the state and the stores that
/// a stage holds are those that were reported. So the application is started with
/// the state that was created and the stores that were initialized.
pub proof fn law_stages_hold_what_was_made<C, S, M>(steps: Seq<BootstrapStep<C, S, M>>)
    ensures
        match Stage::<C, S, M>::LoadSettings.after_all(steps) {
            Stage::ValidateSettings { conf } => loaded(steps, conf),
            Stage::SetupLogging { conf } => loaded(steps, conf),
            Stage::LogStartupInfo { conf } => loaded(steps, conf),
            Stage::CreateState { conf } => loaded(steps, conf),
            Stage::InitializeStores { conf, state } => {
                &&& loaded(steps, conf)
                &&& steps.contains(BootstrapStep::Report(StageReport::StateCreated(Ok(state))))
            },
            Stage::RunApplication { state, stores } => {
                &&& steps.contains(BootstrapStep::Report(StageReport::StateCreated(Ok(state))))
                &&& steps.contains(
                    BootstrapStep::Report(StageReport::StoresInitialized(Ok(stores))),
                )
            },
            _ => true,
        },
    decreases steps.len(),
{
    if steps.len() > 0 {
        let earlier = steps.drop_last();
        law_stages_hold_what_was_made(earlier);
        assert forall|step: BootstrapStep<C, S, M>| #[trigger]
            earlier.contains(step) implies steps.contains(step) by {
            let k = earlier.index_of(step);
            assert(steps[k] == step);
        }
        assert(steps.contains(steps.last())) by {
            assert(steps[steps.len() - 1] == steps.last());
        }
    }
}

/// Whether the configuration is one that was reported as loaded.
pub open spec fn loaded<C, S, M>(steps: Seq<BootstrapStep<C, S, M>>, conf: C) -> bool {
    steps.contains(BootstrapStep::Report(StageReport::SettingsLoaded(Ok(conf))))
}

/// The first failure ends the whole: nothing is done after it, and the outcome
/// is the error of the stage that failed.
pub proof fn law_first_failure_ends_it<C, S, M>(
    stage: Stage<C, S, M>,
    report: StageReport<C, S, M>,
    later: Seq<BootstrapStep<C, S, M>>,
)
    requires
        report.rank() == stage.rank(),
        report.verdict() is Some,
    ensures
        stage.after(report).after_all(later) == Stage::<C, S, M>::Finished(
            Err(report.verdict()->0),
        ),
{
    law_finished_is_final(Err(report.verdict()->0), later);
}

/// Once all is done, it stays done.
pub proof fn law_finished_is_final<C, S, M>(
    result: Result<(), AppError>,
    later: Seq<BootstrapStep<C, S, M>>,
)
    ensures
        Stage::<C, S, M>::Finished(result).after_all(later) == Stage::<C, S, M>::Finished(result),
    decreases later.len(),
{
    if later.len() > 0 {
        law_finished_is_final(result, later.drop_last());
    }
}

/// Where every stage succeeds, the application is started with the state and the
/// stores that were made, and the outcome of the whole is that of the application.
pub proof fn law_outcome_is_that_of_the_application<C, S, M>(
    conf: C,
    state: S,
    stores: M,
    result: Result<(), AppError>,
)
    ensures
        ({
            let due = Stage::<C, S, M>::LoadSettings.after(
                StageReport::SettingsLoaded(Ok(conf)),
            ).after(StageReport::SettingsValidated(Ok(()))).after(
                StageReport::LoggingSetUp(Ok(())),
            ).after(StageReport::StartupInfoLogged).after(
                StageReport::StateCreated(Ok(state)),
            ).after(StageReport::StoresInitialized(Ok(stores)));
            let end = due.after_start().after(StageReport::ApplicationEnded(result));
            &&& due == Stage::<C, S, M>::RunApplication { state, stores }
            &&& match result {
                Ok(_) => end == Stage::<C, S, M>::Finished(Ok(())),
                Err(e) => end == Stage::<C, S, M>::Finished(Err(e)),
            }
        }),
{
}

} // verus!
