//! What can go wrong while the drainer starts, runs and stops, and the words in
//! which it is reported.
//!
//! Every error has two texts. Its message is the outermost description alone;
//! its report goes on with each cause in turn, a colon and a space between them.

use vstd::prelude::*;

verus! {

/// Two texts put together.
pub(crate) fn join(first: &str, second: &str) -> (text: String)
    ensures
        text@ == first@ + second@,
{
    first.to_owned().concat(second)
}

/// A description followed by its cause.
pub open spec fn with_cause(description: Seq<char>, cause: Seq<char>) -> Seq<char> {
    description + ": "@ + cause
}

fn join_cause(description: &str, cause: &str) -> (text: String)
    ensures
        text@ == with_cause(description@, cause@),
{
    join(description, ": ").concat(cause)
}

/// Why the tenant stores could not be initialized.
#[derive(Debug)]
pub enum InitError {
    /// No permit to create a store could be had.
    PermitDenied,
    /// Creating the store of `tenant` failed.
    StoreCreation { tenant: String, cause: String },
}

impl InitError {
    /// The outermost description.
    pub open spec fn message_text(self) -> Seq<char> {
        "Failed to initialize one or more tenant stores"@
    }

    /// The causes below the message.
    pub open spec fn cause_text(self) -> Seq<char> {
        match self {
            InitError::PermitDenied => "Failed to acquire semaphore permit"@,
            InitError::StoreCreation { tenant, cause } => with_cause(
                "Failed to create store for tenant: "@ + tenant@,
                cause@,
            ),
        }
    }

    /// The message and its causes.
    pub open spec fn report_text(self) -> Seq<char> {
        with_cause(self.message_text(), self.cause_text())
    }

    /// The outermost description of the error.
    pub fn message(&self) -> (text: String)
        ensures
            text@ == self.message_text(),
    {
        "Failed to initialize one or more tenant stores".to_owned()
    }

    /// The description of the error with its causes.
    pub fn report(&self) -> (text: String)
        ensures
            text@ == self.report_text(),
    {
        let cause = match self {
            InitError::PermitDenied => "Failed to acquire semaphore permit".to_owned(),
            InitError::StoreCreation { tenant, cause } => {
                let failed = join("Failed to create store for tenant: ", tenant.as_str());
                join_cause(failed.as_str(), cause.as_str())
            },
        };
        join_cause("Failed to initialize one or more tenant stores", cause.as_str())
    }
}

/// Why the drainer ended with a failure.
#[derive(Debug)]
pub enum AppError {
    /// The configuration could not be had.
    Configuration(String),
    /// The configuration is not valid.
    Validation(String),
    /// Logging could not be set up.
    Logging(String),
    /// The application state could not be created.
    State(String),
    /// The tenant stores could not be initialized.
    Stores(InitError),
    /// The health server ended with an error.
    HealthServerFailed(String),
    /// The task of the health server panicked.
    HealthServerPanicked(String),
    /// The drainer service ended with an error.
    DrainerFailed(String),
    /// The task of the drainer service panicked.
    DrainerPanicked(String),
}

impl AppError {
    /// The outermost description.
    pub open spec fn message_text(self) -> Seq<char> {
        match self {
            AppError::Configuration(_) => "Unable to construct application configuration"@,
            AppError::Validation(_) => "Failed to validate drainer configuration"@,
            AppError::Logging(_) => "Failed to setup logging"@,
            AppError::State(_) => "Failed to create application state"@,
            AppError::Stores(_) => "Failed to initialize tenant stores"@,
            AppError::HealthServerFailed(e) => "Health server failed: "@ + e@,
            AppError::HealthServerPanicked(e) => "Health server task panicked: "@ + e@,
            AppError::DrainerFailed(_) => "Drainer service failed"@,
            AppError::DrainerPanicked(e) => "Drainer service task panicked: "@ + e@,
        }
    }

    /// The causes below the message, where there are any.
    pub open spec fn cause_text(self) -> Option<Seq<char>> {
        match self {
            AppError::Configuration(e) => Some(e@),
            AppError::Validation(e) => Some(e@),
            AppError::Logging(e) => Some(e@),
            AppError::State(e) => Some(e@),
            AppError::Stores(e) => Some(e.report_text()),
            AppError::HealthServerFailed(_) => None,
            AppError::HealthServerPanicked(_) => None,
            AppError::DrainerFailed(e) => Some(e@),
            AppError::DrainerPanicked(_) => None,
        }
    }

    /// The message and its causes.
    pub open spec fn report_text(self) -> Seq<char> {
        match self.cause_text() {
            Some(cause) => with_cause(self.message_text(), cause),
            None => self.message_text(),
        }
    }

    /// The outermost description of the error.
    pub fn message(&self) -> (text: String)
        ensures
            text@ == self.message_text(),
    {
        match self {
            AppError::Configuration(_) => "Unable to construct application configuration".to_owned(),
            AppError::Validation(_) => "Failed to validate drainer configuration".to_owned(),
            AppError::Logging(_) => "Failed to setup logging".to_owned(),
            AppError::State(_) => "Failed to create application state".to_owned(),
            AppError::Stores(_) => "Failed to initialize tenant stores".to_owned(),
            AppError::HealthServerFailed(e) => join("Health server failed: ", e.as_str()),
            AppError::HealthServerPanicked(e) => join("Health server task panicked: ", e.as_str()),
            AppError::DrainerFailed(_) => "Drainer service failed".to_owned(),
            AppError::DrainerPanicked(e) => join("Drainer service task panicked: ", e.as_str()),
        }
    }

    /// The description of the error with its causes.
    pub fn report(&self) -> (text: String)
        ensures
            text@ == self.report_text(),
    {
        let message = self.message();
        match self {
            AppError::Configuration(e) => join_cause(message.as_str(), e.as_str()),
            AppError::Validation(e) => join_cause(message.as_str(), e.as_str()),
            AppError::Logging(e) => join_cause(message.as_str(), e.as_str()),
            AppError::State(e) => join_cause(message.as_str(), e.as_str()),
            AppError::Stores(e) => {
                let cause = e.report();
                join_cause(message.as_str(), cause.as_str())
            },
            AppError::HealthServerFailed(_) => message,
            AppError::HealthServerPanicked(_) => message,
            AppError::DrainerFailed(e) => join_cause(message.as_str(), e.as_str()),
            AppError::DrainerPanicked(_) => message,
        }
    }
}

/// How the process ends: its exit code, and the line it leaves behind when it
/// failed.
pub struct Exit {
    pub code: i32,
    pub line: Option<String>,
}

/// The end of the process that the outcome of the application calls for.
pub fn exit_for(result: &Result<(), AppError>) -> (exit: Exit)
    ensures
        match result {
            Ok(()) => exit.code == 0 && exit.line is None,
            Err(e) => {
                &&& exit.code == 1
                &&& exit.line is Some
                &&& exit.line->0@ == "Application failed: "@ + e.report_text()
            },
        },
{
    match result {
        Ok(()) => Exit { code: 0, line: None },
        Err(e) => {
            let report = e.report();
            Exit { code: 1, line: Some(join("Application failed: ", report.as_str())) }
        },
    }
}

/// A report always begins with the message.
pub proof fn law_report_begins_with_message(e: AppError, init: InitError)
    ensures
        e.message_text().is_prefix_of(e.report_text()),
        init.message_text().is_prefix_of(init.report_text()),
{
    assert(e.message_text() =~= e.report_text().subrange(0, e.message_text().len() as int));
    assert(init.message_text() =~= init.report_text().subrange(
        0,
        init.message_text().len() as int,
    ));
}

/// No failure loses what caused it: the text handed in with a failure is in the
/// report, at its end.
pub proof fn law_report_ends_with_cause(cause: String, tenant: String)
    ensures
        cause@.is_suffix_of(AppError::Configuration(cause).report_text()),
        cause@.is_suffix_of(AppError::Validation(cause).report_text()),
        cause@.is_suffix_of(AppError::Logging(cause).report_text()),
        cause@.is_suffix_of(AppError::State(cause).report_text()),
        cause@.is_suffix_of(AppError::HealthServerFailed(cause).report_text()),
        cause@.is_suffix_of(AppError::HealthServerPanicked(cause).report_text()),
        cause@.is_suffix_of(AppError::DrainerFailed(cause).report_text()),
        cause@.is_suffix_of(AppError::DrainerPanicked(cause).report_text()),
        cause@.is_suffix_of(
            AppError::Stores(InitError::StoreCreation { tenant, cause }).report_text(),
        ),
{
    lemma_suffix(AppError::Configuration(cause).report_text(), cause@);
    lemma_suffix(AppError::Validation(cause).report_text(), cause@);
    lemma_suffix(AppError::Logging(cause).report_text(), cause@);
    lemma_suffix(AppError::State(cause).report_text(), cause@);
    lemma_suffix(AppError::HealthServerFailed(cause).report_text(), cause@);
    lemma_suffix(AppError::HealthServerPanicked(cause).report_text(), cause@);
    lemma_suffix(AppError::DrainerFailed(cause).report_text(), cause@);
    lemma_suffix(AppError::DrainerPanicked(cause).report_text(), cause@);
    let init = InitError::StoreCreation { tenant, cause };
    lemma_suffix(AppError::Stores(init).report_text(), cause@);
}

proof fn lemma_suffix(text: Seq<char>, end: Seq<char>)
    requires
        text.len() >= end.len(),
        forall|i: int| 0 <= i < end.len() ==> text[text.len() - end.len() + i] == end[i],
    ensures
        end.is_suffix_of(text),
{
    assert(end =~= text.subrange((text.len() - end.len()) as int, text.len() as int));
}

/// What every failure is called, whatever its cause: its message, and its report
/// with the cause where the message does not hold it already.
pub proof fn law_what_every_failure_is_called(cause: String, init: InitError)
    ensures
        AppError::Configuration(cause).message_text()
            == "Unable to construct application configuration"@,
        AppError::Configuration(cause).report_text()
            == "Unable to construct application configuration"@ + ": "@ + cause@,
        AppError::Validation(cause).message_text() == "Failed to validate drainer configuration"@,
        AppError::Validation(cause).report_text() == "Failed to validate drainer configuration"@
            + ": "@ + cause@,
        AppError::Logging(cause).message_text() == "Failed to setup logging"@,
        AppError::Logging(cause).report_text() == "Failed to setup logging"@ + ": "@ + cause@,
        AppError::State(cause).message_text() == "Failed to create application state"@,
        AppError::State(cause).report_text() == "Failed to create application state"@ + ": "@
            + cause@,
        AppError::Stores(init).message_text() == "Failed to initialize tenant stores"@,
        AppError::Stores(init).report_text() == "Failed to initialize tenant stores"@ + ": "@
            + init.report_text(),
        AppError::HealthServerFailed(cause).message_text() == "Health server failed: "@ + cause@,
        AppError::HealthServerFailed(cause).report_text() == "Health server failed: "@ + cause@,
        AppError::HealthServerPanicked(cause).message_text() == "Health server task panicked: "@
            + cause@,
        AppError::HealthServerPanicked(cause).report_text() == "Health server task panicked: "@
            + cause@,
        AppError::DrainerFailed(cause).message_text() == "Drainer service failed"@,
        AppError::DrainerFailed(cause).report_text() == "Drainer service failed"@ + ": "@ + cause@,
        AppError::DrainerPanicked(cause).message_text() == "Drainer service task panicked: "@
            + cause@,
        AppError::DrainerPanicked(cause).report_text() == "Drainer service task panicked: "@
            + cause@,
{
}

/// What a failed initialization is called: one message whatever went wrong, and a
/// report that says what it was, with the tenant and the cause where a store could
/// not be created.
pub proof fn law_what_a_failed_initialization_is_called(
    init: InitError,
    tenant: String,
    cause: String,
)
    ensures
        init.message_text() == "Failed to initialize one or more tenant stores"@,
        InitError::PermitDenied.report_text()
            == "Failed to initialize one or more tenant stores"@ + ": "@
            + "Failed to acquire semaphore permit"@,
        (InitError::StoreCreation { tenant, cause }).report_text()
            == "Failed to initialize one or more tenant stores"@ + ": "@ + (
        "Failed to create store for tenant: "@ + tenant@ + ": "@ + cause@),
{
}

/// Failures are told apart: two reports of the same failure with different causes
/// differ.
pub proof fn law_reports_tell_causes_apart(a: String, b: String)
    requires
        a@ != b@,
    ensures
        AppError::Configuration(a).report_text() != AppError::Configuration(b).report_text(),
        AppError::Validation(a).report_text() != AppError::Validation(b).report_text(),
        AppError::Logging(a).report_text() != AppError::Logging(b).report_text(),
        AppError::State(a).report_text() != AppError::State(b).report_text(),
        AppError::HealthServerFailed(a).report_text() != AppError::HealthServerFailed(
            b,
        ).report_text(),
        AppError::HealthServerPanicked(a).report_text() != AppError::HealthServerPanicked(
            b,
        ).report_text(),
        AppError::DrainerFailed(a).report_text() != AppError::DrainerFailed(b).report_text(),
        AppError::DrainerPanicked(a).report_text() != AppError::DrainerPanicked(b).report_text(),
{
    lemma_same_prefix(with_cause("Unable to construct application configuration"@, Seq::empty()), a@, b@);
    lemma_same_prefix(with_cause("Failed to validate drainer configuration"@, Seq::empty()), a@, b@);
    lemma_same_prefix(with_cause("Failed to setup logging"@, Seq::empty()), a@, b@);
    lemma_same_prefix(with_cause("Failed to create application state"@, Seq::empty()), a@, b@);
    lemma_same_prefix(with_cause("Drainer service failed"@, Seq::empty()), a@, b@);
    lemma_same_prefix("Health server failed: "@, a@, b@);
    lemma_same_prefix("Health server task panicked: "@, a@, b@);
    lemma_same_prefix("Drainer service task panicked: "@, a@, b@);
    lemma_cause_last("Unable to construct application configuration"@, a@);
    lemma_cause_last("Unable to construct application configuration"@, b@);
    lemma_cause_last("Failed to validate drainer configuration"@, a@);
    lemma_cause_last("Failed to validate drainer configuration"@, b@);
    lemma_cause_last("Failed to setup logging"@, a@);
    lemma_cause_last("Failed to setup logging"@, b@);
    lemma_cause_last("Failed to create application state"@, a@);
    lemma_cause_last("Failed to create application state"@, b@);
    lemma_cause_last("Drainer service failed"@, a@);
    lemma_cause_last("Drainer service failed"@, b@);
}

proof fn lemma_cause_last(description: Seq<char>, cause: Seq<char>)
    ensures
        with_cause(description, cause) == with_cause(description, Seq::empty()) + cause,
{
    assert(with_cause(description, cause) =~= with_cause(description, Seq::empty()) + cause);
}

proof fn lemma_same_prefix(prefix: Seq<char>, a: Seq<char>, b: Seq<char>)
    requires
        a != b,
    ensures
        prefix + a != prefix + b,
{
    assert((prefix + a).skip(prefix.len() as int) =~= a);
    assert((prefix + b).skip(prefix.len() as int) =~= b);
}

} // verus!
