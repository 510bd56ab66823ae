//! Reporting how one of the application's long-running tasks (the API server,
//! the delivery worker) came to an end.

use vstd::prelude::*;
use crate::logging::LogLevel;

verus! {

/// How a task ended.
pub enum TaskOutcome {
    /// The task returned normally.
    Exited,
    /// The task returned an error: its display text and its debug text (the
    /// chain of causes).
    Failed { message: String, cause_chain: String },
    /// The task did not run to completion (it panicked or was cancelled): the
    /// display and debug texts of the join error.
    Aborted { message: String, cause_chain: String },
}

/// The log record to emit for a task that ended.
#[derive(Debug)]
pub struct ExitReport {
    pub level: LogLevel,
    pub text: String,
    /// The display text of the error, when there is one.
    pub error_message: Option<String>,
    /// The debug text of the error, when there is one.
    pub error_cause_chain: Option<String>,
}

/// The record for `name` ending with `outcome` has level `level`, text
/// `name + suffix`, and the error texts of the outcome.
pub open spec fn report_matches(r: ExitReport, name: Seq<char>, outcome: TaskOutcome) -> bool {
    match outcome {
        TaskOutcome::Exited => {
            &&& r.level == LogLevel::Info
            &&& r.text@ == name + " has exited"@
            &&& r.error_message is None
            &&& r.error_cause_chain is None
        },
        TaskOutcome::Failed { message, cause_chain } => {
            &&& r.level == LogLevel::Error
            &&& r.text@ == name + " failed"@
            &&& r.error_message == Some(message)
            &&& r.error_cause_chain == Some(cause_chain)
        },
        TaskOutcome::Aborted { message, cause_chain } => {
            &&& r.level == LogLevel::Error
            &&& r.text@ == name + " task failed to complete"@
            &&& r.error_message == Some(message)
            &&& r.error_cause_chain == Some(cause_chain)
        },
    }
}

/// The log record for the task `task_name` that ended with `outcome`.
pub fn report_exit(task_name: &str, outcome: TaskOutcome) -> (r: ExitReport)
    ensures
        report_matches(r, task_name@, outcome),
{
    let name = task_name.to_owned();
    match outcome {
        TaskOutcome::Exited => ExitReport {
            level: LogLevel::Info,
            text: name.concat(" has exited"),
            error_message: None,
            error_cause_chain: None,
        },
        TaskOutcome::Failed { message, cause_chain } => ExitReport {
            level: LogLevel::Error,
            text: name.concat(" failed"),
            error_message: Some(message),
            error_cause_chain: Some(cause_chain),
        },
        TaskOutcome::Aborted { message, cause_chain } => ExitReport {
            level: LogLevel::Error,
            text: name.concat(" task failed to complete"),
            error_message: Some(message),
            error_cause_chain: Some(cause_chain),
        },
    }
}

} // verus!
