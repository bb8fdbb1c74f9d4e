//! Exit status of the tasks.
use vstd::prelude::*;
use crate::error::class::OsErrorClass;

verus! {

/// The way a task has ended.
#[derive(Debug, Clone, Copy, PartialEq, Eq, Structural)]
pub enum TaskExitStatus {
    /// The task ended well and gave no value.
    Success,
    /// The task ended well and gave a value.
    WithValue(usize),
    /// The task ended with an error of the class.
    WithError(OsErrorClass),
}

/// Returns the exit status of a task whose entry point gives no value.
pub fn report_unit(outcome: Result<(), OsErrorClass>) -> (status: TaskExitStatus)
    ensures
        status == match outcome {
            Ok(_) => TaskExitStatus::Success,
            Err(class) => TaskExitStatus::WithError(class),
        },
{
    match outcome {
        Ok(_) => TaskExitStatus::Success,
        Err(class) => TaskExitStatus::WithError(class),
    }
}

/// Returns the exit status of a task whose entry point gives a value.
pub fn report_value(outcome: Result<usize, OsErrorClass>) -> (status: TaskExitStatus)
    ensures
        status == match outcome {
            Ok(exit_value) => TaskExitStatus::WithValue(exit_value),
            Err(class) => TaskExitStatus::WithError(class),
        },
{
    match outcome {
        Ok(exit_value) => TaskExitStatus::WithValue(exit_value),
        Err(class) => TaskExitStatus::WithError(class),
    }
}

} // verus!
