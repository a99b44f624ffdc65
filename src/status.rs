//! The exit status of a finished process, as plain values.

use vstd::prelude::*;

use crate::error::CommandStatusError;

verus! {

/// How a process ended.
///
/// `code` is the numeric exit code, absent when the process did not exit
/// normally. `signal` is the number of the signal that terminated it, always
/// absent on platforms that do not report signals.
#[derive(Clone, Copy, Debug, PartialEq, Eq, Structural)]
pub struct ExitStatus {
    /// Whether the process reported success.
    pub success: bool,
    /// The exit code, if the process exited normally.
    pub code: Option<i32>,
    /// The terminating signal, where the platform reports one.
    pub signal: Option<i32>,
}

/// What a process that ran to completion left behind: its status and the
/// bytes it wrote to standard output and standard error.
#[derive(Clone, Debug, PartialEq, Eq)]
pub struct Output {
    /// How the process ended.
    pub status: ExitStatus,
    /// Bytes written to standard output.
    pub stdout: Vec<u8>,
    /// Bytes written to standard error.
    pub stderr: Vec<u8>,
}

/// The signal number of `status`, or `None` where it is not reported.
fn signal_of(status: ExitStatus) -> (r: Option<i32>)
    ensures
        r == status.signal,
{
    status.signal
}

/// The error that classifying `status` yields, or `None` when the status
/// counts as success: a successful status is never an error, a present exit
/// code is reported as it is, and otherwise the process is taken to have been
/// terminated by a signal, numbered where the platform reports it.
pub open spec fn failure_of(status: ExitStatus) -> Option<CommandStatusError> {
    if status.success {
        None
    } else {
        match status.code {
            Some(code) => Some(CommandStatusError::ExitCode(code)),
            None => Some(CommandStatusError::Signal(status.signal)),
        }
    }
}

/// The error that classifying an optional status yields: a process that has
/// not exited yet (`None`) is no failure.
pub open spec fn pending_failure_of(status: Option<ExitStatus>) -> Option<CommandStatusError> {
    match status {
        None => None,
        Some(s) => failure_of(s),
    }
}

/// A value that may carry an exit status, and that classification hands back
/// unchanged when the status is not a failure.
pub(crate) trait StringentResult: Sized + Copy {
    /// The status that the value carries, if any.
    spec fn status_spec(self) -> Option<ExitStatus>;

    fn option_status(self) -> (r: Option<ExitStatus>)
        ensures
            r == self.status_spec(),
    ;
}

/// Classifies the status that `value` carries: `Ok(value)` unless that
/// status is a failure, whose error is then returned.
pub(crate) fn stringent_result<R: StringentResult>(value: R) -> (r: Result<R, CommandStatusError>)
    ensures
        r == match pending_failure_of(value.status_spec()) {
            None => Ok(value),
            Some(e) => Err(e),
        },
{
    match value.option_status() {
        None => Ok(value),
        Some(status) => {
            if status.success {
                Ok(value)
            } else {
                match status.code {
                    Some(code) => Err(CommandStatusError::ExitCode(code)),
                    None => Err(CommandStatusError::Signal(signal_of(status))),
                }
            }
        },
    }
}

impl StringentResult for ExitStatus {
    open spec fn status_spec(self) -> Option<ExitStatus> {
        Some(self)
    }

    fn option_status(self) -> (r: Option<ExitStatus>) {
        Some(self)
    }
}

impl StringentResult for Option<ExitStatus> {
    open spec fn status_spec(self) -> Option<ExitStatus> {
        self
    }

    fn option_status(self) -> (r: Option<ExitStatus>) {
        self
    }
}

} // verus!
