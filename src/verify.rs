//! The adapter: one conversion for each shape in which a process outcome
//! arrives, from a plain launch result to a run that captured output.

use vstd::prelude::*;

use crate::error::{CommandError, CommandStatusError, Std};
use crate::status::{failure_of, pending_failure_of, ExitStatus, Output, stringent_result};

verus! {

/// What adapting the result of waiting for a process gives: the launch
/// error as `SpawnFailed`, a failing status as its error, and otherwise the
/// status itself.
pub open spec fn verified_status(raw: Result<ExitStatus, std::io::Error>) -> Result<ExitStatus, CommandStatusError> {
    match raw {
        Err(io_err) => Err(CommandStatusError::SpawnFailed(io_err)),
        Ok(status) => match failure_of(status) {
            None => Ok(status),
            Some(e) => Err(e),
        },
    }
}

/// What adapting the result of polling a process gives: as for
/// [`verified_status`], with "not exited yet" passed through as `Ok(None)`.
pub open spec fn verified_pending(raw: Result<Option<ExitStatus>, std::io::Error>) -> Result<Option<ExitStatus>, CommandStatusError> {
    match raw {
        Err(io_err) => Err(CommandStatusError::SpawnFailed(io_err)),
        Ok(status) => match pending_failure_of(status) {
            None => Ok(status),
            Some(e) => Err(e),
        },
    }
}

/// What adapting the result of a run that captured output gives: the launch
/// error with no output; on a failing status, its error together with both
/// captured byte sequences; otherwise the output itself.
pub open spec fn verified_output(raw: Result<Output, std::io::Error>) -> Result<Output, CommandError> {
    match raw {
        Err(io_err) => Err(CommandError { err: CommandStatusError::SpawnFailed(io_err), output: None }),
        Ok(output) => match failure_of(output.status) {
            None => Ok(output),
            Some(e) => Err(
                CommandError {
                    err: e,
                    output: Some(Std { stdout: output.stdout, stderr: output.stderr }),
                },
            ),
        },
    }
}

/// What adapting the result of launching a process gives: the launch error
/// as `SpawnFailed`, and otherwise the process handle itself.
pub open spec fn verified_spawn<H>(raw: Result<H, std::io::Error>) -> Result<H, CommandStatusError> {
    match raw {
        Err(io_err) => Err(CommandStatusError::SpawnFailed(io_err)),
        Ok(handle) => Ok(handle),
    }
}

/// Turns the result of a process operation into a result whose error also
/// covers processes that ran but did not succeed.
pub trait Verify<T, E>: Sized {
    /// Keeps a successful outcome as it is and turns every failed one into
    /// an error.
    fn verify(self) -> Result<T, E>;
}

impl Verify<ExitStatus, CommandStatusError> for Result<ExitStatus, std::io::Error> {
    fn verify(self) -> (r: Result<ExitStatus, CommandStatusError>)
        ensures
            r == verified_status(self),
    {
        match self {
            Err(io_err) => Err(CommandStatusError::SpawnFailed(io_err)),
            Ok(status) => stringent_result(status),
        }
    }
}

impl Verify<Option<ExitStatus>, CommandStatusError> for Result<Option<ExitStatus>, std::io::Error> {
    fn verify(self) -> (r: Result<Option<ExitStatus>, CommandStatusError>)
        ensures
            r == verified_pending(self),
    {
        match self {
            Err(io_err) => Err(CommandStatusError::SpawnFailed(io_err)),
            Ok(status) => stringent_result(status),
        }
    }
}

impl Verify<Output, CommandError> for Result<Output, std::io::Error> {
    fn verify(self) -> (r: Result<Output, CommandError>)
        ensures
            r == verified_output(self),
    {
        match self {
            Err(io_err) => Err(CommandError { err: CommandStatusError::SpawnFailed(io_err), output: None }),
            Ok(output) => match stringent_result(output.status) {
                Err(err) => Err(
                    CommandError {
                        err,
                        output: Some(Std { stdout: output.stdout, stderr: output.stderr }),
                    },
                ),
                Ok(_) => Ok(output),
            },
        }
    }
}

/// Adapts the result of launching a process: a launch error becomes
/// `SpawnFailed`, and a started process's handle `H` is passed through, as
/// there is no status to classify yet.
pub fn verify_spawn<H>(raw: Result<H, std::io::Error>) -> (r: Result<H, CommandStatusError>)
    ensures
        r == verified_spawn(raw),
{
    match raw {
        Err(io_err) => Err(CommandStatusError::SpawnFailed(io_err)),
        Ok(handle) => Ok(handle),
    }
}

/// A status whose success flag is set is never an error, whatever its exit
/// code and signal fields hold: it comes back unchanged.
pub proof fn lemma_success_passes(status: ExitStatus)
    requires
        status.success,
    ensures
        failure_of(status) is None,
        verified_status(Ok(status)) == Ok::<ExitStatus, CommandStatusError>(status),
{
}

/// A failed status with an exit code `c`, of any value, including negative
/// ones and zero, is reported as exactly `ExitCode(c)`.
pub proof fn lemma_exit_code_reported(status: ExitStatus, c: i32)
    requires
        !status.success,
        status.code == Some(c),
    ensures
        failure_of(status) == Some(CommandStatusError::ExitCode(c)),
        verified_status(Ok(status)) == Err::<ExitStatus, CommandStatusError>(CommandStatusError::ExitCode(c)),
{
}

/// A failed status with no exit code is a signal death, reported with the
/// signal number the status carries (absent where the platform reports none).
pub proof fn lemma_signal_reported(status: ExitStatus)
    requires
        !status.success,
        status.code is None,
    ensures
        failure_of(status) == Some(CommandStatusError::Signal(status.signal)),
        verified_status(Ok(status)) == Err::<ExitStatus, CommandStatusError>(CommandStatusError::Signal(status.signal)),
{
}

/// A process that has not exited yet is no failure; for one that has,
/// classifying the optional status is classifying the status itself.
pub proof fn lemma_pending_is_transparent(status: Option<ExitStatus>)
    ensures
        status is None ==> pending_failure_of(status) is None,
        status is None ==> verified_pending(Ok(status)) == Ok::<Option<ExitStatus>, CommandStatusError>(status),
        status matches Some(x) ==> pending_failure_of(status) == failure_of(x),
        status matches Some(x) ==> match verified_status(Ok(x)) {
            Ok(s) => verified_pending(Ok(status)) == Ok::<Option<ExitStatus>, CommandStatusError>(Some(s)),
            Err(e) => verified_pending(Ok(status)) == Err::<Option<ExitStatus>, CommandStatusError>(e),
        },
{
}

/// A run with captured output that succeeded comes back as it was: the same
/// status and the same bytes.
pub proof fn lemma_output_success_round_trip(output: Output)
    requires
        failure_of(output.status) is None,
    ensures
        verified_output(Ok(output)) == Ok::<Output, CommandError>(output),
{
}

/// A run with captured output that failed yields its classified error
/// together with exactly the captured bytes: both sequences are present, equal
/// to what was captured, and empty where nothing was.
pub proof fn lemma_output_failure_keeps_bytes(output: Output)
    requires
        failure_of(output.status) is Some,
    ensures
        verified_output(Ok(output)) is Err,
        verified_output(Ok(output))->Err_0.err == failure_of(output.status)->0,
        verified_output(Ok(output))->Err_0.output is Some,
        verified_output(Ok(output))->Err_0.output->0.stdout@ == output.stdout@,
        verified_output(Ok(output))->Err_0.output->0.stderr@ == output.stderr@,
        output.stdout@.len() == 0 ==> verified_output(Ok(output))->Err_0.output->0.stdout@.len() == 0,
        output.stderr@.len() == 0 ==> verified_output(Ok(output))->Err_0.output->0.stderr@.len() == 0,
{
}

} // verus!
