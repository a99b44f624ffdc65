//! The error taxonomy: launch failure, nonzero exit code, signal death, and
//! the variant that also carries captured output.

use vstd::prelude::*;
use vstd::string::StringExecFns;

use crate::decimal::{append_decimal, decimal_text};

verus! {

/// The platform I/O error that a failed launch reports.
#[verifier::external_type_specification]
#[verifier::external_body]
pub struct ExIoError(std::io::Error);

/// Why a process did not complete successfully.
#[derive(Debug)]
pub enum CommandStatusError {
    /// The process could not be started; holds the launch error.
    SpawnFailed(std::io::Error),
    /// The process exited with this failing exit code.
    ExitCode(i32),
    /// The process was terminated by a signal; holds its number when the
    /// platform reports one.
    Signal(Option<i32>),
}

/// The one-line message for `e`, with `cause` standing for the text of the
/// launch error when `e` is `SpawnFailed`.
pub open spec fn message_text(e: CommandStatusError, cause: Seq<char>) -> Seq<char> {
    match e {
        CommandStatusError::SpawnFailed(_) => "Spawn failed: "@ + cause,
        CommandStatusError::ExitCode(code) => "Exit code "@ + decimal_text(code as int),
        CommandStatusError::Signal(Some(signal)) => "Terminated by signal "@ + decimal_text(
            signal as int,
        ),
        CommandStatusError::Signal(None) => "Terminated"@,
    }
}

impl CommandStatusError {
    /// The one-line message for this error, with `cause` as the text of the
    /// launch error: "Spawn failed: " and the cause, "Exit code " and the
    /// code, "Terminated by signal " and its number, or "Terminated" when the
    /// signal is unknown.
    pub fn message_with_cause(&self, cause: &str) -> (r: String)
        ensures
            r@ == message_text(*self, cause@),
    {
        match self {
            CommandStatusError::SpawnFailed(_) => {
                let mut text = String::from_str("Spawn failed: ");
                text.append(cause);
                text
            },
            CommandStatusError::ExitCode(code) => {
                let mut text = String::from_str("Exit code ");
                append_decimal(&mut text, *code);
                text
            },
            CommandStatusError::Signal(Some(signal)) => {
                let mut text = String::from_str("Terminated by signal ");
                append_decimal(&mut text, *signal);
                text
            },
            CommandStatusError::Signal(None) => String::from_str("Terminated"),
        }
    }

    /// The one-line message for this error; for a launch failure the cause
    /// is the launch error's own text.
    pub fn message(&self) -> (r: String)
        ensures
            exists|cause: Seq<char>| r@ == #[trigger] message_text(*self, cause),
    {
        match self {
            CommandStatusError::SpawnFailed(io_err) => {
                let cause = io_err.to_string();
                self.message_with_cause(cause.as_str())
            },
            _ => self.message_with_cause(""),
        }
    }

    /// The launch error behind this error: present exactly for `SpawnFailed`.
    pub fn source(&self) -> (r: Option<&std::io::Error>)
        ensures
            match self {
                CommandStatusError::SpawnFailed(io_err) => r == Some(io_err),
                _ => r is None,
            },
    {
        match self {
            CommandStatusError::SpawnFailed(io_err) => Some(io_err),
            _ => None,
        }
    }
}

/// Captured standard output and standard error of a process.
#[derive(Debug, PartialEq, Eq)]
pub struct Std {
    /// Bytes written to standard output.
    pub stdout: Vec<u8>,
    /// Bytes written to standard error.
    pub stderr: Vec<u8>,
}

/// A [`CommandStatusError`] together with the output captured before the
/// process ended. `output` is `None` when the process never ran, or when the
/// error did not come from a run that captured output.
#[derive(Debug)]
pub struct CommandError {
    /// The kind of failure.
    pub err: CommandStatusError,
    /// The captured output, if any was captured.
    pub output: Option<Std>,
}

impl CommandError {
    /// The message of the underlying error, with `cause` as the text of the
    /// launch error.
    pub fn message_with_cause(&self, cause: &str) -> (r: String)
        ensures
            r@ == message_text(self.err, cause@),
    {
        self.err.message_with_cause(cause)
    }

    /// The message of the underlying error.
    pub fn message(&self) -> (r: String)
        ensures
            exists|cause: Seq<char>| r@ == #[trigger] message_text(self.err, cause),
    {
        self.err.message()
    }

    /// The launch error behind this error: present exactly when the process
    /// could not be started.
    pub fn source(&self) -> (r: Option<&std::io::Error>)
        ensures
            match self.err {
                CommandStatusError::SpawnFailed(io_err) => r == Some(&io_err),
                _ => r is None,
            },
    {
        self.err.source()
    }
}

impl From<CommandStatusError> for CommandError {
    fn from(status_error: CommandStatusError) -> (r: Self)
        ensures
            r == (CommandError { err: status_error, output: None }),
    {
        CommandError { err: status_error, output: None }
    }
}

impl vstd::std_specs::convert::FromSpecImpl<CommandStatusError> for CommandError {
    open spec fn obeys_from_spec() -> bool {
        true
    }

    open spec fn from_spec(status_error: CommandStatusError) -> Self {
        CommandError { err: status_error, output: None }
    }
}

} // verus!
