//! Turns the outcome of running an external process into a typed error when
//! the process started but did not finish successfully.
//!
//! Launching a process usually reports success as soon as the child exists,
//! even if it later exits with a nonzero code or is killed by a signal. The
//! [`Verify`] adapter closes that gap: a launch error becomes
//! [`CommandStatusError::SpawnFailed`], a nonzero exit code becomes
//! [`CommandStatusError::ExitCode`] and a signal death becomes
//! [`CommandStatusError::Signal`]. When output was captured, the failure is a
//! [`CommandError`] that keeps the captured bytes.
//!
//! The host's process values are described by the library's own plain types:
//! [`ExitStatus`] (success flag, exit code, signal number) and [`Output`]
//! (status plus captured standard output and standard error).

mod decimal;
mod error;
mod status;
mod verify;

pub use decimal::{decimal_text, digit_char, digits_text};
pub use error::{message_text, CommandError, CommandStatusError, Std};
pub use status::{failure_of, pending_failure_of, ExitStatus, Output};
pub use verify::{
    lemma_exit_code_reported, lemma_output_failure_keeps_bytes, lemma_output_success_round_trip,
    lemma_pending_is_transparent, lemma_signal_reported, lemma_success_passes, verified_output,
    verified_pending, verified_spawn, verified_status, verify_spawn, Verify,
};
