use std::io::{Error, ErrorKind};

use stringent::{
    verify_spawn, CommandError, CommandStatusError, ExitStatus, Output, Std, Verify,
};

const XCPU: i32 = 24;
const PANIC: i32 = 101;

fn successful() -> ExitStatus {
    ExitStatus { success: true, code: Some(0), signal: None }
}

fn panicked() -> ExitStatus {
    ExitStatus { success: false, code: Some(PANIC), signal: None }
}

fn killed_by_signal() -> ExitStatus {
    ExitStatus { success: false, code: None, signal: Some(XCPU) }
}

fn not_found() -> Error {
    Error::new(ErrorKind::NotFound, "file not found")
}

#[test]
fn test_success() {
    let result: Result<ExitStatus, Error> = Ok(successful());
    match result.verify() {
        Ok(_) => {}
        _ => panic!("success wasn't successful"),
    }
}

#[test]
fn test_panic() {
    let result: Result<ExitStatus, Error> = Ok(panicked());
    match result.verify() {
        Err(CommandStatusError::ExitCode(PANIC)) => {}
        _ => panic!("Expected panic status to report a bad exit code"),
    }
}

#[test]
fn test_killed_by_signal() {
    let result: Result<ExitStatus, Error> = Ok(killed_by_signal());
    match result.verify() {
        Err(CommandStatusError::Signal(Some(XCPU))) => {}
        _ => panic!("Expected killed_by_signal to report XCPU"),
    }
}

#[test]
fn spawn_error_is_spawn_failed() {
    let result: Result<ExitStatus, Error> = Err(not_found());
    match result.verify() {
        Err(CommandStatusError::SpawnFailed(e)) => {
            assert_eq!(e.kind(), ErrorKind::NotFound);
            assert_eq!(e.to_string(), "file not found");
        }
        other => panic!("unexpected {:?}", other),
    }
}

#[test]
fn success_ignores_code_and_signal() {
    let status = ExitStatus { success: true, code: Some(3), signal: Some(9) };
    let result: Result<ExitStatus, Error> = Ok(status);
    assert_eq!(result.verify().unwrap(), status);
}

#[test]
fn negative_exit_code_is_kept() {
    let status = ExitStatus { success: false, code: Some(-7), signal: None };
    let result: Result<ExitStatus, Error> = Ok(status);
    assert!(matches!(result.verify(), Err(CommandStatusError::ExitCode(-7))));
    let lowest = ExitStatus { success: false, code: Some(i32::MIN), signal: None };
    let result: Result<ExitStatus, Error> = Ok(lowest);
    assert!(matches!(result.verify(), Err(CommandStatusError::ExitCode(i32::MIN))));
}

#[test]
fn zero_code_on_failure_is_exit_code() {
    let status = ExitStatus { success: false, code: Some(0), signal: None };
    let result: Result<ExitStatus, Error> = Ok(status);
    assert!(matches!(result.verify(), Err(CommandStatusError::ExitCode(0))));
}

#[test]
fn unknown_termination_is_signal_none() {
    let status = ExitStatus { success: false, code: None, signal: None };
    let result: Result<ExitStatus, Error> = Ok(status);
    assert!(matches!(result.verify(), Err(CommandStatusError::Signal(None))));
}

#[test]
fn still_running_is_success() {
    let result: Result<Option<ExitStatus>, Error> = Ok(None);
    assert!(matches!(result.verify(), Ok(None)));
}

#[test]
fn poll_matches_direct_classification() {
    for status in [successful(), panicked(), killed_by_signal()] {
        let polled: Result<Option<ExitStatus>, Error> = Ok(Some(status));
        let direct: Result<ExitStatus, Error> = Ok(status);
        match (polled.verify(), direct.verify()) {
            (Ok(Some(a)), Ok(b)) => assert_eq!(a, b),
            (Err(CommandStatusError::ExitCode(a)), Err(CommandStatusError::ExitCode(b))) => {
                assert_eq!(a, b)
            }
            (Err(CommandStatusError::Signal(a)), Err(CommandStatusError::Signal(b))) => {
                assert_eq!(a, b)
            }
            (p, d) => panic!("poll gave {:?}, direct gave {:?}", p, d),
        }
    }
}

#[test]
fn poll_spawn_error_is_spawn_failed() {
    let result: Result<Option<ExitStatus>, Error> = Err(not_found());
    assert!(matches!(result.verify(), Err(CommandStatusError::SpawnFailed(_))));
}

#[test]
fn output_success_is_unchanged() {
    let output = Output { status: successful(), stdout: b"hello".to_vec(), stderr: Vec::new() };
    let result: Result<Output, Error> = Ok(output.clone());
    let adapted = result.verify().unwrap();
    assert_eq!(adapted, output);
    assert_eq!(adapted.stdout, b"hello".to_vec());
}

#[test]
fn output_failure_keeps_stderr() {
    let output = Output {
        status: ExitStatus { success: false, code: Some(1), signal: None },
        stdout: Vec::new(),
        stderr: b"error!".to_vec(),
    };
    let result: Result<Output, Error> = Ok(output);
    let err = result.verify().unwrap_err();
    assert!(matches!(err.err, CommandStatusError::ExitCode(1)));
    assert_eq!(
        err.output,
        Some(Std { stdout: Vec::new(), stderr: b"error!".to_vec() })
    );
}

#[test]
fn output_signal_keeps_both_streams() {
    let output = Output {
        status: killed_by_signal(),
        stdout: vec![0, 255, 10],
        stderr: b"bye".to_vec(),
    };
    let result: Result<Output, Error> = Ok(output);
    let err = result.verify().unwrap_err();
    assert!(matches!(err.err, CommandStatusError::Signal(Some(XCPU))));
    let std = err.output.unwrap();
    assert_eq!(std.stdout, vec![0, 255, 10]);
    assert_eq!(std.stderr, b"bye".to_vec());
}

#[test]
fn output_spawn_error_has_no_output() {
    let result: Result<Output, Error> = Err(not_found());
    let err = result.verify().unwrap_err();
    assert!(matches!(err.err, CommandStatusError::SpawnFailed(_)));
    assert!(err.output.is_none());
    assert_eq!(err.source().unwrap().kind(), ErrorKind::NotFound);
}

#[test]
fn spawn_handle_passes_through() {
    let started: Result<u32, Error> = Ok(42);
    assert_eq!(verify_spawn(started).unwrap(), 42);
    let failed: Result<u32, Error> = Err(not_found());
    assert!(matches!(verify_spawn(failed), Err(CommandStatusError::SpawnFailed(_))));
}

#[test]
fn status_error_into_command_error() {
    let err: CommandError = CommandStatusError::ExitCode(2).into();
    assert!(matches!(err.err, CommandStatusError::ExitCode(2)));
    assert!(err.output.is_none());
    let from = CommandError::from(CommandStatusError::Signal(None));
    assert!(matches!(from.err, CommandStatusError::Signal(None)));
    assert!(from.output.is_none());
}

#[test]
fn messages_name_each_kind() {
    assert_eq!(CommandStatusError::ExitCode(101).message(), "Exit code 101");
    assert_eq!(CommandStatusError::ExitCode(-3).message(), "Exit code -3");
    assert_eq!(CommandStatusError::ExitCode(0).message(), "Exit code 0");
    assert_eq!(
        CommandStatusError::ExitCode(i32::MIN).message(),
        "Exit code -2147483648"
    );
    assert_eq!(
        CommandStatusError::ExitCode(i32::MAX).message(),
        "Exit code 2147483647"
    );
    assert_eq!(
        CommandStatusError::Signal(Some(24)).message(),
        "Terminated by signal 24"
    );
    assert_eq!(CommandStatusError::Signal(None).message(), "Terminated");
}

#[test]
fn spawn_failed_message_names_cause() {
    let err = CommandStatusError::SpawnFailed(not_found());
    assert_eq!(err.message(), "Spawn failed: file not found");
    assert_eq!(err.message_with_cause("no such file"), "Spawn failed: no such file");
    let wrapped = CommandError::from(err);
    assert_eq!(wrapped.message(), "Spawn failed: file not found");
    assert_eq!(wrapped.source().unwrap().to_string(), "file not found");
}

#[test]
fn source_only_for_spawn_failure() {
    assert!(CommandStatusError::ExitCode(1).source().is_none());
    assert!(CommandStatusError::Signal(Some(9)).source().is_none());
    let err = CommandStatusError::SpawnFailed(not_found());
    assert_eq!(err.source().unwrap().kind(), ErrorKind::NotFound);
}

#[test]
fn command_error_message_follows_err() {
    let output = Output {
        status: ExitStatus { success: false, code: Some(5), signal: None },
        stdout: Vec::new(),
        stderr: Vec::new(),
    };
    let result: Result<Output, Error> = Ok(output);
    let err = result.verify().unwrap_err();
    assert_eq!(err.message(), "Exit code 5");
    assert_eq!(err.message_with_cause("ignored"), "Exit code 5");
    assert!(err.source().is_none());
    let std = err.output.unwrap();
    assert!(std.stdout.is_empty());
    assert!(std.stderr.is_empty());
}
