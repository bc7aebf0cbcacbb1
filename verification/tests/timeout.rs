use process_execution::request::{
    Digest, ExecutionError, FallibleExecuteProcessResultWithPlatform, Platform,
};
use process_execution::timeout::{decimal_bytes, finalize_result, timeout_message, timeout_result};
use process_execution::SIGTERM_EXIT_CODE;

fn ok_result() -> FallibleExecuteProcessResultWithPlatform {
    FallibleExecuteProcessResultWithPlatform {
        stdout: b"done".to_vec(),
        stderr: Vec::new(),
        exit_code: 0,
        output_directory: Digest::empty(),
        execution_attempts: Vec::new(),
        platform: Platform::Linux,
    }
}

#[test]
fn decimal_rendering_is_exact() {
    assert_eq!(decimal_bytes(0), b"0".to_vec());
    assert_eq!(decimal_bytes(7), b"7".to_vec());
    assert_eq!(decimal_bytes(10), b"10".to_vec());
    assert_eq!(decimal_bytes(1234), b"1234".to_vec());
    assert_eq!(decimal_bytes(u64::MAX), b"18446744073709551615".to_vec());
}

#[test]
fn timeout_message_names_duration_and_description() {
    let msg = timeout_message(2500, "compile widget");
    assert_eq!(
        msg,
        b"Exceeded timeout of 2500ms for local process execution, compile widget".to_vec()
    );
}

#[test]
fn timeout_result_has_the_conventional_shape() {
    let r = timeout_result(100, "sleepy process", Platform::Darwin);
    assert_eq!(r.exit_code, SIGTERM_EXIT_CODE);
    assert_eq!(r.exit_code, -15);
    assert!(r.stderr.is_empty());
    assert!(!r.stdout.is_empty());
    assert_eq!(
        r.stdout,
        b"Exceeded timeout of 100ms for local process execution, sleepy process".to_vec()
    );
    assert_eq!(r.output_directory, Digest::empty());
    assert!(r.execution_attempts.is_empty());
    assert_eq!(r.platform, Platform::Darwin);
}

#[test]
fn completed_result_passes_through_unchanged() {
    let r = finalize_result(Ok(ok_result()), 1000, "p", Platform::Linux);
    assert_eq!(r, Ok(ok_result()));
}

#[test]
fn elapsed_deadline_becomes_a_normal_shaped_result() {
    let r = finalize_result(
        Err(ExecutionError::TimeoutElapsed),
        300,
        "slow",
        Platform::Linux,
    );
    let res = r.expect("a timeout is absorbed, not surfaced");
    assert_eq!(res.exit_code, -15);
    assert_eq!(
        res.stdout,
        b"Exceeded timeout of 300ms for local process execution, slow".to_vec()
    );
    assert!(res.stderr.is_empty());
    assert_eq!(res.output_directory, Digest::empty());
}

#[test]
fn other_errors_are_surfaced_not_absorbed() {
    let e = ExecutionError::SpawnFailure("no such file".to_string());
    let r = finalize_result(Err(e.clone()), 300, "p", Platform::Linux);
    assert_eq!(r, Err(e));
}

#[test]
fn timeout_is_recognized_by_kind_not_by_message_text() {
    // an unrelated failure wearing the timeout's words stays an error
    let e = ExecutionError::SandboxFailure("deadline has elapsed".to_string());
    let r = finalize_result(Err(e.clone()), 300, "p", Platform::Linux);
    assert_eq!(r, Err(e));
}
