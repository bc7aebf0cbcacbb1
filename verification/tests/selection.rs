use process_execution::request::{
    Digest, ExecuteProcessRequest, MultiPlatformExecuteProcessRequest, Platform,
    PlatformConstraint,
};
use process_execution::runner::CommandRunner;

fn request_described(description: &str) -> ExecuteProcessRequest {
    ExecuteProcessRequest {
        argv: vec!["/bin/true".to_string()],
        env: Vec::new(),
        working_directory: None,
        input_files: Digest::empty(),
        unsafe_local_only_files_because_we_favor_speed_over_correctness_for_this_rule:
            Digest::empty(),
        output_files: Vec::new(),
        output_directories: Vec::new(),
        timeout_millis: 1000,
        description: description.to_string(),
        jdk_home: None,
    }
}

fn runner_on(platform: Platform) -> CommandRunner {
    CommandRunner::new("/tmp".to_string(), true, platform)
}

#[test]
fn agnostic_variant_wins_over_platform_variant() {
    let agnostic = request_described("agnostic");
    let linux_only = request_described("linux");
    let multi = MultiPlatformExecuteProcessRequest(vec![
        (
            (PlatformConstraint::Linux, PlatformConstraint::Any),
            linux_only,
        ),
        (
            (PlatformConstraint::Any, PlatformConstraint::Any),
            agnostic,
        ),
    ]);
    let runner = runner_on(Platform::Linux);
    let picked = runner.extract_compatible_request(&multi).unwrap();
    assert_eq!(picked.description, "agnostic");
}

#[test]
fn platform_variant_picked_when_no_agnostic_exists() {
    let linux_only = request_described("linux");
    let multi = MultiPlatformExecuteProcessRequest(vec![(
        (PlatformConstraint::Linux, PlatformConstraint::Any),
        linux_only,
    )]);
    let runner = runner_on(Platform::Linux);
    let picked = runner.extract_compatible_request(&multi).unwrap();
    assert_eq!(picked.description, "linux");
}

#[test]
fn exact_target_variant_is_last_resort() {
    let exact = request_described("exact");
    let multi = MultiPlatformExecuteProcessRequest(vec![(
        (PlatformConstraint::Darwin, PlatformConstraint::Darwin),
        exact,
    )]);
    let runner = runner_on(Platform::Darwin);
    let picked = runner.extract_compatible_request(&multi).unwrap();
    assert_eq!(picked.description, "exact");
}

#[test]
fn no_compatible_variant_yields_none() {
    let darwin_only = request_described("darwin");
    let multi = MultiPlatformExecuteProcessRequest(vec![(
        (PlatformConstraint::Darwin, PlatformConstraint::Any),
        darwin_only,
    )]);
    let runner = runner_on(Platform::Linux);
    assert!(runner.extract_compatible_request(&multi).is_none());
}

#[test]
fn platform_with_any_target_beats_exact_target() {
    let loose = request_described("loose");
    let exact = request_described("exact");
    let multi = MultiPlatformExecuteProcessRequest(vec![
        (
            (PlatformConstraint::Linux, PlatformConstraint::Linux),
            exact,
        ),
        (
            (PlatformConstraint::Linux, PlatformConstraint::Any),
            loose,
        ),
    ]);
    let runner = runner_on(Platform::Linux);
    let picked = runner.extract_compatible_request(&multi).unwrap();
    assert_eq!(picked.description, "loose");
}
