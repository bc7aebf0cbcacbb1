use process_execution::command::{join_path, plan_hermetic_command, StreamedHermeticCommand};
use process_execution::request::{Digest, ExecuteProcessRequest, RelPath};

fn basic_request(argv: Vec<&str>, env: Vec<(&str, &str)>) -> ExecuteProcessRequest {
    ExecuteProcessRequest {
        argv: argv.into_iter().map(|s| s.to_string()).collect(),
        env: env
            .into_iter()
            .map(|(k, v)| (k.to_string(), v.to_string()))
            .collect(),
        working_directory: None,
        input_files: Digest::empty(),
        unsafe_local_only_files_because_we_favor_speed_over_correctness_for_this_rule:
            Digest::empty(),
        output_files: Vec::new(),
        output_directories: Vec::new(),
        timeout_millis: 1000,
        description: "a hermetic command".to_string(),
        jdk_home: None,
    }
}

#[test]
fn new_command_starts_with_only_the_empty_path() {
    let cmd = StreamedHermeticCommand::new("/bin/echo");
    assert_eq!(cmd.program, "/bin/echo");
    assert!(cmd.args.is_empty());
    assert_eq!(cmd.env, vec![("PATH".to_string(), String::new())]);
    assert!(cmd.current_dir.is_none());
}

#[test]
fn hermetic_environment_is_path_then_declared_entries() {
    let req = basic_request(
        vec!["/bin/env"],
        vec![("HOME", "/nonexistent"), ("LANG", "C")],
    );
    let cmd = plan_hermetic_command("/sandbox", &req);
    assert_eq!(
        cmd.env,
        vec![
            ("PATH".to_string(), String::new()),
            ("HOME".to_string(), "/nonexistent".to_string()),
            ("LANG".to_string(), "C".to_string()),
        ]
    );
}

#[test]
fn declared_path_overrides_the_empty_one() {
    let req = basic_request(vec!["/bin/env"], vec![("PATH", "/usr/bin")]);
    let cmd = plan_hermetic_command("/sandbox", &req);
    // the deliberate empty entry comes first; the declared one, applied
    // later, wins in the spawned environment
    assert_eq!(cmd.env[0], ("PATH".to_string(), String::new()));
    assert_eq!(cmd.env[1], ("PATH".to_string(), "/usr/bin".to_string()));
}

#[test]
fn argv_splits_into_program_and_arguments() {
    let req = basic_request(vec!["/bin/echo", "-n", "hello"], Vec::new());
    let cmd = plan_hermetic_command("/sandbox", &req);
    assert_eq!(cmd.program, "/bin/echo");
    assert_eq!(cmd.args, vec!["-n".to_string(), "hello".to_string()]);
}

#[test]
fn working_directory_defaults_to_the_sandbox_root() {
    let req = basic_request(vec!["/bin/true"], Vec::new());
    let cmd = plan_hermetic_command("/sandbox", &req);
    assert_eq!(cmd.current_dir, Some("/sandbox".to_string()));
}

#[test]
fn working_subdirectory_is_joined_below_the_sandbox() {
    let mut req = basic_request(vec!["/bin/true"], Vec::new());
    req.working_directory = Some(RelPath::new(vec![
        "src".to_string(),
        "main".to_string(),
    ]));
    let cmd = plan_hermetic_command("/sandbox", &req);
    assert_eq!(cmd.current_dir, Some("/sandbox/src/main".to_string()));
}

#[test]
fn join_path_appends_each_segment() {
    let rel = RelPath::new(vec!["a".to_string(), "b".to_string()]);
    assert_eq!(join_path("/base", &rel), "/base/a/b");
    let empty = RelPath::new(Vec::new());
    assert_eq!(join_path("/base", &empty), "/base");
}
