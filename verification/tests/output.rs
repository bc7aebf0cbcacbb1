use process_execution::output::{exit_code_of_status, ChildOutput, ChildResults};

fn collect(events: Vec<ChildOutput>) -> ChildResults {
    ChildResults::collect_from(&events)
}

#[test]
fn round_trip_exit_zero() {
    let r = collect(vec![
        ChildOutput::Stdout(b"out".to_vec()),
        ChildOutput::Stderr(b"err".to_vec()),
        ChildOutput::Exit(0),
    ]);
    assert_eq!(r.stdout, b"out".to_vec());
    assert_eq!(r.stderr, b"err".to_vec());
    assert_eq!(r.exit_code, 0);
}

#[test]
fn round_trip_exit_one() {
    let r = collect(vec![
        ChildOutput::Stdout(b"alpha".to_vec()),
        ChildOutput::Stderr(b"beta".to_vec()),
        ChildOutput::Exit(1),
    ]);
    assert_eq!(r.stdout, b"alpha".to_vec());
    assert_eq!(r.stderr, b"beta".to_vec());
    assert_eq!(r.exit_code, 1);
}

#[test]
fn round_trip_exit_two() {
    let r = collect(vec![ChildOutput::Exit(2)]);
    assert!(r.stdout.is_empty());
    assert!(r.stderr.is_empty());
    assert_eq!(r.exit_code, 2);
}

#[test]
fn round_trip_exit_137() {
    let r = collect(vec![
        ChildOutput::Stderr(b"oom".to_vec()),
        ChildOutput::Exit(137),
    ]);
    assert_eq!(r.stderr, b"oom".to_vec());
    assert_eq!(r.exit_code, 137);
}

#[test]
fn channels_keep_their_own_order_across_interleaving() {
    let r = collect(vec![
        ChildOutput::Stdout(b"a".to_vec()),
        ChildOutput::Stderr(b"1".to_vec()),
        ChildOutput::Stdout(b"b".to_vec()),
        ChildOutput::Stderr(b"2".to_vec()),
        ChildOutput::Stdout(b"c".to_vec()),
        ChildOutput::Exit(0),
    ]);
    assert_eq!(r.stdout, b"abc".to_vec());
    assert_eq!(r.stderr, b"12".to_vec());
}

#[test]
fn missing_exit_event_defaults_to_zero() {
    let r = collect(vec![ChildOutput::Stdout(b"partial".to_vec())]);
    assert_eq!(r.exit_code, 0);
    assert_eq!(r.stdout, b"partial".to_vec());
}

#[test]
fn last_exit_event_wins() {
    let r = collect(vec![ChildOutput::Exit(3), ChildOutput::Exit(7)]);
    assert_eq!(r.exit_code, 7);
}

#[test]
fn empty_event_sequence_is_all_defaults() {
    let r = collect(Vec::new());
    assert!(r.stdout.is_empty());
    assert!(r.stderr.is_empty());
    assert_eq!(r.exit_code, 0);
}

#[test]
fn normal_exit_code_passes_through() {
    assert_eq!(exit_code_of_status(Some(0), None), 0);
    assert_eq!(exit_code_of_status(Some(42), None), 42);
}

#[test]
fn signal_termination_maps_to_negated_signal() {
    assert_eq!(exit_code_of_status(None, Some(9)), -9);
    assert_eq!(exit_code_of_status(None, Some(15)), -15);
    assert_eq!(exit_code_of_status(None, Some(2)), -2);
}

#[test]
fn exit_code_is_preferred_over_signal() {
    assert_eq!(exit_code_of_status(Some(1), Some(9)), 1);
}
