use process_execution::request::{Digest, RelPath};
use process_execution::snapshot::{
    glob_pattern, output_globs, output_parent_dirs, rel_path_string, snapshot_plan, OutputGlob,
    SnapshotPlan,
};

fn rel(path: &[&str]) -> RelPath {
    RelPath::new(path.iter().map(|s| s.to_string()).collect())
}

fn views(paths: &[RelPath]) -> Vec<Vec<String>> {
    paths.iter().map(|p| p.segments.clone()).collect()
}

#[test]
fn no_declared_outputs_yield_the_empty_plan() {
    let plan = snapshot_plan(&Vec::new(), &Vec::new());
    assert!(matches!(plan, SnapshotPlan::Empty));
}

#[test]
fn declared_outputs_yield_an_expansion_plan() {
    let plan = snapshot_plan(&vec![rel(&["a.txt"])], &Vec::new());
    assert!(matches!(plan, SnapshotPlan::Expand(_)));
}

#[test]
fn empty_output_directory_is_still_captured() {
    let globs = output_globs(&Vec::new(), &vec![rel(&["out"])]);
    assert_eq!(globs.len(), 2);
    match &globs[0] {
        OutputGlob::Path(p) => assert_eq!(p.segments, vec!["out".to_string()]),
        _ => panic!("expected the directory itself as a literal pattern"),
    }
    match &globs[1] {
        OutputGlob::Recursive(p) => assert_eq!(p.segments, vec!["out".to_string()]),
        _ => panic!("expected the recursive descendants pattern"),
    }
}

#[test]
fn globs_list_directories_then_files() {
    let globs = output_globs(
        &vec![rel(&["bin", "app"])],
        &vec![rel(&["out"]), rel(&["logs", "run"])],
    );
    assert_eq!(globs.len(), 5);
    assert!(matches!(&globs[0], OutputGlob::Path(p) if p.segments == vec!["out".to_string()]));
    assert!(matches!(&globs[1], OutputGlob::Recursive(p) if p.segments == vec!["out".to_string()]));
    assert!(
        matches!(&globs[2], OutputGlob::Path(p) if p.segments == vec!["logs".to_string(), "run".to_string()])
    );
    assert!(
        matches!(&globs[3], OutputGlob::Recursive(p) if p.segments == vec!["logs".to_string(), "run".to_string()])
    );
    assert!(
        matches!(&globs[4], OutputGlob::Path(p) if p.segments == vec!["bin".to_string(), "app".to_string()])
    );
}

#[test]
fn parent_directories_are_deduplicated() {
    let files = vec![rel(&["a", "b", "one.txt"]), rel(&["a", "b", "two.txt"])];
    let parents = output_parent_dirs(&files, &Vec::new());
    assert_eq!(
        views(&parents),
        vec![vec!["a".to_string(), "b".to_string()]]
    );
}

#[test]
fn parents_cover_files_and_directories() {
    let files = vec![rel(&["a", "b", "one.txt"])];
    let dirs = vec![rel(&["a", "c"])];
    let parents = output_parent_dirs(&files, &dirs);
    let got = views(&parents);
    assert_eq!(got.len(), 2);
    assert!(got.contains(&vec!["a".to_string(), "b".to_string()]));
    assert!(got.contains(&vec!["a".to_string()]));
}

#[test]
fn single_segment_path_has_the_sandbox_root_as_parent() {
    let parents = output_parent_dirs(&vec![rel(&["top.txt"])], &Vec::new());
    assert_eq!(views(&parents), vec![Vec::<String>::new()]);
}

#[test]
fn parent_of_a_relative_path() {
    assert_eq!(
        rel(&["a", "b", "c"]).parent().unwrap().segments,
        vec!["a".to_string(), "b".to_string()]
    );
    assert_eq!(rel(&["a"]).parent().unwrap().segments, Vec::<String>::new());
    assert!(rel(&[]).parent().is_none());
}

#[test]
fn glob_patterns_render_with_slashes_and_wildcard() {
    assert_eq!(
        glob_pattern(&OutputGlob::Path(rel(&["logs", "run"]))),
        "logs/run"
    );
    assert_eq!(glob_pattern(&OutputGlob::Recursive(rel(&["out"]))), "out/**");
    assert_eq!(rel_path_string(&rel(&["a"])), "a");
    assert_eq!(rel_path_string(&rel(&[])), "");
}

#[test]
fn empty_digest_is_the_sha256_of_no_bytes() {
    let d = Digest::empty();
    assert_eq!(d.size_bytes, 0);
    assert_eq!(d.fingerprint.len(), 32);
    assert_eq!(d.fingerprint[0], 0xe3);
    assert_eq!(d.fingerprint[31], 0x55);
}
