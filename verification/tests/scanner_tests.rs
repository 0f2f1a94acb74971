use flutter_rust_project_cleaner::error::CleanerError;
use flutter_rust_project_cleaner::host::{CancelToken, FsEntry};
use flutter_rust_project_cleaner::project::ProjectType;
use flutter_rust_project_cleaner::scanner::{matches_any_pattern, sum_entry_sizes, Scanner};

fn dir(path: &str, depth: usize) -> FsEntry {
    FsEntry {
        path: path.to_string(),
        depth,
        is_dir: true,
        is_file: false,
        size: 0,
    }
}

fn file(path: &str, depth: usize, size: u64) -> FsEntry {
    FsEntry {
        path: path.to_string(),
        depth,
        is_dir: false,
        is_file: true,
        size,
    }
}

/// A small tree with one Flutter and one Rust project under the root.
fn two_project_tree() -> Vec<FsEntry> {
    vec![
        dir("/work", 0),
        dir("/work/flutter_project", 1),
        file("/work/flutter_project/pubspec.yaml", 2, 24),
        dir("/work/rust_project", 1),
        file("/work/rust_project/Cargo.toml", 2, 30),
        dir("/work/notes", 1),
        file("/work/notes/todo.txt", 2, 5),
    ]
}

#[test]
fn scan_finds_each_independent_root_exactly_once() {
    let scanner = Scanner::new().with_progress(false);
    let token = CancelToken::new();
    let projects = scanner
        .scan_entries(&two_project_tree(), &token)
        .expect("scan should complete");
    assert_eq!(projects.len(), 2);
    assert_eq!(projects[0].path, "/work/flutter_project");
    assert_eq!(projects[0].project_type, ProjectType::Flutter);
    assert_eq!(projects[1].path, "/work/rust_project");
    assert_eq!(projects[1].project_type, ProjectType::Rust);
    assert!(projects[0].metadata.estimated_size.is_some());
    assert!(projects[1].metadata.estimated_size.is_some());
}

#[test]
fn scan_classifies_a_directory_with_both_manifests_as_mixed() {
    let entries = vec![
        dir("/work", 0),
        dir("/work/both", 1),
        file("/work/both/pubspec.yaml", 2, 10),
        file("/work/both/Cargo.toml", 2, 10),
    ];
    let scanner = Scanner::new();
    let token = CancelToken::new();
    let projects = scanner.scan_entries(&entries, &token).unwrap();
    assert_eq!(projects.len(), 1);
    assert_eq!(projects[0].project_type, ProjectType::Mixed);
}

#[test]
fn exclude_pattern_removes_exactly_the_matching_project() {
    let entries = vec![
        dir("/root", 0),
        dir("/root/included", 1),
        file("/root/included/Cargo.toml", 2, 9),
        dir("/root/excluded", 1),
        file("/root/excluded/Cargo.toml", 2, 9),
    ];
    let scanner = Scanner::new().with_exclude_patterns(vec!["**/excluded".to_string()]);
    let token = CancelToken::new();
    let projects = scanner.scan_entries(&entries, &token).unwrap();
    assert_eq!(projects.len(), 1);
    assert!(projects[0].path.ends_with("included"));
}

#[test]
fn include_patterns_limit_the_candidate_set() {
    let entries = two_project_tree();
    let scanner = Scanner::new().with_include_patterns(vec!["**/rust_*".to_string()]);
    let token = CancelToken::new();
    let projects = scanner.scan_entries(&entries, &token).unwrap();
    assert_eq!(projects.len(), 1);
    assert_eq!(projects[0].path, "/work/rust_project");
}

#[test]
fn type_filter_keeps_only_the_named_kinds() {
    let entries = two_project_tree();
    let scanner = Scanner::new().with_project_type_filter(vec![ProjectType::Flutter]);
    let token = CancelToken::new();
    let projects = scanner.scan_entries(&entries, &token).unwrap();
    assert_eq!(projects.len(), 1);
    assert_eq!(projects[0].project_type, ProjectType::Flutter);
}

#[test]
fn depth_bound_drops_projects_below_it() {
    let entries = vec![
        dir("/r", 0),
        dir("/r/shallow", 1),
        file("/r/shallow/Cargo.toml", 2, 1),
        dir("/r/shallow/deep", 2),
        file("/r/shallow/deep/Cargo.toml", 3, 1),
    ];
    let scanner = Scanner::new().with_max_depth(Some(1));
    let token = CancelToken::new();
    let projects = scanner.scan_entries(&entries, &token).unwrap();
    assert_eq!(projects.len(), 1);
    assert_eq!(projects[0].path, "/r/shallow");
}

#[test]
fn cancelled_scan_reports_interruption_and_no_projects() {
    let scanner = Scanner::new();
    let token = CancelToken::new();
    token.cancel();
    let r = scanner.scan_entries(&two_project_tree(), &token);
    match r {
        Err(CleanerError::Interrupted) => {}
        other => panic!("expected an interruption, got {:?}", other),
    }
}

#[test]
fn cancel_is_visible_through_every_handle() {
    let token = CancelToken::new();
    let other = token.handle();
    assert!(!token.is_cancelled());
    other.cancel();
    assert!(token.is_cancelled());
}

#[test]
fn scan_of_missing_root_fails_with_path_access() {
    let scanner = Scanner::new();
    let r = scanner.scan(&"/no-such-root-for-this-suite".to_string());
    match r {
        Err(CleanerError::PathAccess { path, .. }) => {
            assert_eq!(path, "/no-such-root-for-this-suite");
        }
        other => panic!("expected a path-access error, got {:?}", other),
    }
}

#[test]
fn glob_matching_distinguishes_paths() {
    let patterns = vec!["**/node_modules".to_string()];
    assert!(matches_any_pattern(
        &patterns,
        &"/a/b/node_modules".to_string()
    ));
    assert!(!matches_any_pattern(&patterns, &"/a/b/src".to_string()));
    assert!(!matches_any_pattern(&Vec::new(), &"/a/b/src".to_string()));
}

#[test]
fn entry_sizes_sum_regular_files_only_and_saturate() {
    let mut entries = vec![file("/a", 1, 10), file("/b", 1, 32)];
    let mut blocks = dir("/c", 1);
    blocks.size = 4096;
    entries.push(blocks);
    let mut link = file("/d", 1, 77);
    link.is_file = false;
    link.is_dir = false;
    entries.push(link);
    assert_eq!(sum_entry_sizes(&entries), 42);
    let big = vec![file("/a", 1, u64::MAX), file("/b", 1, 7)];
    assert_eq!(sum_entry_sizes(&big), u64::MAX);
    assert_eq!(sum_entry_sizes(&Vec::new()), 0);
}

#[test]
fn nested_projects_are_independently_discoverable() {
    let entries = vec![
        dir("/mono", 0),
        file("/mono/Cargo.toml", 1, 3),
        dir("/mono/member", 1),
        file("/mono/member/Cargo.toml", 2, 3),
    ];
    let scanner = Scanner::new();
    let token = CancelToken::new();
    let projects = scanner.scan_entries(&entries, &token).unwrap();
    assert_eq!(projects.len(), 2);
    assert_eq!(projects[0].path, "/mono");
    assert_eq!(projects[1].path, "/mono/member");
}

#[test]
fn scanning_no_entries_completes_with_no_projects() {
    let scanner = Scanner::new();
    let token = CancelToken::new();
    let projects = scanner.scan_entries(&Vec::new(), &token).unwrap();
    assert_eq!(projects.len(), 0);
}
