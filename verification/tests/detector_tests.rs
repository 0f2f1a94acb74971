use flutter_rust_project_cleaner::error::CleanerError;
use flutter_rust_project_cleaner::project::{Project, ProjectDetector, ProjectType};

#[test]
fn classify_neither_manifest_is_no_project() {
    assert_eq!(ProjectDetector::classify_manifests(false, false), None);
}

#[test]
fn classify_only_pubspec_is_flutter() {
    assert_eq!(
        ProjectDetector::classify_manifests(true, false),
        Some(ProjectType::Flutter)
    );
}

#[test]
fn classify_only_cargo_is_rust() {
    assert_eq!(
        ProjectDetector::classify_manifests(false, true),
        Some(ProjectType::Rust)
    );
}

#[test]
fn classify_both_manifests_is_mixed() {
    assert_eq!(
        ProjectDetector::classify_manifests(true, true),
        Some(ProjectType::Mixed)
    );
}

#[test]
fn detect_on_missing_directory_finds_nothing() {
    let r = ProjectDetector::detect("/no-such-directory-for-this-suite");
    assert_eq!(r, None);
    assert!(!ProjectDetector::is_project_root(
        "/no-such-directory-for-this-suite"
    ));
}

#[test]
fn new_project_has_no_metadata() {
    let p = Project::new("/tmp/demo".to_string(), ProjectType::Rust);
    assert_eq!(p.path, "/tmp/demo");
    assert_eq!(p.project_type, ProjectType::Rust);
    assert_eq!(p.metadata.name, None);
    assert_eq!(p.metadata.version, None);
    assert_eq!(p.metadata.last_modified, None);
    assert_eq!(p.metadata.estimated_size, None);
}

#[test]
fn project_name_prefers_collected_name() {
    let mut p = Project::new("/tmp/demo".to_string(), ProjectType::Rust);
    p.metadata.name = Some("shiny".to_string());
    assert_eq!(p.name(), "shiny");
}

#[test]
fn project_name_falls_back_to_last_path_component() {
    let p = Project::new("/home/dev/work/widget".to_string(), ProjectType::Flutter);
    assert_eq!(p.name(), "widget");
}

#[test]
fn project_name_ignores_trailing_separators() {
    let p = Project::new("ends/with/slash/".to_string(), ProjectType::Rust);
    assert_eq!(p.name(), "slash");
    let q = Project::new("doubled//".to_string(), ProjectType::Rust);
    assert_eq!(q.name(), "doubled");
}

#[test]
fn project_name_of_empty_or_bare_path_is_unknown() {
    let p = Project::new(String::new(), ProjectType::Rust);
    assert_eq!(p.name(), "unknown");
    let root = Project::new("/".to_string(), ProjectType::Rust);
    assert_eq!(root.name(), "unknown");
    let here = Project::new(".".to_string(), ProjectType::Rust);
    assert_eq!(here.name(), "unknown");
    let up = Project::new("a/..".to_string(), ProjectType::Rust);
    assert_eq!(up.name(), "unknown");
}

#[test]
fn error_messages_name_their_subject() {
    let e = CleanerError::PathAccess {
        path: "/x".to_string(),
        detail: "gone".to_string(),
    };
    assert_eq!(e.message(), "Failed to access path: /x");
    assert_eq!(
        CleanerError::FlutterNotFound.message(),
        "Flutter executable not found in PATH"
    );
    assert_eq!(
        CleanerError::CargoNotFound.message(),
        "Cargo executable not found in PATH"
    );
    assert_eq!(CleanerError::Interrupted.message(), "Interrupted by user");
    let f = CleanerError::CommandFailed {
        command: "cargo clean".to_string(),
        code: 101,
    };
    assert_eq!(f.message(), "Command failed: cargo clean");
    let g = CleanerError::CommandExecution {
        command: "flutter clean".to_string(),
        detail: "missing interpreter".to_string(),
    };
    assert_eq!(g.message(), "Failed to execute command: flutter clean");
    let h = CleanerError::ConfigError("bad toml".to_string());
    assert_eq!(h.message(), "Invalid configuration: bad toml");
    let i = CleanerError::PermissionDenied {
        path: "/locked".to_string(),
    };
    assert_eq!(i.message(), "Insufficient permissions for /locked");
}
