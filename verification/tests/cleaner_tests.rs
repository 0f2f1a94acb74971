use flutter_rust_project_cleaner::cleaner::{
    count_successes, sum_sizes_saturating, total_space_freed, CleanKind, CleanResult, Cleaner,
    CommandOutcome,
};
use flutter_rust_project_cleaner::error::CleanerError;
use flutter_rust_project_cleaner::host::DirProbe;
use flutter_rust_project_cleaner::project::{Project, ProjectType};

fn quiet_cleaner(dry_run: bool) -> Cleaner {
    Cleaner::new(
        dry_run,
        vec!["clean".to_string()],
        vec!["clean".to_string()],
        Some(2),
    )
    .with_progress(false)
}

#[test]
fn kinds_table_covers_each_project_type() {
    assert_eq!(Cleaner::kinds_for(ProjectType::Flutter), vec![CleanKind::Flutter]);
    assert_eq!(Cleaner::kinds_for(ProjectType::Rust), vec![CleanKind::Rust]);
    assert_eq!(
        Cleaner::kinds_for(ProjectType::Mixed),
        vec![CleanKind::Flutter, CleanKind::Rust]
    );
}

#[test]
fn tool_names_and_labels_follow_the_kind() {
    assert_eq!(Cleaner::tool_name(CleanKind::Flutter), "flutter");
    assert_eq!(Cleaner::tool_name(CleanKind::Rust), "cargo");
    assert_eq!(Cleaner::command_label(CleanKind::Flutter), "flutter clean");
    assert_eq!(Cleaner::command_label(CleanKind::Rust), "cargo clean");
}

#[test]
fn reclaimable_directories_follow_the_kind() {
    assert_eq!(
        Cleaner::reclaimable_dir_names(CleanKind::Flutter),
        vec![".dart_tool", "build", ".flutter-plugins-dependencies"]
    );
    assert_eq!(Cleaner::reclaimable_dir_names(CleanKind::Rust), vec!["target"]);
}

#[test]
fn parallelism_is_never_below_one() {
    let c = Cleaner::new(false, Vec::new(), Vec::new(), Some(0));
    assert_eq!(c.parallelism, 1);
    let c = Cleaner::new(false, Vec::new(), Vec::new(), Some(4));
    assert_eq!(c.parallelism, 4);
    let c = Cleaner::new(false, Vec::new(), Vec::new(), None);
    assert!(c.parallelism >= 1);
}

#[test]
fn dry_run_plans_no_commands_at_all() {
    let dry = quiet_cleaner(true);
    assert_eq!(dry.steps_to_run(ProjectType::Mixed).len(), 0);
    assert_eq!(dry.steps_to_run(ProjectType::Rust).len(), 0);
    let wet = quiet_cleaner(false);
    assert_eq!(
        wet.steps_to_run(ProjectType::Mixed),
        vec![CleanKind::Flutter, CleanKind::Rust]
    );
}

#[test]
fn clean_exit_passes_and_nonzero_exit_keeps_the_code() {
    let ok = Cleaner::step_result(CleanKind::Rust, CommandOutcome::Exited { code: Some(0) });
    assert!(ok.is_ok());
    let failed = Cleaner::step_result(CleanKind::Rust, CommandOutcome::Exited { code: Some(101) });
    match failed {
        Err(CleanerError::CommandFailed { command, code }) => {
            assert_eq!(command, "cargo clean");
            assert_eq!(code, 101);
        }
        other => panic!("expected a command failure, got {:?}", other),
    }
}

#[test]
fn signal_termination_is_reported_with_code_minus_one() {
    let r = Cleaner::step_result(CleanKind::Flutter, CommandOutcome::Exited { code: None });
    match r {
        Err(CleanerError::CommandFailed { command, code }) => {
            assert_eq!(command, "flutter clean");
            assert_eq!(code, -1);
        }
        other => panic!("expected a command failure, got {:?}", other),
    }
}

#[test]
fn launch_failure_is_distinct_from_a_failing_exit() {
    let r = Cleaner::step_result(
        CleanKind::Flutter,
        CommandOutcome::LaunchFailed {
            detail: "missing interpreter".to_string(),
        },
    );
    match r {
        Err(CleanerError::CommandExecution { command, detail }) => {
            assert_eq!(command, "flutter clean");
            assert_eq!(detail, "missing interpreter");
        }
        other => panic!("expected a launch failure, got {:?}", other),
    }
}

#[test]
fn permission_probe_maps_to_the_error_taxonomy() {
    let path = "/p/q".to_string();
    assert!(Cleaner::permission_result(DirProbe::Readable, &path).is_ok());
    match Cleaner::permission_result(DirProbe::Denied, &path) {
        Err(CleanerError::PermissionDenied { path: p }) => assert_eq!(p, "/p/q"),
        other => panic!("expected a permission error, got {:?}", other),
    }
    match Cleaner::permission_result(DirProbe::Unreadable, &path) {
        Err(CleanerError::PathAccess { path: p, .. }) => assert_eq!(p, "/p/q"),
        other => panic!("expected a path-access error, got {:?}", other),
    }
}

#[test]
fn missing_tool_error_names_the_kind() {
    let c = quiet_cleaner(false);
    if let Err(e) = c.check_command_available(CleanKind::Flutter) {
        assert!(matches!(e, CleanerError::FlutterNotFound));
    }
    if let Err(e) = c.check_command_available(CleanKind::Rust) {
        assert!(matches!(e, CleanerError::CargoNotFound));
    }
}

#[test]
fn tool_check_passes_exactly_when_found() {
    assert!(Cleaner::tool_check_result(CleanKind::Flutter, true).is_ok());
    assert!(Cleaner::tool_check_result(CleanKind::Rust, true).is_ok());
    assert!(matches!(
        Cleaner::tool_check_result(CleanKind::Flutter, false),
        Err(CleanerError::FlutterNotFound)
    ));
    assert!(matches!(
        Cleaner::tool_check_result(CleanKind::Rust, false),
        Err(CleanerError::CargoNotFound)
    ));
}

#[test]
fn size_figures_sum_exactly_and_saturate() {
    assert_eq!(sum_sizes_saturating(&vec![7, 11, 13]), 31);
    assert_eq!(sum_sizes_saturating(&Vec::new()), 0);
    assert_eq!(sum_sizes_saturating(&vec![u64::MAX, 1]), u64::MAX);
}

#[test]
fn all_steps_passing_makes_a_successful_result() {
    let c = quiet_cleaner(false);
    let p = Project::new("/w/app".to_string(), ProjectType::Rust);
    let r = c.finish_project(p, 512, vec![Ok(())]);
    assert!(r.success);
    assert_eq!(r.space_freed, Some(512));
    assert!(r.error.is_none());
}

#[test]
fn mixed_first_failure_is_the_one_reported() {
    let c = quiet_cleaner(false);
    let p = Project::new("/w/both".to_string(), ProjectType::Mixed);
    let steps: Vec<Result<(), CleanerError>> = vec![
        Err(CleanerError::FlutterNotFound),
        Ok(()),
    ];
    let r = c.finish_project(p, 2048, steps);
    assert!(!r.success);
    assert!(matches!(r.error, Some(CleanerError::FlutterNotFound)));
    assert_eq!(r.space_freed, None);
}

#[test]
fn a_result_never_contradicts_itself() {
    let c = quiet_cleaner(false);
    let good = c.finish_project(
        Project::new("/w/a".to_string(), ProjectType::Rust),
        9,
        vec![Ok(())],
    );
    assert!(!(good.success && good.error.is_some()));
    assert!(!(!good.success && good.space_freed.is_some()));
    let bad = c.finish_project(
        Project::new("/w/b".to_string(), ProjectType::Rust),
        9,
        vec![Err(CleanerError::CargoNotFound)],
    );
    assert!(!(bad.success && bad.error.is_some()));
    assert!(!(!bad.success && bad.space_freed.is_some()));
}

#[test]
fn dry_run_succeeds_with_the_measured_estimate() {
    let dry = quiet_cleaner(true);
    let projects = vec![
        Project::new("/no-such-tree/alpha".to_string(), ProjectType::Flutter),
        Project::new("/no-such-tree/beta".to_string(), ProjectType::Rust),
        Project::new("/no-such-tree/gamma".to_string(), ProjectType::Mixed),
    ];
    let expected: Vec<u64> = projects
        .iter()
        .map(|p| dry.estimate_cleanable_size(p))
        .collect();
    let results = dry.dry_run_results(projects);
    assert_eq!(results.len(), 3);
    for (r, want) in results.iter().zip(expected.iter()) {
        assert!(r.success);
        assert!(r.error.is_none());
        assert_eq!(r.space_freed, Some(*want));
    }
}

fn made_result(path: &str, success: bool, space: Option<u64>) -> CleanResult {
    CleanResult {
        project: Project::new(path.to_string(), ProjectType::Rust),
        success,
        error: if success {
            None
        } else {
            Some(CleanerError::CargoNotFound)
        },
        space_freed: space,
    }
}

#[test]
fn aggregation_counts_successes_and_sums_space() {
    let rs = vec![
        made_result("/a", true, Some(10)),
        made_result("/b", false, None),
        made_result("/c", true, Some(32)),
    ];
    assert_eq!(count_successes(&rs), 2);
    assert_eq!(total_space_freed(&rs), 42);
    assert_eq!(count_successes(&Vec::new()), 0);
    assert_eq!(total_space_freed(&Vec::new()), 0);
}

#[test]
fn all_succeeding_projects_total_the_sum_of_their_sizes() {
    let sizes: Vec<u64> = vec![7, 11, 13, 17];
    let rs: Vec<CleanResult> = sizes
        .iter()
        .enumerate()
        .map(|(i, s)| made_result(&format!("/p{}", i), true, Some(*s)))
        .collect();
    assert_eq!(count_successes(&rs), 4);
    assert_eq!(total_space_freed(&rs), 48);
}

#[test]
fn space_total_saturates_instead_of_wrapping() {
    let rs = vec![
        made_result("/a", true, Some(u64::MAX)),
        made_result("/b", true, Some(5)),
    ];
    assert_eq!(total_space_freed(&rs), u64::MAX);
}

#[test]
fn reclaimable_paths_follow_the_kind_table() {
    let rust = Project::new("/w/app".to_string(), ProjectType::Rust);
    assert_eq!(Cleaner::reclaimable_paths(&rust), vec!["/w/app/target"]);
    let flutter = Project::new("/w/ui".to_string(), ProjectType::Flutter);
    assert_eq!(
        Cleaner::reclaimable_paths(&flutter),
        vec![
            "/w/ui/.dart_tool",
            "/w/ui/build",
            "/w/ui/.flutter-plugins-dependencies"
        ]
    );
    let mixed = Project::new("/w/both".to_string(), ProjectType::Mixed);
    assert_eq!(
        Cleaner::reclaimable_paths(&mixed),
        vec![
            "/w/both/.dart_tool",
            "/w/both/build",
            "/w/both/.flutter-plugins-dependencies",
            "/w/both/target"
        ]
    );
}
