use vstd::prelude::*;
use crate::project::ProjectType;

verus! {

/// The configuration-management subcommands.
#[derive(Debug, Clone, Copy, PartialEq, Eq, Structural)]
pub enum ConfigCommands {
    Init,
    Show,
    Edit,
}

/// A project-type filter as named on the command line.
#[derive(Debug, Clone, Copy, PartialEq, Eq, Structural)]
pub enum ProjectTypeFilter {
    Flutter,
    Rust,
    Mixed,
}

impl ProjectTypeFilter {
    /// The project type this filter selects.
    pub fn to_project_type(self) -> (r: ProjectType)
        ensures
            self is Flutter ==> r == ProjectType::Flutter,
            self is Rust ==> r == ProjectType::Rust,
            self is Mixed ==> r == ProjectType::Mixed,
    {
        match self {
            ProjectTypeFilter::Flutter => ProjectType::Flutter,
            ProjectTypeFilter::Rust => ProjectType::Rust,
            ProjectTypeFilter::Mixed => ProjectType::Mixed,
        }
    }
}

/// The persisted settings: default exclude patterns, the argument list
/// each kind's clean command is run with, the parallelism cap, and the
/// interaction toggles.
#[derive(Debug)]
pub struct Config {
    pub default_exclude: Vec<String>,
    pub flutter_clean_args: Vec<String>,
    pub cargo_clean_args: Vec<String>,
    pub max_parallel_jobs: Option<usize>,
    pub interactive_by_default: bool,
    pub show_progress: bool,
    pub confirm_before_clean: bool,
}

impl Default for Config {
    /// The out-of-the-box settings: common build and metadata directories
    /// excluded, each kind run with its `clean` subcommand, parallelism
    /// left to the host, progress shown, confirmation asked.
    fn default() -> (r: Self)
        ensures
            r.default_exclude@.len() == 4,
            r.default_exclude@[0]@ == "node_modules"@,
            r.default_exclude@[1]@ == ".git"@,
            r.default_exclude@[2]@ == "target"@,
            r.default_exclude@[3]@ == "build"@,
            r.flutter_clean_args@.len() == 1,
            r.flutter_clean_args@[0]@ == "clean"@,
            r.cargo_clean_args@.len() == 1,
            r.cargo_clean_args@[0]@ == "clean"@,
            r.max_parallel_jobs is None,
            !r.interactive_by_default,
            r.show_progress,
            r.confirm_before_clean,
    {
        let mut default_exclude: Vec<String> = Vec::new();
        default_exclude.push("node_modules".to_owned());
        default_exclude.push(".git".to_owned());
        default_exclude.push("target".to_owned());
        default_exclude.push("build".to_owned());
        let mut flutter_clean_args: Vec<String> = Vec::new();
        flutter_clean_args.push("clean".to_owned());
        let mut cargo_clean_args: Vec<String> = Vec::new();
        cargo_clean_args.push("clean".to_owned());
        Config {
            default_exclude,
            flutter_clean_args,
            cargo_clean_args,
            max_parallel_jobs: None,
            interactive_by_default: false,
            show_progress: true,
            confirm_before_clean: true,
        }
    }
}

} // verus!
