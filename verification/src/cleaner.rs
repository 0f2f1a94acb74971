use vstd::prelude::*;
use crate::error::CleanerError;
use crate::host;
use crate::host::DirProbe;
use crate::project::{join_path, joined, Project, ProjectType};
use crate::scanner::directory_size;

verus! {

/// The two kinds of clean work, dispatched through one data-driven table;
/// a mixed project folds over both kinds.
#[derive(Debug, Clone, Copy, PartialEq, Eq, Structural)]
pub enum CleanKind {
    Flutter,
    Rust,
}

/// The kinds of clean work a project's type calls for, in the order they
/// are attempted: a mixed project runs the Flutter kind first, then Rust.
pub open spec fn kinds_spec(t: ProjectType) -> Seq<CleanKind> {
    match t {
        ProjectType::Flutter => seq![CleanKind::Flutter],
        ProjectType::Rust => seq![CleanKind::Rust],
        ProjectType::Mixed => seq![CleanKind::Flutter, CleanKind::Rust],
    }
}

/// The executable each kind's clean command runs.
pub open spec fn tool_name_spec(k: CleanKind) -> Seq<char> {
    match k {
        CleanKind::Flutter => "flutter"@,
        CleanKind::Rust => "cargo"@,
    }
}

/// The label each kind's command is reported under in errors.
pub open spec fn command_label_spec(k: CleanKind) -> Seq<char> {
    match k {
        CleanKind::Flutter => "flutter clean"@,
        CleanKind::Rust => "cargo clean"@,
    }
}

/// The build and cache directories of each kind whose contents are safe
/// to delete; size estimates are taken over these.
pub open spec fn reclaimable_dirs_spec(k: CleanKind) -> Seq<Seq<char>> {
    match k {
        CleanKind::Flutter => seq![".dart_tool"@, "build"@, ".flutter-plugins-dependencies"@],
        CleanKind::Rust => seq!["target"@],
    }
}

/// The full paths of one kind's reclaimable directories under `root`.
pub open spec fn kind_paths_spec(root: Seq<char>, k: CleanKind) -> Seq<Seq<char>> {
    Seq::new(reclaimable_dirs_spec(k).len(), |i: int| joined(root, reclaimable_dirs_spec(k)[i]))
}

/// The full reclaimable paths under `root` for the kinds `ks`, in order.
pub open spec fn paths_for_kinds_spec(root: Seq<char>, ks: Seq<CleanKind>) -> Seq<Seq<char>>
    decreases ks.len(),
{
    if ks.len() == 0 {
        Seq::empty()
    } else {
        paths_for_kinds_spec(root, ks.drop_last()) + kind_paths_spec(root, ks.last())
    }
}

/// The directories whose sizes a project's reclaimable-space estimate
/// sums: each applicable kind's build and cache directories joined under
/// the project's path, in kind order.
pub open spec fn reclaimable_paths_spec(root: Seq<char>, t: ProjectType) -> Seq<Seq<char>> {
    paths_for_kinds_spec(root, kinds_spec(t))
}

/// The error reported when a kind's external tool is not on the search
/// path.
pub open spec fn missing_tool_error_spec(k: CleanKind) -> CleanerError {
    match k {
        CleanKind::Flutter => CleanerError::FlutterNotFound,
        CleanKind::Rust => CleanerError::CargoNotFound,
    }
}

/// What the host observed of one external clean command.
#[derive(Debug)]
pub enum CommandOutcome {
    /// The process could not be launched at all; the text says why.
    LaunchFailed { detail: String },
    /// The process ran and exited with this code (`None` where the
    /// platform reported no code, e.g. termination by a signal).
    Exited { code: Option<i32> },
}

/// Whether an observed outcome counts as success: a normal exit with
/// code 0.
pub open spec fn outcome_ok_spec(o: CommandOutcome) -> bool {
    o matches CommandOutcome::Exited { code } && code == Some(0i32)
}

/// An external command ready to run: the program, its arguments, and the
/// project directory to run it in.
#[derive(Debug)]
pub struct CommandSpec {
    pub program: String,
    pub args: Vec<String>,
    pub cwd: String,
}

/// The outcome of one project's clean attempt (or dry run).
#[derive(Debug)]
pub struct CleanResult {
    pub project: Project,
    pub success: bool,
    pub error: Option<CleanerError>,
    pub space_freed: Option<u64>,
}

/// The result invariant: a successful result carries no error; a failed
/// one carries an error and never a reclaimed-space figure.
pub open spec fn result_wf(r: CleanResult) -> bool {
    &&& r.success ==> r.error is None
    &&& !r.success ==> r.error is Some
    &&& !r.success ==> r.space_freed is None
}

/// A well-formed clean result never has both `error` set and `success`
/// true, nor `space_freed` set and `success` false.
pub proof fn lemma_result_never_contradicts(r: CleanResult)
    requires
        result_wf(r),
    ensures
        !(r.success && r.error is Some),
        !(!r.success && r.space_freed is Some),
{
}

/// The first failure among the step results at or after position `i`.
pub open spec fn first_error_from(steps: Seq<Result<(), CleanerError>>, i: int) -> Option<
    CleanerError,
>
    decreases steps.len() - i,
{
    if i < 0 || i >= steps.len() {
        None
    } else if steps[i] is Err {
        Some(steps[i]->Err_0)
    } else {
        first_error_from(steps, i + 1)
    }
}

/// The first failure among the per-kind step results, if any.
pub open spec fn first_error_spec(steps: Seq<Result<(), CleanerError>>) -> Option<CleanerError> {
    first_error_from(steps, 0)
}

/// Whether every step of a clean attempt succeeded.
pub open spec fn all_ok_spec(steps: Seq<Result<(), CleanerError>>) -> bool {
    forall|i: int| 0 <= i < steps.len() ==> steps[i] is Ok
}

/// Both kinds of a mixed project are attempted even after a failure, and
/// the first-encountered failure is the one reported: a project whose
/// first kind's command fails while the second kind's succeeds comes out
/// failed with the first kind's error. A partially successful mixed clean
/// is never rolled back.
pub proof fn lemma_mixed_first_failure_reported(
    e: CleanerError,
    steps: Seq<Result<(), CleanerError>>,
)
    requires
        steps.len() == 2,
        steps[0] == Err::<(), CleanerError>(e),
        steps[1] is Ok,
    ensures
        !all_ok_spec(steps),
        first_error_spec(steps) == Some(e),
{
    assert(steps[0] is Err);
}

/// Clone a list of strings, keeping each string's text.
fn clone_strings(v: &Vec<String>) -> (r: Vec<String>)
    ensures
        r.deep_view() == v.deep_view(),
{
    let mut r: Vec<String> = Vec::new();
    let mut i: usize = 0;
    while i < v.len()
        invariant
            0 <= i <= v@.len(),
            r@.len() == i,
            forall|j: int| 0 <= j < i ==> #[trigger] r@[j]@ == v@[j]@,
        decreases v@.len() - i,
    {
        r.push(v[i].clone());
        i = i + 1;
    }
    proof {
        assert(r.deep_view() =~= v.deep_view());
    }
    r
}

/// Invokes the appropriate external clean command for each project of a
/// collection — or, in dry-run mode, only reports size estimates — and
/// collects a per-project outcome. `parallelism` is the worker-pool width
/// the caller should fan out with; it never affects any single project's
/// result, since each project's pipeline depends on that project alone.
#[derive(Debug)]
pub struct Cleaner {
    pub dry_run: bool,
    pub flutter_args: Vec<String>,
    pub cargo_args: Vec<String>,
    pub parallelism: usize,
    pub progress: bool,
}

impl Cleaner {
    /// A cleaner with the given mode and per-kind argument lists. The
    /// parallelism degree defaults to the host's processor count and is
    /// never below 1.
    pub fn new(
        dry_run: bool,
        flutter_args: Vec<String>,
        cargo_args: Vec<String>,
        parallelism: Option<usize>,
    ) -> (r: Cleaner)
        ensures
            r.dry_run == dry_run,
            r.flutter_args == flutter_args,
            r.cargo_args == cargo_args,
            r.progress,
            r.parallelism >= 1,
            parallelism matches Some(p) ==> r.parallelism == (if p >= 1 {
                p
            } else {
                1
            }),
    {
        let par: usize = match parallelism {
            Some(p) => if p >= 1 {
                p
            } else {
                1
            },
            None => host::cpu_count(),
        };
        Cleaner { dry_run, flutter_args, cargo_args, parallelism: par, progress: true }
    }

    pub fn with_progress(self, progress: bool) -> (r: Cleaner)
        ensures
            r == (Cleaner { progress, ..self }),
    {
        Cleaner { progress, ..self }
    }

    /// The kinds of clean work a project of type `t` calls for, in order.
    pub fn kinds_for(t: ProjectType) -> (r: Vec<CleanKind>)
        ensures
            r@ == kinds_spec(t),
    {
        let mut v: Vec<CleanKind> = Vec::new();
        match t {
            ProjectType::Flutter => {
                v.push(CleanKind::Flutter);
            },
            ProjectType::Rust => {
                v.push(CleanKind::Rust);
            },
            ProjectType::Mixed => {
                v.push(CleanKind::Flutter);
                v.push(CleanKind::Rust);
            },
        }
        proof {
            assert(v@ =~= kinds_spec(t));
        }
        v
    }

    /// The external commands this cleaner will run for a project of type
    /// `t`: none at all in dry-run mode — a dry run never invokes an
    /// external process — otherwise one per applicable kind, in order.
    pub fn steps_to_run(&self, t: ProjectType) -> (r: Vec<CleanKind>)
        ensures
            self.dry_run ==> r@.len() == 0,
            !self.dry_run ==> r@ == kinds_spec(t),
    {
        if self.dry_run {
            Vec::new()
        } else {
            Self::kinds_for(t)
        }
    }

    /// The executable a kind's clean command runs.
    pub fn tool_name(k: CleanKind) -> (r: &'static str)
        ensures
            r@ == tool_name_spec(k),
    {
        match k {
            CleanKind::Flutter => "flutter",
            CleanKind::Rust => "cargo",
        }
    }

    /// The label a kind's command is reported under in errors.
    pub fn command_label(k: CleanKind) -> (r: &'static str)
        ensures
            r@ == command_label_spec(k),
    {
        match k {
            CleanKind::Flutter => "flutter clean",
            CleanKind::Rust => "cargo clean",
        }
    }

    /// The reclaimable build and cache directory names of a kind.
    pub fn reclaimable_dir_names(k: CleanKind) -> (r: Vec<&'static str>)
        ensures
            r@.len() == reclaimable_dirs_spec(k).len(),
            forall|i: int| 0 <= i < r@.len() ==> #[trigger] r@[i]@ == reclaimable_dirs_spec(k)[i],
    {
        let mut v: Vec<&'static str> = Vec::new();
        match k {
            CleanKind::Flutter => {
                v.push(".dart_tool");
                v.push("build");
                v.push(".flutter-plugins-dependencies");
            },
            CleanKind::Rust => {
                v.push("target");
            },
        }
        v
    }

    /// The reclaimable directories of a project, each joined under its
    /// path: exactly the paths `reclaimable_paths_spec` lists, in order.
    pub fn reclaimable_paths(project: &Project) -> (r: Vec<String>)
        ensures
            r@.len() == reclaimable_paths_spec(project.path@, project.project_type).len(),
            forall|x: int|
                0 <= x < r@.len() ==> #[trigger] r@[x]@ == reclaimable_paths_spec(
                    project.path@,
                    project.project_type,
                )[x],
    {
        let kinds = Self::kinds_for(project.project_type);
        let ghost root = project.path@;
        let mut r: Vec<String> = Vec::new();
        let mut i: usize = 0;
        #[verifier::loop_isolation(false)]
        while i < kinds.len()
            invariant
                0 <= i <= kinds@.len(),
                r@.len() == paths_for_kinds_spec(root, kinds@.take(i as int)).len(),
                forall|x: int|
                    0 <= x < r@.len() ==> #[trigger] r@[x]@ == paths_for_kinds_spec(
                        root,
                        kinds@.take(i as int),
                    )[x],
            decreases kinds@.len() - i,
        {
            let dirs = Self::reclaimable_dir_names(kinds[i]);
            let ghost pre = paths_for_kinds_spec(root, kinds@.take(i as int));
            let ghost kp = kind_paths_spec(root, kinds@[i as int]);
            let mut j: usize = 0;
            #[verifier::loop_isolation(false)]
            while j < dirs.len()
                invariant
                    0 <= j <= dirs@.len(),
                    r@.len() == pre.len() + j,
                    forall|x: int| 0 <= x < pre.len() ==> #[trigger] r@[x]@ == pre[x],
                    forall|x: int|
                        pre.len() <= x < r@.len() ==> #[trigger] r@[x]@ == kp[x - pre.len()],
                decreases dirs@.len() - j,
            {
                r.push(join_path(project.path.as_str(), dirs[j]));
                j = j + 1;
            }
            i = i + 1;
            proof {
                assert(kinds@.take(i as int).drop_last() =~= kinds@.take(i - 1));
                assert(paths_for_kinds_spec(root, kinds@.take(i as int)) == pre + kp);
            }
        }
        proof {
            assert(kinds@.take(kinds@.len() as int) =~= kinds@);
        }
        r
    }

    /// Estimate the reclaimable size of a project: the subtree sizes of
    /// exactly its reclaimable directories — `reclaimable_paths` fixes
    /// which — folded by the exact `sum_sizes_saturating`. The
    /// per-directory figures come from the host's walks of the disk, so
    /// the result itself cannot be pinned here.
    pub fn estimate_cleanable_size(&self, project: &Project) -> u64 {
        let paths = Self::reclaimable_paths(project);
        let mut sizes: Vec<u64> = Vec::new();
        let mut i: usize = 0;
        while i < paths.len()
            invariant
                0 <= i <= paths@.len(),
                sizes@.len() == i,
            decreases paths@.len() - i,
        {
            sizes.push(directory_size(&paths[i]));
            i = i + 1;
        }
        sum_sizes_saturating(&sizes)
    }

    /// Judge a tool probe's answer: the check passes exactly when the
    /// kind's executable was found, and fails with that kind's
    /// tool-not-found error.
    pub fn tool_check_result(kind: CleanKind, found: bool) -> (r: Result<(), CleanerError>)
        ensures
            (r is Ok) == found,
            r matches Err(e) ==> e == missing_tool_error_spec(kind),
    {
        if found {
            Ok(())
        } else {
            match kind {
                CleanKind::Flutter => Err(CleanerError::FlutterNotFound),
                CleanKind::Rust => Err(CleanerError::CargoNotFound),
            }
        }
    }

    /// Check that a kind's external tool can be located on the search
    /// path, before anything is touched. Whether the host finds it cannot
    /// be pinned here; `tool_check_result` judges whatever it answered.
    pub fn check_command_available(&self, kind: CleanKind) -> (r: Result<(), CleanerError>)
        ensures
            r matches Err(e) ==> e == missing_tool_error_spec(kind),
    {
        let found = host::tool_on_path(Self::tool_name(kind));
        Self::tool_check_result(kind, found)
    }

    /// Map what probing a directory found to the clean step's result:
    /// readable passes, a permission refusal is reported as such for
    /// remediation, any other failure as a path-access error.
    pub fn permission_result(probe: DirProbe, path: &String) -> (r: Result<(), CleanerError>)
        ensures
            (probe is Readable) == (r is Ok),
            probe is Denied ==> (r matches Err(CleanerError::PermissionDenied { path: p }) && p@
                == path@),
            probe is Unreadable ==> (r matches Err(
                CleanerError::PathAccess { path: p, detail: _ },
            ) && p@ == path@),
    {
        match probe {
            DirProbe::Readable => Ok(()),
            DirProbe::Denied => Err(CleanerError::PermissionDenied { path: path.clone() }),
            DirProbe::Unreadable => Err(
                CleanerError::PathAccess {
                    path: path.clone(),
                    detail: "Failed to read directory".to_owned(),
                },
            ),
        }
    }

    /// Probe the project directory for readability and judge the answer
    /// by `permission_result`.
    pub fn check_permissions(&self, path: &String) -> (r: Result<(), CleanerError>)
        ensures
            r matches Err(e) ==> (e matches CleanerError::PermissionDenied { path: p } && p@
                == path@) || (e matches CleanerError::PathAccess { path: p, detail: _ } && p@
                == path@),
    {
        let probe = host::probe_dir(path);
        Self::permission_result(probe, path)
    }

    /// Prepare one kind's clean command for a project: verify the tool is
    /// locatable and the project directory readable — failing fast, before
    /// any process is spawned — and hand back the command to run in the
    /// project's directory with this cleaner's configured arguments.
    pub fn prepare_step(&self, project: &Project, kind: CleanKind) -> (r: Result<
        CommandSpec,
        CleanerError,
    >)
        ensures
            r matches Ok(c) ==> {
                &&& c.program@ == tool_name_spec(kind)
                &&& c.args.deep_view() == (if kind == CleanKind::Flutter {
                    self.flutter_args.deep_view()
                } else {
                    self.cargo_args.deep_view()
                })
                &&& c.cwd@ == project.path@
            },
            r matches Err(e) ==> (e == missing_tool_error_spec(kind)) || (e
                matches CleanerError::PermissionDenied { path: p } && p@ == project.path@) || (e
                matches CleanerError::PathAccess { path: p, detail: _ } && p@ == project.path@),
    {
        match self.check_command_available(kind) {
            Err(e) => {
                return Err(e);
            },
            Ok(_) => {},
        }
        match self.check_permissions(&project.path) {
            Err(e) => {
                return Err(e);
            },
            Ok(_) => {},
        }
        let args = match kind {
            CleanKind::Flutter => clone_strings(&self.flutter_args),
            CleanKind::Rust => clone_strings(&self.cargo_args),
        };
        Ok(
            CommandSpec {
                program: Self::tool_name(kind).to_owned(),
                args,
                cwd: project.path.clone(),
            },
        )
    }

    /// Judge what the host observed of one kind's command: a clean exit
    /// passes; a failure to launch and a non-zero exit are distinct
    /// errors, the exit code preserved for diagnostics (-1 where the
    /// platform reported none).
    pub fn step_result(kind: CleanKind, outcome: CommandOutcome) -> (r: Result<(), CleanerError>)
        ensures
            (r is Ok) == outcome_ok_spec(outcome),
            outcome matches CommandOutcome::LaunchFailed { detail } ==> (r matches Err(
                CleanerError::CommandExecution { command, detail: d },
            ) && command@ == command_label_spec(kind) && d == detail),
            (outcome matches CommandOutcome::Exited { code } && code != Some(0i32)) ==> (r
                matches Err(CleanerError::CommandFailed { command, code: c }) && command@
                == command_label_spec(kind) && c == outcome->code.unwrap_or(-1i32)),
    {
        match outcome {
            CommandOutcome::LaunchFailed { detail } => Err(
                CleanerError::CommandExecution {
                    command: Self::command_label(kind).to_owned(),
                    detail,
                },
            ),
            CommandOutcome::Exited { code } => match code {
                Some(c) => if c == 0 {
                    Ok(())
                } else {
                    Err(
                        CleanerError::CommandFailed {
                            command: Self::command_label(kind).to_owned(),
                            code: c,
                        },
                    )
                },
                None => Err(
                    CleanerError::CommandFailed {
                        command: Self::command_label(kind).to_owned(),
                        code: -1,
                    },
                ),
            },
        }
    }

    /// Fold a project's per-kind step results into its clean outcome: a
    /// success exactly when every step passed, carrying the size estimate
    /// then and only then; otherwise a failure carrying the
    /// first-encountered error as representative.
    pub fn finish_project(
        &self,
        project: Project,
        estimated_size: u64,
        steps: Vec<Result<(), CleanerError>>,
    ) -> (r: CleanResult)
        ensures
            r.project == project,
            r.success == all_ok_spec(steps@),
            r.error == first_error_spec(steps@),
            r.space_freed == (if all_ok_spec(steps@) {
                Some(estimated_size)
            } else {
                None::<u64>
            }),
            result_wf(r),
    {
        let ghost steps0 = steps@;
        let mut remaining = steps;
        let mut idx: usize = 0;
        #[verifier::loop_isolation(false)]
        while idx < remaining.len()
            invariant
                remaining@ == steps0,
                0 <= idx <= steps0.len(),
                forall|j: int| 0 <= j < idx ==> steps0[j] is Ok,
                first_error_from(steps0, 0) == first_error_from(steps0, idx as int),
            decreases steps0.len() - idx,
        {
            if remaining[idx].is_err() {
                let s = remaining.remove(idx);
                match s {
                    Err(e) => {
                        proof {
                            assert(steps0[idx as int] is Err);
                            assert(!all_ok_spec(steps0));
                            assert(first_error_from(steps0, idx as int) == Some(e));
                            assert(first_error_spec(steps0) == Some(e));
                        }
                        return CleanResult {
                            project,
                            success: false,
                            error: Some(e),
                            space_freed: None,
                        };
                    },
                    Ok(_) => {
                        proof {
                            assert(false);
                        }
                        return CleanResult {
                            project,
                            success: false,
                            error: None,
                            space_freed: None,
                        };
                    },
                }
            }
            idx = idx + 1;
        }
        CleanResult {
            project,
            success: true,
            error: None,
            space_freed: Some(estimated_size),
        }
    }

    /// The dry-run outcome for one project: success, no error, and the
    /// would-be reclaimed size — no destructive action stands behind it.
    pub fn dry_run_result(&self, project: Project, estimated_size: u64) -> (r: CleanResult)
        ensures
            r.project == project,
            r.success,
            r.error is None,
            r.space_freed == Some(estimated_size),
            result_wf(r),
    {
        CleanResult { project, success: true, error: None, space_freed: Some(estimated_size) }
    }

    /// Dry-run clean of one project: estimate its reclaimable size and
    /// report it as the would-be freed space; never a command.
    pub fn dry_run_project(&self, project: Project) -> (r: CleanResult)
        ensures
            r.project == project,
            r.success,
            r.error is None,
            r.space_freed is Some,
            result_wf(r),
    {
        let estimated = self.estimate_cleanable_size(&project);
        self.dry_run_result(project, estimated)
    }

    /// Dry-run clean of a whole project set: exactly one successful
    /// result per project, each carrying that project's size estimate,
    /// and no external process invoked anywhere.
    pub fn dry_run_results(&self, projects: Vec<Project>) -> (rs: Vec<CleanResult>)
        ensures
            rs@.len() == projects@.len(),
            forall|j: int|
                #![trigger rs@[j]]
                0 <= j < rs@.len() ==> {
                    &&& rs@[j].success
                    &&& rs@[j].error is None
                    &&& rs@[j].space_freed is Some
                    &&& rs@[j].project == projects@[j]
                    &&& result_wf(rs@[j])
                },
    {
        let ghost orig = projects@;
        let mut projects = projects;
        let mut rs: Vec<CleanResult> = Vec::new();
        while projects.len() > 0
            invariant
                rs@.len() + projects@.len() == orig.len(),
                projects@ == orig.subrange(rs@.len() as int, orig.len() as int),
                forall|j: int|
                    #![trigger rs@[j]]
                    0 <= j < rs@.len() ==> {
                        &&& rs@[j].success
                        &&& rs@[j].error is None
                        &&& rs@[j].space_freed is Some
                        &&& rs@[j].project == orig[j]
                        &&& result_wf(rs@[j])
                    },
            decreases projects@.len(),
        {
            let ghost k = rs@.len() as int;
            let p = projects.remove(0);
            proof {
                assert(p == orig[k]);
                assert(projects@ =~= orig.subrange(k + 1, orig.len() as int));
            }
            let r = self.dry_run_project(p);
            rs.push(r);
        }
        rs
    }
}

/// How many of the results report success.
pub open spec fn count_success_spec(rs: Seq<CleanResult>) -> int
    decreases rs.len(),
{
    if rs.len() == 0 {
        0
    } else {
        count_success_spec(rs.drop_last()) + if rs.last().success {
            1int
        } else {
            0int
        }
    }
}

/// The total of the reclaimed-space figures the results carry.
pub open spec fn total_freed_spec(rs: Seq<CleanResult>) -> int
    decreases rs.len(),
{
    if rs.len() == 0 {
        0
    } else {
        total_freed_spec(rs.drop_last()) + if rs.last().space_freed is Some {
            rs.last().space_freed->0 as int
        } else {
            0int
        }
    }
}

/// The sizes summed as mathematical integers.
pub open spec fn sum_u64_spec(sizes: Seq<u64>) -> int
    decreases sizes.len(),
{
    if sizes.len() == 0 {
        0
    } else {
        sum_u64_spec(sizes.drop_last()) + sizes.last()
    }
}

/// The summed sizes are never negative.
proof fn lemma_sum_u64_nonneg(sizes: Seq<u64>)
    ensures
        sum_u64_spec(sizes) >= 0,
    decreases sizes.len(),
{
    if sizes.len() > 0 {
        lemma_sum_u64_nonneg(sizes.drop_last());
    }
}

/// Sum a list of size figures, saturating at `u64::MAX`.
pub fn sum_sizes_saturating(sizes: &Vec<u64>) -> (t: u64)
    ensures
        sum_u64_spec(sizes@) <= u64::MAX ==> t == sum_u64_spec(sizes@),
        sum_u64_spec(sizes@) > u64::MAX ==> t == u64::MAX,
{
    let mut t: u64 = 0;
    let mut i: usize = 0;
    while i < sizes.len()
        invariant
            0 <= i <= sizes@.len(),
            sum_u64_spec(sizes@.take(i as int)) <= u64::MAX ==> t == sum_u64_spec(
                sizes@.take(i as int),
            ),
            sum_u64_spec(sizes@.take(i as int)) > u64::MAX ==> t == u64::MAX,
        decreases sizes@.len() - i,
    {
        proof {
            assert(sizes@.take(i + 1).drop_last() =~= sizes@.take(i as int));
            assert(sizes@.take(i + 1).last() == sizes@[i as int]);
            lemma_sum_u64_nonneg(sizes@.take(i as int));
        }
        let x = sizes[i];
        if x > u64::MAX - t {
            t = u64::MAX;
        } else {
            t = t + x;
        }
        i = i + 1;
    }
    proof {
        assert(sizes@.take(sizes@.len() as int) =~= sizes@);
    }
    t
}

/// The total of reclaimed-space figures is never negative.
proof fn lemma_total_freed_nonneg(rs: Seq<CleanResult>)
    ensures
        total_freed_spec(rs) >= 0,
    decreases rs.len(),
{
    if rs.len() > 0 {
        lemma_total_freed_nonneg(rs.drop_last());
    }
}

/// Count the successful results.
pub fn count_successes(rs: &Vec<CleanResult>) -> (n: usize)
    ensures
        n == count_success_spec(rs@),
{
    let mut n: usize = 0;
    let mut i: usize = 0;
    while i < rs.len()
        invariant
            0 <= i <= rs@.len(),
            n == count_success_spec(rs@.take(i as int)),
            n <= i,
        decreases rs@.len() - i,
    {
        proof {
            assert(rs@.take(i + 1).drop_last() =~= rs@.take(i as int));
            assert(rs@.take(i + 1).last() == rs@[i as int]);
        }
        if rs[i].success {
            n = n + 1;
        }
        i = i + 1;
    }
    proof {
        assert(rs@.take(rs@.len() as int) =~= rs@);
    }
    n
}

/// Total the reclaimed-space figures of the results, saturating at
/// `u64::MAX`.
pub fn total_space_freed(rs: &Vec<CleanResult>) -> (t: u64)
    ensures
        total_freed_spec(rs@) <= u64::MAX ==> t == total_freed_spec(rs@),
        total_freed_spec(rs@) > u64::MAX ==> t == u64::MAX,
{
    let mut t: u64 = 0;
    let mut i: usize = 0;
    while i < rs.len()
        invariant
            0 <= i <= rs@.len(),
            total_freed_spec(rs@.take(i as int)) <= u64::MAX ==> t == total_freed_spec(
                rs@.take(i as int),
            ),
            total_freed_spec(rs@.take(i as int)) > u64::MAX ==> t == u64::MAX,
        decreases rs@.len() - i,
    {
        proof {
            assert(rs@.take(i + 1).drop_last() =~= rs@.take(i as int));
            assert(rs@.take(i + 1).last() == rs@[i as int]);
            lemma_total_freed_nonneg(rs@.take(i as int));
        }
        let x: u64 = match rs[i].space_freed {
            Some(s) => s,
            None => 0,
        };
        if x > u64::MAX - t {
            t = u64::MAX;
        } else {
            t = t + x;
        }
        i = i + 1;
    }
    proof {
        assert(rs@.take(rs@.len() as int) =~= rs@);
    }
    t
}

/// Cleaning a set of independent projects that all succeed yields exactly
/// one successful result per project, and the total of the
/// reclaimed-space figures equals the sum of the individually measured
/// sizes. Each result depends on its own project alone, so the width of
/// the worker pool that produced them is immaterial.
pub proof fn lemma_all_success_aggregate(rs: Seq<CleanResult>, sizes: Seq<u64>)
    requires
        rs.len() == sizes.len(),
        forall|i: int| 0 <= i < rs.len() ==> (#[trigger] rs[i]).success && rs[i].space_freed
            == Some(sizes[i]),
    ensures
        count_success_spec(rs) == rs.len(),
        total_freed_spec(rs) == sum_u64_spec(sizes),
    decreases rs.len(),
{
    if rs.len() > 0 {
        lemma_all_success_aggregate(rs.drop_last(), sizes.drop_last());
    }
}

} // verus!

