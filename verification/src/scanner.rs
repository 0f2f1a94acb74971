use vstd::prelude::*;
use crate::error::CleanerError;
use crate::host;
use crate::host::{CancelToken, FsEntry};
use crate::manifest::MetadataCollector;
use crate::project::{classify_spec, joined, join_path, Project, ProjectDetector, ProjectType};

verus! {

/// What `glob_match::glob_match` answers for a pattern and a path. The
/// matching semantics would take pages to state; the answer depends on the
/// two strings alone, so it is given this name and contracts speak of it.
pub uninterp spec fn glob_match_of(pattern: Seq<char>, path: Seq<char>) -> bool;

/// Relies on `glob_match::glob_match`: whether `path` matches the glob
/// `pattern`.
#[verifier::external_body]
pub fn glob_matches(pattern: &String, path: &String) -> (r: bool)
    ensures
        r == glob_match_of(pattern@, path@),
{
    glob_match::glob_match(pattern, path)
}

/// Whether `path` matches at least one of the glob `patterns`.
pub open spec fn matches_any(patterns: Seq<String>, path: Seq<char>) -> bool {
    exists|i: int| 0 <= i < patterns.len() && #[trigger] glob_match_of(patterns[i]@, path)
}

/// Whether `path` matches some pattern of `patterns`.
pub fn matches_any_pattern(patterns: &Vec<String>, path: &String) -> (r: bool)
    ensures
        r == matches_any(patterns@, path@),
{
    let mut i: usize = 0;
    while i < patterns.len()
        invariant
            0 <= i <= patterns@.len(),
            forall|j: int| 0 <= j < i ==> !(#[trigger] glob_match_of(patterns@[j]@, path@)),
        decreases patterns@.len() - i,
    {
        if glob_matches(&patterns[i], path) {
            return true;
        }
        i = i + 1;
    }
    false
}

/// Walks a directory tree from a root, applying a depth bound and
/// include/exclude glob filters, classifying each directory by its
/// manifests, and reporting the accepted projects; supports cooperative
/// cancellation.
#[derive(Debug, Clone)]
pub struct Scanner {
    pub max_depth: Option<usize>,
    pub exclude_patterns: Vec<String>,
    pub include_patterns: Vec<String>,
    pub project_type_filter: Vec<ProjectType>,
    pub show_progress: bool,
}

/// Whether the directory at `dir` has an entry named `name` as a direct
/// child, among the walked `entries`.
pub open spec fn has_child_file(entries: Seq<FsEntry>, dir: Seq<char>, name: Seq<char>) -> bool {
    exists|i: int| 0 <= i < entries.len() && #[trigger] entries[i].path@ == joined(dir, name)
}

/// The classification of the directory `dir` judged from the walked
/// `entries`: which of the two manifests appear as its direct children.
pub open spec fn entry_classification(entries: Seq<FsEntry>, dir: Seq<char>) -> Option<
    ProjectType,
> {
    classify_spec(
        has_child_file(entries, dir, "pubspec.yaml"@),
        has_child_file(entries, dir, "Cargo.toml"@),
    )
}

impl Scanner {
    /// Whether filtering drops the path from the candidate set: when
    /// include patterns exist the path must match one of them, and it must
    /// match no exclude pattern.
    pub open spec fn spec_excluded(self, path: Seq<char>) -> bool {
        (self.include_patterns@.len() > 0 && !matches_any(self.include_patterns@, path))
            || matches_any(self.exclude_patterns@, path)
    }

    /// Whether the type filter admits `t` (an empty filter admits all).
    pub open spec fn spec_type_allowed(self, t: ProjectType) -> bool {
        self.project_type_filter@.len() == 0 || self.project_type_filter@.contains(t)
    }

    /// Whether depth `d` is within the configured bound.
    pub open spec fn spec_depth_ok(self, d: usize) -> bool {
        match self.max_depth {
            None => true,
            Some(m) => d <= m,
        }
    }

    /// Whether the walked entry `e` becomes a candidate project: a
    /// directory within the depth bound, not dropped by filtering,
    /// classified as a project whose type the filter admits.
    pub open spec fn spec_accepts(self, all: Seq<FsEntry>, e: FsEntry) -> bool {
        &&& e.is_dir
        &&& self.spec_depth_ok(e.depth)
        &&& !self.spec_excluded(e.path@)
        &&& entry_classification(all, e.path@) is Some
        &&& self.spec_type_allowed(entry_classification(all, e.path@)->0)
    }

    /// The candidate projects among the first `n` walked entries, in walk
    /// order: each accepted entry's path paired with its classification.
    pub open spec fn spec_candidates(self, all: Seq<FsEntry>, n: int) -> Seq<
        (Seq<char>, ProjectType),
    >
        decreases n,
    {
        if n <= 0 {
            Seq::empty()
        } else {
            let rest = self.spec_candidates(all, n - 1);
            let e = all[n - 1];
            if self.spec_accepts(all, e) {
                rest.push((e.path@, entry_classification(all, e.path@)->0))
            } else {
                rest
            }
        }
    }

    /// A scanner with no depth bound, no filters, and progress display on.
    pub fn new() -> (r: Scanner)
        ensures
            r.max_depth is None,
            r.exclude_patterns@.len() == 0,
            r.include_patterns@.len() == 0,
            r.project_type_filter@.len() == 0,
            r.show_progress,
    {
        Scanner {
            max_depth: None,
            exclude_patterns: Vec::new(),
            include_patterns: Vec::new(),
            project_type_filter: Vec::new(),
            show_progress: true,
        }
    }

    pub fn with_max_depth(self, depth: Option<usize>) -> (r: Scanner)
        ensures
            r == (Scanner { max_depth: depth, ..self }),
    {
        Scanner { max_depth: depth, ..self }
    }

    pub fn with_exclude_patterns(self, patterns: Vec<String>) -> (r: Scanner)
        ensures
            r == (Scanner { exclude_patterns: patterns, ..self }),
    {
        Scanner { exclude_patterns: patterns, ..self }
    }

    pub fn with_include_patterns(self, patterns: Vec<String>) -> (r: Scanner)
        ensures
            r == (Scanner { include_patterns: patterns, ..self }),
    {
        Scanner { include_patterns: patterns, ..self }
    }

    pub fn with_project_type_filter(self, types: Vec<ProjectType>) -> (r: Scanner)
        ensures
            r == (Scanner { project_type_filter: types, ..self }),
    {
        Scanner { project_type_filter: types, ..self }
    }

    pub fn with_progress(self, show: bool) -> (r: Scanner)
        ensures
            r == (Scanner { show_progress: show, ..self }),
    {
        Scanner { show_progress: show, ..self }
    }

    /// Whether filtering drops `path` from the candidate set.
    pub fn should_exclude(&self, path: &String) -> (r: bool)
        ensures
            r == self.spec_excluded(path@),
    {
        if self.include_patterns.len() > 0 && !matches_any_pattern(&self.include_patterns, path) {
            return true;
        }
        matches_any_pattern(&self.exclude_patterns, path)
    }

    /// Whether the type filter admits `t`.
    pub fn matches_filter(&self, t: ProjectType) -> (r: bool)
        ensures
            r == self.spec_type_allowed(t),
    {
        if self.project_type_filter.len() == 0 {
            return true;
        }
        let mut i: usize = 0;
        while i < self.project_type_filter.len()
            invariant
                0 <= i <= self.project_type_filter@.len(),
                forall|j: int| 0 <= j < i ==> self.project_type_filter@[j] != t,
            decreases self.project_type_filter@.len() - i,
        {
            if self.project_type_filter[i] == t {
                assert(self.project_type_filter@.contains(t));
                return true;
            }
            i = i + 1;
        }
        false
    }

    /// Whether depth `d` is within the configured bound.
    pub fn depth_ok(&self, d: usize) -> (r: bool)
        ensures
            r == self.spec_depth_ok(d),
    {
        match self.max_depth {
            None => true,
            Some(m) => d <= m,
        }
    }
}

/// Whether the directory at `dir` has a direct child named `name` among
/// the walked `entries`.
pub fn has_child(entries: &Vec<FsEntry>, dir: &String, name: &str) -> (r: bool)
    ensures
        r == has_child_file(entries@, dir@, name@),
{
    let target = join_path(dir.as_str(), name);
    let mut i: usize = 0;
    while i < entries.len()
        invariant
            0 <= i <= entries@.len(),
            target@ == joined(dir@, name@),
            forall|j: int| 0 <= j < i ==> #[trigger] entries@[j].path@ != joined(dir@, name@),
        decreases entries@.len() - i,
    {
        if entries[i].path == target {
            assert(entries@[i as int].path@ == joined(dir@, name@));
            return true;
        }
        i = i + 1;
    }
    false
}

/// The byte sizes of the regular files among the entries, summed as
/// mathematical integers; directories and symbolic links count nothing.
pub open spec fn sum_sizes_spec(entries: Seq<FsEntry>) -> int
    decreases entries.len(),
{
    if entries.len() == 0 {
        0
    } else {
        sum_sizes_spec(entries.drop_last()) + if entries.last().is_file {
            entries.last().size as int
        } else {
            0int
        }
    }
}

/// Sum the byte sizes of the regular files among the walked entries,
/// saturating at `u64::MAX`.
pub fn sum_entry_sizes(entries: &Vec<FsEntry>) -> (r: u64)
    ensures
        sum_sizes_spec(entries@) <= u64::MAX ==> r == sum_sizes_spec(entries@),
        sum_sizes_spec(entries@) > u64::MAX ==> r == u64::MAX,
{
    let mut r: u64 = 0;
    let mut i: usize = 0;
    while i < entries.len()
        invariant
            0 <= i <= entries@.len(),
            sum_sizes_spec(entries@.take(i as int)) <= u64::MAX ==> r == sum_sizes_spec(
                entries@.take(i as int),
            ),
            sum_sizes_spec(entries@.take(i as int)) > u64::MAX ==> r == u64::MAX,
        decreases entries@.len() - i,
    {
        proof {
            assert(entries@.take(i + 1).drop_last() =~= entries@.take(i as int));
            assert(entries@.take(i + 1).last() == entries@[i as int]);
            lemma_sum_sizes_nonneg(entries@.take(i as int));
        }
        let x: u64 = if entries[i].is_file {
            entries[i].size
        } else {
            0
        };
        if x > u64::MAX - r {
            r = u64::MAX;
        } else {
            r = r + x;
        }
        i = i + 1;
    }
    proof {
        assert(entries@.take(entries@.len() as int) =~= entries@);
    }
    r
}

/// The summed sizes are never negative.
proof fn lemma_sum_sizes_nonneg(entries: Seq<FsEntry>)
    ensures
        sum_sizes_spec(entries) >= 0,
    decreases entries.len(),
{
    if entries.len() > 0 {
        lemma_sum_sizes_nonneg(entries.drop_last());
    }
}

/// Recursive byte size of the tree under `path`: the host walks it without
/// following symbolic links, and the sizes of the regular files it reports
/// are summed, saturating at `u64::MAX`. What the host reports depends on
/// the disk, so no more is promised here; the fold over it is exact in
/// `sum_entry_sizes`.
pub fn directory_size(path: &String) -> u64 {
    let entries = host::walk_entries(path, None);
    sum_entry_sizes(&entries)
}

/// The borrowed text of an optional manifest.
fn opt_text(o: &Option<String>) -> (r: Option<&str>)
    ensures
        crate::manifest::text_of(r) == o.deep_view(),
{
    match o {
        Some(s) => Some(s.as_str()),
        None => None,
    }
}

impl Scanner {
    /// The filtered, classified scan over a sequence of walked entries.
    /// Either the scan runs to completion and returns exactly the
    /// candidates the configuration selects, in walk order — each enriched
    /// from its manifest texts as the host handed them back — or
    /// cancellation was observed at some directory node and the whole scan
    /// reports an interruption: never a partial list.
    pub fn scan_entries(&self, entries: &Vec<FsEntry>, interrupted: &CancelToken) -> (r: Result<
        Vec<Project>,
        CleanerError,
    >)
        ensures
            (match r {
                Ok(ps) => {
                    let want = self.spec_candidates(entries@, entries@.len() as int);
                    &&& ps@.len() == want.len()
                    &&& forall|j: int|
                        #![trigger ps@[j]]
                        0 <= j < want.len() ==> {
                            &&& ps@[j].path@ == want[j].0
                            &&& ps@[j].project_type == want[j].1
                            &&& ps@[j].metadata.estimated_size is Some
                        }
                },
                Err(e) => e == CleanerError::Interrupted,
            }),
            entries@.len() == 0 ==> r is Ok,
    {
        let mut out: Vec<Project> = Vec::new();
        let mut i: usize = 0;
        while i < entries.len()
            invariant
                0 <= i <= entries@.len(),
                out@.len() == self.spec_candidates(entries@, i as int).len(),
                forall|j: int|
                    #![trigger out@[j]]
                    0 <= j < out@.len() ==> {
                        let want = self.spec_candidates(entries@, i as int);
                        &&& out@[j].path@ == want[j].0
                        &&& out@[j].project_type == want[j].1
                        &&& out@[j].metadata.estimated_size is Some
                    },
            decreases entries@.len() - i,
        {
            if interrupted.is_cancelled() {
                return Err(CleanerError::Interrupted);
            }
            let e = &entries[i];
            let ghost pre = self.spec_candidates(entries@, i as int);
            if e.is_dir && self.depth_ok(e.depth) && !self.should_exclude(&e.path) {
                let has_pubspec = has_child(entries, &e.path, "pubspec.yaml");
                let has_cargo = has_child(entries, &e.path, "Cargo.toml");
                if let Some(t) = ProjectDetector::classify_manifests(has_pubspec, has_cargo) {
                    if self.matches_filter(t) {
                        let mut p = Project::new(e.path.clone(), t);
                        p.metadata.last_modified = host::mtime_secs_of(&e.path);
                        p.metadata.estimated_size = Some(directory_size(&e.path));
                        let pubspec_text: Option<String> = if has_pubspec {
                            let mp = join_path(e.path.as_str(), "pubspec.yaml");
                            host::read_text_at(&mp)
                        } else {
                            None
                        };
                        let cargo_text: Option<String> = if has_cargo {
                            let mc = join_path(e.path.as_str(), "Cargo.toml");
                            host::read_text_at(&mc)
                        } else {
                            None
                        };
                        MetadataCollector::collect(
                            &mut p,
                            opt_text(&pubspec_text),
                            opt_text(&cargo_text),
                        );
                        out.push(p);
                    }
                }
            }
            i = i + 1;
            proof {
                let en = entries@[i - 1];
                if self.spec_accepts(entries@, en) {
                    assert(self.spec_candidates(entries@, i as int) == pre.push(
                        (en.path@, entry_classification(entries@, en.path@)->0),
                    ));
                } else {
                    assert(self.spec_candidates(entries@, i as int) == pre);
                }
            }
        }
        Ok(out)
    }

    /// Scan the directory tree under `root_path` with a fresh, never
    /// raised cancellation token.
    pub fn scan(&self, root_path: &String) -> (r: Result<Vec<Project>, CleanerError>)
        ensures
            (match r {
                Ok(ps) => (forall|j: int|
                    #![trigger ps@[j]]
                    0 <= j < ps@.len() ==> self.spec_type_allowed(ps@[j].project_type)
                        && !self.spec_excluded(ps@[j].path@)) && (forall|j: int, k: int|
                    0 <= j < k < ps@.len() ==> ps@[j].path@ != ps@[k].path@),
                Err(e) => (e is PathAccess || e == CleanerError::Interrupted) && (e
                    matches CleanerError::PathAccess { path: p, detail: _ } ==> p@ == root_path@),
            }),
    {
        let token = CancelToken::new();
        self.scan_with_interrupt(root_path, &token)
    }

    /// Scan the directory tree under `root_path`, checking `interrupted`
    /// at every directory node. The root must exist and be a directory,
    /// else the scan fails with a path-access error naming the root,
    /// before any traversal. The host's walk decides which entries are
    /// seen; whatever it reported, every returned project passed the
    /// configured filters, no two returned projects share a path, and an
    /// interrupted scan returns no projects at all.
    pub fn scan_with_interrupt(&self, root_path: &String, interrupted: &CancelToken) -> (r: Result<
        Vec<Project>,
        CleanerError,
    >)
        ensures
            (match r {
                Ok(ps) => (forall|j: int|
                    #![trigger ps@[j]]
                    0 <= j < ps@.len() ==> self.spec_type_allowed(ps@[j].project_type)
                        && !self.spec_excluded(ps@[j].path@)) && (forall|j: int, k: int|
                    0 <= j < k < ps@.len() ==> ps@[j].path@ != ps@[k].path@),
                Err(e) => (e is PathAccess || e == CleanerError::Interrupted) && (e
                    matches CleanerError::PathAccess { path: p, detail: _ } ==> p@ == root_path@),
            }),
    {
        if !host::exists_at(root_path) {
            return Err(
                CleanerError::PathAccess {
                    path: root_path.clone(),
                    detail: "Path does not exist".to_owned(),
                },
            );
        }
        if !host::is_dir_at(root_path) {
            return Err(
                CleanerError::PathAccess {
                    path: root_path.clone(),
                    detail: "Path is not a directory".to_owned(),
                },
            );
        }
        // Walk one level past the depth bound so that the manifest files
        // of a directory sitting exactly at the bound are still seen; the
        // bound itself is enforced on candidates by `spec_depth_ok`.
        let cap: Option<usize> = match self.max_depth {
            None => None,
            Some(d) => Some(if d < usize::MAX { d + 1 } else { d }),
        };
        let entries = host::walk_entries(root_path, cap);
        let r = self.scan_entries(&entries, interrupted);
        proof {
            lemma_candidates_sound(*self, entries@, entries@.len() as int);
            lemma_candidates_distinct(*self, entries@, entries@.len() as int);
        }
        r
    }
}

/// Every candidate a scan selects is some walked directory entry's path
/// with its classification.
proof fn lemma_candidates_sources(sc: Scanner, all: Seq<FsEntry>, n: int)
    ensures
        forall|j: int|
            #![trigger sc.spec_candidates(all, n)[j]]
            0 <= j < sc.spec_candidates(all, n).len() ==> exists|i: int|
                0 <= i < n && sc.spec_candidates(all, n)[j].0 == #[trigger] all[i].path@,
    decreases n,
{
    if n > 0 {
        lemma_candidates_sources(sc, all, n - 1);
        let rest = sc.spec_candidates(all, n - 1);
        let cur = sc.spec_candidates(all, n);
        assert forall|j: int| #![trigger cur[j]] 0 <= j < cur.len() implies exists|i: int|
            0 <= i < n && cur[j].0 == #[trigger] all[i].path@ by {
            if j < rest.len() {
                assert(cur[j] == rest[j]);
                let i = choose|i: int| 0 <= i < n - 1 && rest[j].0 == #[trigger] all[i].path@;
                assert(cur[j].0 == all[i].path@);
            } else {
                assert(cur[j].0 == all[n - 1].path@);
            }
        }
    }
}

/// On walked entries whose paths are pairwise distinct — as a tree walk
/// reports them — the scan's candidates have pairwise distinct paths too:
/// no project is reported twice.
pub proof fn lemma_candidates_distinct(sc: Scanner, all: Seq<FsEntry>, n: int)
    requires
        0 <= n <= all.len(),
        forall|i: int, j: int| 0 <= i < j < all.len() ==> all[i].path@ != all[j].path@,
    ensures
        forall|j: int, k: int|
            0 <= j < k < sc.spec_candidates(all, n).len() ==> sc.spec_candidates(all, n)[j].0
                != sc.spec_candidates(all, n)[k].0,
    decreases n,
{
    if n > 0 {
        lemma_candidates_distinct(sc, all, n - 1);
        lemma_candidates_sources(sc, all, n - 1);
        let rest = sc.spec_candidates(all, n - 1);
        let cur = sc.spec_candidates(all, n);
        let e = all[n - 1];
        if sc.spec_accepts(all, e) {
            assert(cur == rest.push((e.path@, entry_classification(all, e.path@)->0)));
            assert forall|j: int, k: int| 0 <= j < k < cur.len() implies cur[j].0 != cur[k].0 by {
                if k < rest.len() {
                    assert(cur[j] == rest[j] && cur[k] == rest[k]);
                } else {
                    assert(cur[j] == rest[j] && cur[k].0 == e.path@);
                    let i = choose|i: int|
                        0 <= i < n - 1 && rest[j].0 == #[trigger] all[i].path@;
                    assert(all[i].path@ != all[n - 1].path@);
                }
            }
        } else {
            assert(cur == rest);
        }
    }
}

/// Every candidate a scan selects passed the configured filters: its path
/// was not dropped by the include/exclude patterns and its type is
/// admitted by the type filter.
pub proof fn lemma_candidates_sound(sc: Scanner, all: Seq<FsEntry>, n: int)
    ensures
        forall|j: int|
            #![trigger sc.spec_candidates(all, n)[j]]
            0 <= j < sc.spec_candidates(all, n).len() ==> !sc.spec_excluded(
                sc.spec_candidates(all, n)[j].0,
            ) && sc.spec_type_allowed(sc.spec_candidates(all, n)[j].1),
    decreases n,
{
    if n > 0 {
        lemma_candidates_sound(sc, all, n - 1);
        let rest = sc.spec_candidates(all, n - 1);
        let e = all[n - 1];
        if sc.spec_accepts(all, e) {
            assert(sc.spec_candidates(all, n) == rest.push(
                (e.path@, entry_classification(all, e.path@)->0),
            ));
            assert(forall|j: int|
                0 <= j < rest.len() ==> #[trigger] sc.spec_candidates(all, n)[j] == rest[j]);
        } else {
            assert(sc.spec_candidates(all, n) == rest);
        }
    }
}

/// The project roots among the first `n` walked entries, in walk order:
/// every directory entry whose manifests classify it, with its class.
pub open spec fn project_roots_of(all: Seq<FsEntry>, n: int) -> Seq<(Seq<char>, ProjectType)>
    decreases n,
{
    if n <= 0 {
        Seq::empty()
    } else {
        let rest = project_roots_of(all, n - 1);
        let e = all[n - 1];
        if e.is_dir && entry_classification(all, e.path@) is Some {
            rest.push((e.path@, entry_classification(all, e.path@)->0))
        } else {
            rest
        }
    }
}

/// A scan with no filters and no depth bound selects exactly the project
/// roots among the walked entries, in walk order — as many candidates as
/// there are roots, each path one of the expected roots.
pub proof fn lemma_unfiltered_scan_finds_all_roots(sc: Scanner, all: Seq<FsEntry>, n: int)
    requires
        sc.include_patterns@.len() == 0,
        sc.exclude_patterns@.len() == 0,
        sc.project_type_filter@.len() == 0,
        sc.max_depth is None,
    ensures
        sc.spec_candidates(all, n) == project_roots_of(all, n),
    decreases n,
{
    if n > 0 {
        lemma_unfiltered_scan_finds_all_roots(sc, all, n - 1);
        let e = all[n - 1];
        assert(!sc.spec_excluded(e.path@));
    }
}

/// Exclusion removes exactly the matching directories from the candidate
/// set: no selected candidate's path matches an exclude pattern, and every
/// entry the scan otherwise accepts — its sibling projects included —
/// stays among the candidates.
pub proof fn lemma_exclude_removes_exactly_matches(sc: Scanner, all: Seq<FsEntry>, n: int)
    requires
        0 <= n <= all.len(),
    ensures
        forall|j: int|
            #![trigger sc.spec_candidates(all, n)[j]]
            0 <= j < sc.spec_candidates(all, n).len() ==> !matches_any(
                sc.exclude_patterns@,
                sc.spec_candidates(all, n)[j].0,
            ),
        forall|i: int|
            0 <= i < n && #[trigger] sc.spec_accepts(all, all[i]) ==> sc.spec_candidates(
                all,
                n,
            ).contains((all[i].path@, entry_classification(all, all[i].path@)->0)),
    decreases n,
{
    lemma_candidates_sound(sc, all, n);
    if n > 0 {
        lemma_exclude_removes_exactly_matches(sc, all, n - 1);
        let rest = sc.spec_candidates(all, n - 1);
        let cur = sc.spec_candidates(all, n);
        let e = all[n - 1];
        assert(forall|j: int|
            0 <= j < rest.len() ==> #[trigger] cur[j] == rest[j]);
        assert forall|i: int| 0 <= i < n && #[trigger] sc.spec_accepts(all, all[i]) implies cur
            .contains((all[i].path@, entry_classification(all, all[i].path@)->0)) by {
            let v = (all[i].path@, entry_classification(all, all[i].path@)->0);
            if i < n - 1 {
                assert(rest.contains(v));
                let j = choose|j: int| 0 <= j < rest.len() && rest[j] == v;
                assert(cur[j] == v);
            } else {
                assert(cur[cur.len() - 1] == v);
            }
        }
    }
}

} // verus!
