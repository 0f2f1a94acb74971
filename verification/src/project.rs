use vstd::prelude::*;
use vstd::string::StringExecFns;
use crate::host;

verus! {

/// Classification of a directory by which manifest files it holds as
/// direct children: `pubspec.yaml` marks a Flutter package, `Cargo.toml` a
/// Rust package, and both together a mixed project.
#[derive(Debug, Clone, Copy, PartialEq, Eq, Structural)]
pub enum ProjectType {
    Flutter,
    Rust,
    Mixed,
}

/// The decision table for classification: `has_pubspec` says whether
/// `pubspec.yaml` is a direct child of the directory, `has_cargo` whether
/// `Cargo.toml` is. A directory with neither is not a project root.
pub open spec fn classify_spec(has_pubspec: bool, has_cargo: bool) -> Option<ProjectType> {
    match (has_pubspec, has_cargo) {
        (true, true) => Some(ProjectType::Mixed),
        (true, false) => Some(ProjectType::Flutter),
        (false, true) => Some(ProjectType::Rust),
        (false, false) => None,
    }
}

/// Whether either manifest is present, i.e. the directory is a project root.
pub open spec fn is_root_spec(has_pubspec: bool, has_cargo: bool) -> bool {
    has_pubspec || has_cargo
}

/// A directory is a project root exactly when classification finds a
/// project type for it.
pub proof fn lemma_root_iff_classified(has_pubspec: bool, has_cargo: bool)
    ensures
        is_root_spec(has_pubspec, has_cargo) == (classify_spec(has_pubspec, has_cargo) is Some),
{
}

/// Joining a child name onto a directory path with a `/` separator.
pub open spec fn joined(dir: Seq<char>, name: Seq<char>) -> Seq<char> {
    dir + "/"@ + name
}

/// Append `name` to the directory path `dir`, separated by `/`.
pub fn join_path(dir: &str, name: &str) -> (r: String)
    ensures
        r@ == joined(dir@, name@),
{
    let mut s = dir.to_owned();
    s.append("/");
    s.append(name);
    s
}

/// Best-effort descriptive facts about a discovered project. Absence of a
/// field means it could not be determined; it never signals an error.
#[derive(Debug)]
pub struct ProjectMetadata {
    pub name: Option<String>,
    pub version: Option<String>,
    /// Modification time of the project directory, in whole seconds since
    /// the Unix epoch.
    pub last_modified: Option<u64>,
    /// Recursive byte size of the project directory's regular files.
    pub estimated_size: Option<u64>,
}

impl Default for ProjectMetadata {
    /// Fresh metadata with every field still undetermined.
    fn default() -> (r: Self)
        ensures
            r.name is None,
            r.version is None,
            r.last_modified is None,
            r.estimated_size is None,
    {
        ProjectMetadata { name: None, version: None, last_modified: None, estimated_size: None }
    }
}

/// One discovered, classified project directory. The path identifies the
/// project; path and type never change after creation.
#[derive(Debug)]
pub struct Project {
    pub path: String,
    pub project_type: ProjectType,
    pub metadata: ProjectMetadata,
}

/// Clone an optional string.
fn clone_opt_string(s: &Option<String>) -> (r: Option<String>)
    ensures
        r == s,
{
    match s {
        Some(x) => Some(x.clone()),
        None => None,
    }
}

impl Clone for ProjectMetadata {
    /// An equal copy.
    fn clone(&self) -> (r: Self)
        ensures
            r == *self,
    {
        ProjectMetadata {
            name: clone_opt_string(&self.name),
            version: clone_opt_string(&self.version),
            last_modified: self.last_modified,
            estimated_size: self.estimated_size,
        }
    }
}

impl Clone for Project {
    /// An equal copy.
    fn clone(&self) -> (r: Self)
        ensures
            r == *self,
    {
        Project {
            path: self.path.clone(),
            project_type: self.project_type,
            metadata: self.metadata.clone(),
        }
    }
}

/// The last component of a path: the suffix after the final `/` (the whole
/// path when it has no `/`).
pub open spec fn last_component_spec(p: Seq<char>) -> Seq<char>
    decreases p.len(),
{
    if p.len() == 0 {
        Seq::empty()
    } else if p[p.len() - 1] == '/' {
        Seq::empty()
    } else {
        last_component_spec(p.drop_last()).push(p[p.len() - 1])
    }
}

/// The path with its trailing `/` separators removed.
pub open spec fn trim_slashes_spec(p: Seq<char>) -> Seq<char>
    decreases p.len(),
{
    if p.len() > 0 && p[p.len() - 1] == '/' {
        trim_slashes_spec(p.drop_last())
    } else {
        p
    }
}

/// The display name a project falls back to when its manifests gave none:
/// the last component of its path, trailing separators ignored — or
/// `unknown` where that is empty or only a dot component.
pub open spec fn fallback_name_spec(path: Seq<char>) -> Seq<char> {
    let c = last_component_spec(trim_slashes_spec(path));
    if c.len() == 0 || c == "."@ || c == ".."@ {
        "unknown"@
    } else {
        c
    }
}

/// On a path whose suffix from `from` holds no `/`, and whose character
/// before `from` (if any) is a `/`, the last component is exactly that
/// suffix.
proof fn lemma_last_component_subrange(p: Seq<char>, from: int)
    requires
        0 <= from <= p.len(),
        forall|j: int| from <= j < p.len() ==> p[j] != '/',
        from > 0 ==> p[from - 1] == '/',
    ensures
        last_component_spec(p) == p.subrange(from, p.len() as int),
    decreases p.len(),
{
    if p.len() == from {
        if from > 0 {
            assert(p[p.len() - 1] == '/');
        }
        assert(last_component_spec(p) =~= p.subrange(from, p.len() as int));
    } else {
        lemma_last_component_subrange(p.drop_last(), from);
        assert(p.subrange(from, p.len() as int) =~= p.drop_last().subrange(
            from,
            p.drop_last().len() as int,
        ).push(p[p.len() - 1]));
    }
}

impl Project {
    /// A fresh project record at `path` of the given type, with all
    /// metadata still undetermined.
    pub fn new(path: String, project_type: ProjectType) -> (p: Project)
        ensures
            p.path == path,
            p.project_type == project_type,
            p.metadata.name is None,
            p.metadata.version is None,
            p.metadata.last_modified is None,
            p.metadata.estimated_size is None,
    {
        Project { path, project_type, metadata: ProjectMetadata::default() }
    }

    /// The project's display name: the manifest name when one was
    /// collected, else the last component of its path (trailing
    /// separators ignored), else `unknown`.
    pub fn name(&self) -> (n: String)
        ensures
            self.metadata.name matches Some(m) ==> n == m,
            self.metadata.name is None ==> n@ == fallback_name_spec(self.path@),
    {
        match &self.metadata.name {
            Some(m) => m.clone(),
            None => {
                let s = self.path.as_str();
                let len = s.unicode_len();
                let mut end: usize = len;
                proof {
                    assert(self.path@.take(len as int) =~= self.path@);
                }
                while end > 0 && s.get_char(end - 1) == '/'
                    invariant
                        0 <= end <= len,
                        len == s@.len(),
                        s@ == self.path@,
                        trim_slashes_spec(self.path@) == trim_slashes_spec(
                            self.path@.take(end as int),
                        ),
                    decreases end,
                {
                    proof {
                        assert(self.path@.take(end as int).drop_last() =~= self.path@.take(
                            end - 1,
                        ));
                    }
                    end = end - 1;
                }
                proof {
                    assert(trim_slashes_spec(self.path@) == self.path@.take(end as int));
                }
                let mut from: usize = end;
                while from > 0 && s.get_char(from - 1) != '/'
                    invariant
                        0 <= from <= end <= len,
                        len == s@.len(),
                        s@ == self.path@,
                        forall|j: int| from <= j < end ==> s@[j] != '/',
                    decreases from,
                {
                    from = from - 1;
                }
                let ghost trimmed = self.path@.take(end as int);
                proof {
                    lemma_last_component_subrange(trimmed, from as int);
                    assert(trimmed.subrange(from as int, end as int) =~= self.path@.subrange(
                        from as int,
                        end as int,
                    ));
                }
                if from == end {
                    proof {
                        assert(last_component_spec(trimmed) =~= Seq::<char>::empty());
                    }
                    "unknown".to_owned()
                } else {
                    let comp = s.substring_char(from, end).to_owned();
                    if comp == ".".to_owned() || comp == "..".to_owned() {
                        "unknown".to_owned()
                    } else {
                        proof {
                            assert(comp@.len() > 0);
                        }
                        comp
                    }
                }
            },
        }
    }
}

/// Classifies a single directory as a project variant (or not) by testing
/// for the known manifest filenames.
pub struct ProjectDetector;

impl ProjectDetector {
    /// Classify the two manifest-presence facts by the decision table.
    pub fn classify_manifests(has_pubspec: bool, has_cargo: bool) -> (r: Option<ProjectType>)
        ensures
            r == classify_spec(has_pubspec, has_cargo),
    {
        match (has_pubspec, has_cargo) {
            (true, true) => Some(ProjectType::Mixed),
            (true, false) => Some(ProjectType::Flutter),
            (false, true) => Some(ProjectType::Rust),
            (false, false) => None,
        }
    }

    /// Classify the directory at `path` by which manifest files exist
    /// directly inside it. The presence checks read the disk, so the
    /// outcome cannot be pinned here; `classify_manifests` carries the
    /// decision table for whatever the disk answered.
    pub fn detect(path: &str) -> Option<ProjectType> {
        let pubspec = join_path(path, "pubspec.yaml");
        let cargo = join_path(path, "Cargo.toml");
        let has_pubspec = host::exists_at(&pubspec);
        let has_cargo = host::exists_at(&cargo);
        Self::classify_manifests(has_pubspec, has_cargo)
    }

    /// Judge the two manifest-presence facts: a directory with either
    /// manifest is a project root.
    pub fn is_root_manifests(has_pubspec: bool, has_cargo: bool) -> (r: bool)
        ensures
            r == is_root_spec(has_pubspec, has_cargo),
    {
        has_pubspec || has_cargo
    }

    /// Whether either manifest file exists directly inside `path`. The
    /// presence checks read the disk; `is_root_manifests` carries the
    /// judgement for whatever the disk answered.
    pub fn is_project_root(path: &str) -> bool {
        let pubspec = join_path(path, "pubspec.yaml");
        let cargo = join_path(path, "Cargo.toml");
        let has_pubspec = host::exists_at(&pubspec);
        let has_cargo = host::exists_at(&cargo);
        Self::is_root_manifests(has_pubspec, has_cargo)
    }
}

} // verus!
