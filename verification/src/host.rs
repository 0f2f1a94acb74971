use vstd::prelude::*;

verus! {

/// One filesystem entry reported by a directory walk: its path, its depth
/// below the walk's root (the root itself has depth 0), whether it is a
/// directory, whether it is a regular file (a symbolic link is neither),
/// and its on-disk size in bytes (0 where the size could not be read).
#[derive(Debug, Clone)]
pub struct FsEntry {
    pub path: String,
    pub depth: usize,
    pub is_dir: bool,
    pub is_file: bool,
    pub size: u64,
}

/// A shared cancellation flag. A signal handler (or any other thread) may
/// raise it; the scanner polls it cooperatively at each directory node.
/// Holds an atomic boolean behind a reference-counted handle, so clones
/// observe the same flag; nothing is promised about when a raise becomes
/// visible, and `is_cancelled` may answer differently on each call.
#[verifier::external_body]
pub struct CancelToken {
    flag: std::sync::Arc<std::sync::atomic::AtomicBool>,
}

impl CancelToken {
    /// Relies on `AtomicBool::new`: a fresh flag, initially lowered.
    #[verifier::external_body]
    pub fn new() -> CancelToken {
        CancelToken { flag: std::sync::Arc::new(std::sync::atomic::AtomicBool::new(false)) }
    }

    /// Relies on `Arc::clone`: another handle to the same shared flag.
    #[verifier::external_body]
    pub fn handle(&self) -> CancelToken {
        CancelToken { flag: std::sync::Arc::clone(&self.flag) }
    }

    /// Relies on `AtomicBool::store`: raises the shared flag.
    #[verifier::external_body]
    pub fn cancel(&self) {
        self.flag.store(true, std::sync::atomic::Ordering::SeqCst);
    }

    /// Relies on `AtomicBool::load`: reads the shared flag. The answer
    /// depends on what other threads have done, so nothing is ensured.
    #[verifier::external_body]
    pub fn is_cancelled(&self) -> bool {
        self.flag.load(std::sync::atomic::Ordering::SeqCst)
    }
}

/// Relies on `std::path::Path::exists`: whether anything lives at `path`.
/// The answer depends on the state of the disk, so nothing is ensured.
#[verifier::external_body]
pub fn exists_at(path: &String) -> bool {
    std::path::Path::new(path).exists()
}

/// Relies on `std::path::Path::is_dir`: whether `path` names a directory.
#[verifier::external_body]
pub fn is_dir_at(path: &String) -> bool {
    std::path::Path::new(path).is_dir()
}

/// Relies on `std::path::Path::metadata` (and the `SystemTime` accessors
/// around it): the modification time of `path` in whole seconds since the
/// Unix epoch, or `None` where it cannot be read.
#[verifier::external_body]
pub fn mtime_secs_of(path: &String) -> Option<u64> {
    std::path::Path::new(path)
        .metadata()
        .ok()
        .and_then(|m| m.modified().ok())
        .and_then(|t| t.duration_since(std::time::UNIX_EPOCH).ok())
        .map(|d| d.as_secs())
}

/// Relies on `walkdir::WalkDir`: walks the tree under `root` without
/// following symbolic links, bounded by `depth_cap` levels when one is
/// given, and reports each entry it could read as an `FsEntry`. Entries
/// that error are skipped, as are entries whose path is not valid UTF-8
/// (such a path cannot be carried faithfully as text; skipping keeps the
/// walk best-effort). Which entries come back depends on the disk; what
/// holds of every outcome is that the walk visits each tree node at most
/// once and distinct UTF-8 paths stay distinct as strings, so no path is
/// reported twice.
#[verifier::external_body]
pub fn walk_entries(root: &String, depth_cap: Option<usize>) -> (r: Vec<FsEntry>)
    ensures
        forall|i: int, j: int| 0 <= i < j < r@.len() ==> r@[i].path@ != r@[j].path@,
{
    let mut walker = walkdir::WalkDir::new(root).follow_links(false);
    if let Some(d) = depth_cap {
        walker = walker.max_depth(d);
    }
    let mut out = Vec::new();
    for e in walker.into_iter().filter_map(|e| e.ok()) {
        let path = match e.path().to_str() {
            Some(p) => p.to_owned(),
            None => continue,
        };
        let (is_dir, is_file) = (e.file_type().is_dir(), e.file_type().is_file());
        let size = e.metadata().map(|m| m.len()).unwrap_or(0);
        out.push(FsEntry { path, depth: e.depth(), is_dir, is_file, size });
    }
    out
}

/// Relies on `fs_err::read_to_string`: the text of the file at `path`, or
/// `None` where it cannot be opened, read, or decoded as UTF-8. What the
/// disk holds cannot be pinned here.
#[verifier::external_body]
pub fn read_text_at(path: &String) -> Option<String> {
    fs_err::read_to_string(path).ok()
}

/// What probing a directory for readability found.
#[derive(Debug, Clone, Copy, PartialEq, Eq, Structural)]
pub enum DirProbe {
    Readable,
    Denied,
    Unreadable,
}

/// Relies on `std::path::Path::read_dir`: attempts to open `path` for
/// listing and reports whether that succeeded, was denied permission, or
/// failed for another reason.
#[verifier::external_body]
pub fn probe_dir(path: &String) -> DirProbe {
    match std::path::Path::new(path).read_dir() {
        Ok(_) => DirProbe::Readable,
        Err(e) if e.kind() == std::io::ErrorKind::PermissionDenied => DirProbe::Denied,
        Err(_) => DirProbe::Unreadable,
    }
}

/// Relies on `which::which`: whether an executable of this name can be
/// located on the search path. The answer depends on the environment, so
/// nothing is ensured.
#[verifier::external_body]
pub fn tool_on_path(name: &str) -> bool {
    which::which(name).is_ok()
}

/// Relies on `num_cpus::get`, which is documented to always return at
/// least 1.
#[verifier::external_body]
pub fn cpu_count() -> (n: usize)
    ensures
        n >= 1,
{
    num_cpus::get()
}

} // verus!
