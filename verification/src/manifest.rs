use vstd::prelude::*;
use crate::project::{Project, ProjectType};

verus! {

/// What reading a `pubspec.yaml` text yields: `None` where the text is not
/// a well-formed YAML document, otherwise the document's `name` and
/// `version` string fields, each absent where missing or not a string. The
/// result depends on the text alone, so it is given this name and
/// contracts speak of it.
pub uninterp spec fn flutter_fields_of(s: Seq<char>) -> Option<
    (Option<Seq<char>>, Option<Seq<char>>),
>;

/// What reading a `Cargo.toml` text yields: `None` where the text is not a
/// well-formed TOML document or has no `package` table, otherwise that
/// table's `name` and `version` string fields, each absent where missing
/// or not a string. The result depends on the text alone.
pub uninterp spec fn rust_fields_of(s: Seq<char>) -> Option<
    (Option<Seq<char>>, Option<Seq<char>>),
>;

/// The spec-level text of an optional manifest.
pub open spec fn text_of(o: Option<&str>) -> Option<Seq<char>> {
    match o {
        Some(s) => Some(s@),
        None => None,
    }
}

/// An existing field takes precedence; an unset one takes the incoming
/// value.
pub open spec fn fill_spec(
    existing: Option<Seq<char>>,
    incoming: Option<Seq<char>>,
) -> Option<Seq<char>> {
    if existing is Some {
        existing
    } else {
        incoming
    }
}

/// The name and version fields after the pubspec pass of collection: a
/// Flutter or mixed project whose pubspec text parses takes that
/// document's fields outright; everything else keeps what it had.
pub open spec fn fields_after_flutter(
    t: ProjectType,
    name0: Option<Seq<char>>,
    version0: Option<Seq<char>>,
    pubspec: Option<Seq<char>>,
) -> (Option<Seq<char>>, Option<Seq<char>>) {
    if t == ProjectType::Flutter || t == ProjectType::Mixed {
        match pubspec {
            Some(s) => match flutter_fields_of(s) {
                Some(f) => f,
                None => (name0, version0),
            },
            None => (name0, version0),
        }
    } else {
        (name0, version0)
    }
}

/// The name and version fields collection leaves on a project: the
/// pubspec pass first, then — for a Rust or mixed project whose Cargo
/// manifest parses with a `package` table — its fields filling only what
/// is still unset, so in a mixed project the pubspec's metadata wins on
/// conflict.
pub open spec fn collected_fields_spec(
    t: ProjectType,
    name0: Option<Seq<char>>,
    version0: Option<Seq<char>>,
    pubspec: Option<Seq<char>>,
    cargo: Option<Seq<char>>,
) -> (Option<Seq<char>>, Option<Seq<char>>) {
    let a = fields_after_flutter(t, name0, version0, pubspec);
    if t == ProjectType::Rust || t == ProjectType::Mixed {
        match cargo {
            Some(s) => match rust_fields_of(s) {
                Some(f) => (fill_spec(a.0, f.0), fill_spec(a.1, f.1)),
                None => a,
            },
            None => a,
        }
    } else {
        a
    }
}

/// Extracts a display name and version from a project's manifest texts.
/// Every step is best-effort: a malformed or absent manifest leaves
/// fields undetermined and never fails the collection.
pub struct MetadataCollector;

impl MetadataCollector {
    /// Relies on `serde_yaml::from_str`, `serde_yaml::Value::get`, and
    /// `serde_yaml::Value::as_str`: parses the text as YAML and reads its
    /// `name` and `version` string fields — exactly `flutter_fields_of`
    /// the text.
    #[verifier::external_body]
    pub fn flutter_fields(content: &str) -> (r: Option<(Option<String>, Option<String>)>)
        ensures
            (r is Some) == (flutter_fields_of(content@) is Some),
            r matches Some(f) ==> flutter_fields_of(content@) == Some(
                (f.0.deep_view(), f.1.deep_view()),
            ),
    {
        let doc: serde_yaml::Value = match serde_yaml::from_str(content) {
            Ok(d) => d,
            Err(_) => return None,
        };
        let name = doc.get("name").and_then(|v| v.as_str()).map(String::from);
        let version = doc.get("version").and_then(|v| v.as_str()).map(String::from);
        Some((name, version))
    }

    /// Relies on `toml::from_str`, `toml::Value::get`, and
    /// `toml::Value::as_str`: parses the text as TOML and reads the
    /// `package` table's `name` and `version` string fields — exactly
    /// `rust_fields_of` the text.
    #[verifier::external_body]
    pub fn rust_fields(content: &str) -> (r: Option<(Option<String>, Option<String>)>)
        ensures
            (r is Some) == (rust_fields_of(content@) is Some),
            r matches Some(f) ==> rust_fields_of(content@) == Some(
                (f.0.deep_view(), f.1.deep_view()),
            ),
    {
        let doc: toml::Value = match toml::from_str(content) {
            Ok(d) => d,
            Err(_) => return None,
        };
        let package = match doc.get("package") {
            Some(p) => p,
            None => return None,
        };
        let name = package.get("name").and_then(|v| v.as_str()).map(String::from);
        let version = package.get("version").and_then(|v| v.as_str()).map(String::from);
        Some((name, version))
    }

    /// Fill a metadata field only where it is not already set: an
    /// existing value takes precedence over the incoming one.
    pub fn fill_field(existing: Option<String>, incoming: Option<String>) -> (r: Option<String>)
        ensures
            existing is Some ==> r == existing,
            existing is None ==> r == incoming,
            r.deep_view() == fill_spec(existing.deep_view(), incoming.deep_view()),
    {
        match existing {
            Some(e) => Some(e),
            None => incoming,
        }
    }

    /// Enrich a project's name and version from the manifest texts that
    /// apply to its type, leaving exactly the fields
    /// `collected_fields_spec` gives: the `pubspec.yaml` fields for a
    /// Flutter project, the `Cargo.toml` package fields for a Rust one,
    /// and for a mixed project both, the pubspec's values taking
    /// precedence on conflict. Parse failures leave fields as they were;
    /// the project's identity and the already-collected facts are never
    /// touched.
    pub fn collect(project: &mut Project, pubspec: Option<&str>, cargo_manifest: Option<&str>)
        ensures
            final(project).path == old(project).path,
            final(project).project_type == old(project).project_type,
            final(project).metadata.last_modified == old(project).metadata.last_modified,
            final(project).metadata.estimated_size == old(project).metadata.estimated_size,
            final(project).metadata.name.deep_view() == collected_fields_spec(
                old(project).project_type,
                old(project).metadata.name.deep_view(),
                old(project).metadata.version.deep_view(),
                text_of(pubspec),
                text_of(cargo_manifest),
            ).0,
            final(project).metadata.version.deep_view() == collected_fields_spec(
                old(project).project_type,
                old(project).metadata.name.deep_view(),
                old(project).metadata.version.deep_view(),
                text_of(pubspec),
                text_of(cargo_manifest),
            ).1,
    {
        let is_flutter = project.project_type == ProjectType::Flutter || project.project_type
            == ProjectType::Mixed;
        let is_rust = project.project_type == ProjectType::Rust || project.project_type
            == ProjectType::Mixed;
        if is_flutter {
            if let Some(content) = pubspec {
                if let Some((name, version)) = Self::flutter_fields(content) {
                    project.metadata.name = name;
                    project.metadata.version = version;
                }
            }
        }
        if is_rust {
            if let Some(content) = cargo_manifest {
                if let Some((name, version)) = Self::rust_fields(content) {
                    let existing_name = project.metadata.name.take();
                    project.metadata.name = Self::fill_field(existing_name, name);
                    let existing_version = project.metadata.version.take();
                    project.metadata.version = Self::fill_field(existing_version, version);
                }
            }
        }
    }
}

} // verus!
