use vstd::prelude::*;
use vstd::string::StringExecFns;

verus! {

/// The error taxonomy for scanning and cleaning.
///
/// `PathAccess` and `PermissionDenied` concern the filesystem, the command
/// variants concern the external clean tools, and `Interrupted` reports a
/// cancelled scan. `detail` fields carry free-form text from the host in
/// place of the underlying system error.
#[derive(Debug, Clone)]
pub enum CleanerError {
    PathAccess { path: String, detail: String },
    CommandExecution { command: String, detail: String },
    CommandFailed { command: String, code: i32 },
    FlutterNotFound,
    CargoNotFound,
    ConfigError(String),
    PermissionDenied { path: String },
    Interrupted,
}

/// The user-facing message for each error variant.
pub open spec fn message_spec(e: CleanerError) -> Seq<char> {
    match e {
        CleanerError::PathAccess { path, detail: _ } => "Failed to access path: "@ + path@,
        CleanerError::CommandExecution { command, detail: _ } => "Failed to execute command: "@
            + command@,
        CleanerError::CommandFailed { command, code: _ } => "Command failed: "@ + command@,
        CleanerError::FlutterNotFound => "Flutter executable not found in PATH"@,
        CleanerError::CargoNotFound => "Cargo executable not found in PATH"@,
        CleanerError::ConfigError(detail) => "Invalid configuration: "@ + detail@,
        CleanerError::PermissionDenied { path } => "Insufficient permissions for "@ + path@,
        CleanerError::Interrupted => "Interrupted by user"@,
    }
}

impl CleanerError {
    /// Render the error as text for reporting.
    pub fn message(&self) -> (r: String)
        ensures
            r@ == message_spec(*self),
    {
        match self {
            CleanerError::PathAccess { path, detail: _ } => "Failed to access path: "
                .to_owned()
                .concat(path.as_str()),
            CleanerError::CommandExecution { command, detail: _ } => "Failed to execute command: "
                .to_owned()
                .concat(command.as_str()),
            CleanerError::CommandFailed { command, code: _ } => "Command failed: "
                .to_owned()
                .concat(command.as_str()),
            CleanerError::FlutterNotFound => "Flutter executable not found in PATH".to_owned(),
            CleanerError::CargoNotFound => "Cargo executable not found in PATH".to_owned(),
            CleanerError::ConfigError(detail) => "Invalid configuration: ".to_owned().concat(
                detail.as_str(),
            ),
            CleanerError::PermissionDenied { path } => "Insufficient permissions for "
                .to_owned()
                .concat(path.as_str()),
            CleanerError::Interrupted => "Interrupted by user".to_owned(),
        }
    }
}

} // verus!
