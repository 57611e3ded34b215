//! The errors that the library itself reports.
use vstd::prelude::*;

verus! {

/// Mistakes in how the command line tool was asked to set up a server.
#[derive(Debug, PartialEq, Eq, Structural, Clone, Copy)]
pub enum CliError {
    AlreadyExists,
    MissingServerName,
}

/// The text shown for a `CliError`.
pub open spec fn cli_message(e: CliError) -> Seq<char> {
    match e {
        CliError::AlreadyExists => "server.toml already exists"@,
        CliError::MissingServerName =>
            "can't get package name from current path; please specify a name using --name"@,
    }
}

impl CliError {
    /// The text shown for this error.
    pub fn message(&self) -> (r: String)
        ensures
            r@ == cli_message(*self),
    {
        match self {
            CliError::AlreadyExists => "server.toml already exists".to_owned(),
            CliError::MissingServerName =>
                "can't get package name from current path; please specify a name using --name".to_owned(),
        }
    }
}

/// Failures of the library's own operations.
pub enum McmanError {
    Cli(CliError),
    /// No server jar is known for this game version.
    VanillaVersionNotFound(String),
    /// The release (first) of the project (second) does not exist.
    ModrinthReleaseNotFound(String, String),
    PaperMCProjectNotFound(String),
    /// The version (second) of the project (first) does not exist.
    PaperMCVersionNotFound(String, String),
    /// The build (third) of the project (first) at the version (second) does not exist.
    PaperMCBuildNotFound(String, String, String),
    /// A value could not be written as JSON.
    Json,
}

} // verus!
