//! The error type of the package manager.
//!
//! Every failure of the install pipeline is one of these variants; each
//! carries a descriptive message, which is the only diagnostic the tool
//! produces.  Download and extraction failures share the
//! `PackageDownloadError` variant, as the registry client and the
//! unpacker report through the same channel.

use vstd::prelude::*;
use vstd::string::*;

use crate::strutil::join2;

verus! {

/// Declares `std::io::Error` so that it can stand in a field; the crate
/// states nothing about its values.
#[verifier::external_type_specification]
#[verifier::external_body]
pub struct ExIoError(std::io::Error);

/// Errors that may occur while installing a package.
#[derive(Debug)]
pub enum GleamPkgError {
    /// A required program could not be started.
    ProgramError(String),
    /// A managed directory could not be created, or the home directory
    /// could not be located.
    DirectoryCreationError(String),
    /// The registry could not be reached, answered with an error, served
    /// an unusable document, or the fetched archive could not be
    /// persisted or unpacked.
    PackageDownloadError(String),
    /// An input/output failure surfaced directly.
    IOErr(std::io::Error),
    /// The external build toolchain failed or could not be run.
    PackageBuildError(String),
    /// The PATH environment could not be inspected or amended.
    PathError(String),
}

impl From<std::io::Error> for GleamPkgError {
    fn from(error: std::io::Error) -> (r: Self) {
        GleamPkgError::IOErr(error)
    }
}

impl vstd::std_specs::convert::FromSpecImpl<std::io::Error> for GleamPkgError {
    open spec fn obeys_from_spec() -> bool {
        true
    }

    open spec fn from_spec(error: std::io::Error) -> Self {
        GleamPkgError::IOErr(error)
    }
}

/// Relies on the standard library's `Display` for `std::io::Error`, to
/// render the carried failure; nothing is stated about the text.
#[verifier::external_body]
fn io_error_text(error: &std::io::Error) -> String {
    format!("{}", error)
}

impl GleamPkgError {
    /// The descriptive message of this error, prefixed with its kind.
    pub fn message(&self) -> (r: String)
        ensures
            self matches GleamPkgError::ProgramError(m) ==> r@ == "Failed to start program: "@
                + m@,
            self matches GleamPkgError::DirectoryCreationError(m) ==> r@
                == "Failed to create directories: "@ + m@,
            self matches GleamPkgError::PackageDownloadError(m) ==> r@
                == "Failed to download package: "@ + m@,
            self matches GleamPkgError::PackageBuildError(m) ==> r@ == "Package build error: "@
                + m@,
            self matches GleamPkgError::PathError(m) ==> r@
                == "Error inspecting PATH environment variable: "@ + m@,
    {
        match self {
            GleamPkgError::ProgramError(m) => join2("Failed to start program: ", m.as_str()),
            GleamPkgError::DirectoryCreationError(m) => join2(
                "Failed to create directories: ",
                m.as_str(),
            ),
            GleamPkgError::PackageDownloadError(m) => join2(
                "Failed to download package: ",
                m.as_str(),
            ),
            GleamPkgError::IOErr(e) => {
                let t = io_error_text(e);
                join2("IO error: ", t.as_str())
            },
            GleamPkgError::PackageBuildError(m) => join2("Package build error: ", m.as_str()),
            GleamPkgError::PathError(m) => join2(
                "Error inspecting PATH environment variable: ",
                m.as_str(),
            ),
        }
    }
}

} // verus!
