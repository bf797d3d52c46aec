//! What can go wrong while resolving, fetching or removing a version.

use crate::text::joined;
use vstd::prelude::*;

verus! {

/// A failure of the installer. Failures of the network and of the
/// filesystem carry the text that the caller observed.
#[derive(Debug, Clone)]
pub enum InstallError {
    /// A request could not be sent, or its answer could not be read.
    Http(String),
    /// A file or directory could not be read or written.
    Io(String),
    /// An archive could not be unpacked, or did not hold the program.
    Extract(String),
    /// No release answers to the version that was asked for.
    VersionNotFound(String),
    /// No release is published for the platform.
    UnsupportedPlatform { os: String, arch: String },
    /// A zip archive could not be read.
    Zip(String),
    /// The versions of `go` and `sop` do not go together.
    Incompatible(String),
}

impl InstallError {
    /// The line that is shown to the user for the failure.
    pub open spec fn message_of(self) -> Seq<char> {
        match self {
            InstallError::Http(detail) => "HTTP request failed: "@ + detail@,
            InstallError::Io(detail) => "IO error: "@ + detail@,
            InstallError::Extract(detail) => "Failed to extract archive: "@ + detail@,
            InstallError::VersionNotFound(detail) => "Version not found: "@ + detail@,
            InstallError::UnsupportedPlatform { os, arch } => "Unsupported platform: "@ + os@
                + "-"@ + arch@,
            InstallError::Zip(detail) => "Zip error: "@ + detail@,
            InstallError::Incompatible(detail) => "Incompatible versions: "@ + detail@,
        }
    }

    /// Renders the failure for the user.
    pub fn message(&self) -> (r: String)
        ensures
            r@ == self.message_of(),
    {
        match self {
            InstallError::Http(detail) => joined("HTTP request failed: ", detail.as_str()),
            InstallError::Io(detail) => joined("IO error: ", detail.as_str()),
            InstallError::Extract(detail) => joined("Failed to extract archive: ", detail.as_str()),
            InstallError::VersionNotFound(detail) => joined(
                "Version not found: ",
                detail.as_str(),
            ),
            InstallError::UnsupportedPlatform { os, arch } => {
                let mut r = joined("Unsupported platform: ", os.as_str());
                r.append("-");
                r.append(arch.as_str());
                r
            },
            InstallError::Zip(detail) => joined("Zip error: ", detail.as_str()),
            InstallError::Incompatible(detail) => joined(
                "Incompatible versions: ",
                detail.as_str(),
            ),
        }
    }
}

} // verus!
