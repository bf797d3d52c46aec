//! What the manager asks of the outside world, and what it is told.
//!
//! The manager itself neither opens a connection nor touches a file. It
//! hands a [`Request`] to its caller, who carries it out and answers with a
//! [`Reply`].

use crate::config::Config;
use crate::error::InstallError;
use crate::resolve::{GoRelease, Tool};
use vstd::prelude::*;

verus! {

/// A file of a published release.
#[derive(Debug, Clone)]
pub struct Asset {
    /// The name of the file.
    pub name: String,
    /// Where the file can be downloaded.
    pub url: String,
}

/// How a downloaded file becomes an installation.
#[derive(Debug, Clone, Copy, PartialEq, Eq, Structural)]
pub enum ArchiveFormat {
    /// A zip archive: every entry is written below the destination.
    Zip,
    /// A gzip-compressed tar archive: it is unpacked into the destination.
    TarGz,
    /// No archive: the file is the program itself.
    Binary,
}

/// Something that the caller is asked to do.
#[derive(Debug, Clone)]
pub enum Request {
    /// Fetch the index of `go` releases.
    FetchGoIndex { url: String },
    /// Fetch the latest `sop` release, sending `agent` as `User-Agent`.
    FetchLatestSop { url: String, agent: String },
    /// Fetch the `sop` release of one tag, sending `agent` as `User-Agent`.
    FetchSopRelease { url: String, agent: String },
    /// Download `url` into a fresh temporary file named `file_name`,
    /// sending `user_agent` as `User-Agent` where there is one.
    Download { url: String, file_name: String, user_agent: Option<String> },
    /// Create the directory `into` and unpack the downloaded file there; a
    /// bare program is stored as `program` and made executable.
    Unpack { format: ArchiveFormat, into: Vec<String>, program: String },
    /// Say whether the location exists.
    Exists { path: Vec<String> },
    /// List the installed versions of a tool.
    ListInstalled { tool: Tool },
    /// Tell the user that no installed `go` runs the `sop` version that is
    /// being installed.
    WarnIncompatible { message: String, installed: Vec<String>, suggested: String },
    /// Ask the user whether a version that is not installed shall be installed.
    Confirm { tool: Tool, version: String },
    /// Install a version of a tool.
    Install { tool: Tool, version: String },
    /// Point the link at `target`, replacing what is there.
    Relink { target: Vec<String>, link: Vec<String> },
    /// Delete the directory and all that it holds.
    RemoveDir { path: Vec<String> },
    /// Write the configuration to its file.
    SaveConfig { config: Config },
}

/// What the caller answers.
#[derive(Debug, Clone)]
pub enum Reply {
    /// The index of `go` releases, in the order of the feed.
    GoIndex(Vec<GoRelease>),
    /// The tag of the latest `sop` release.
    LatestTag(String),
    /// Whether the release was found, and its assets in the order of the feed.
    Release { success: bool, assets: Vec<Asset> },
    /// Whether the server answered the download with success; if not, what
    /// it answered.
    Downloaded { success: bool, error: String },
    /// Whether the location exists, and how the location is shown to the user.
    Exists { found: bool, shown: String },
    /// The installed versions.
    Versions(Vec<String>),
    /// The line that the user typed.
    Answer(String),
    /// The version that was installed.
    Installed(String),
    /// The request was carried out.
    Done,
    /// The request failed.
    Failed(InstallError),
}

impl Request {
    /// Whether carrying out the request contacts the network.
    pub open spec fn is_network(self) -> bool {
        match self {
            Request::FetchGoIndex { .. } => true,
            Request::FetchLatestSop { .. } => true,
            Request::FetchSopRelease { .. } => true,
            Request::Download { .. } => true,
            Request::Install { .. } => true,
            _ => false,
        }
    }

    /// Whether carrying out the request changes what is persisted: the
    /// installed versions, the configuration or the link.
    pub open spec fn is_change(self) -> bool {
        match self {
            Request::Unpack { .. } => true,
            Request::Install { .. } => true,
            Request::Relink { .. } => true,
            Request::RemoveDir { .. } => true,
            Request::SaveConfig { .. } => true,
            _ => false,
        }
    }
}

} // verus!
