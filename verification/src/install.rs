//! Fetching one version of a tool.
//!
//! [`Install`] is the installer as a state machine. Its state says which
//! answer it waits for; [`Install::request`] gives the request that is
//! pending, and [`Install::advance`] takes the answer. The caller carries
//! out each request and hands the answer back until no request is pending.
//!
//! The steps are: resolve the specifier; stop if the version's directory is
//! there; find the file to download; download it; unpack it; and check that
//! the program is where it belongs.

use crate::compat::{go_compat, go_compat_of, go_compatible_of, is_go_compatible};
use crate::effects::{ArchiveFormat, Asset, Reply, Request};
use crate::error::InstallError;
use crate::paths::{
    go_binary, go_binary_parts, go_dir, go_dir_parts, sop_binary, sop_binary_name,
    sop_binary_name_of, sop_binary_parts, sop_dir, sop_dir_parts,
};
use crate::platform::{Arch, Os, Platform};
use crate::resolve::{
    go_resolution, needs_network, needs_network_of, resolve_go_version, resolve_sop_version,
    sop_resolution, Tool,
};
use crate::text::{clone_strings, joined, ends_with, starts_with, texts};
use vstd::prelude::*;

verus! {

/// The name of the `go` archive of a version for a platform:
/// `go<version>.<os>-<arch>.<ext>`.
pub open spec fn go_archive_name_of(version: Seq<char>, platform: Platform) -> Seq<char> {
    "go"@ + version + "."@ + platform.os.name_of() + "-"@ + platform.arch.name_of() + "."@
        + platform.go_archive_ext_of()
}

/// Returns the name of the `go` archive of a version for a platform.
pub fn go_archive_name(version: &str, platform: &Platform) -> (name: String)
    ensures
        name@ == go_archive_name_of(version@, *platform),
{
    let mut name = joined("go", version);
    name.append(".");
    name.append(platform.os.name());
    name.append("-");
    name.append(platform.arch.name());
    name.append(".");
    name.append(platform.go_archive_ext());
    name
}

/// Where a `go` archive is downloaded.
pub open spec fn go_download_url_of(file_name: Seq<char>) -> Seq<char> {
    "https://go.dev/dl/"@ + file_name
}

/// Returns the address of a `go` archive.
pub fn go_download_url(file_name: &str) -> (url: String)
    ensures
        url@ == go_download_url_of(file_name@),
{
    joined("https://go.dev/dl/", file_name)
}

/// Where the release of a `sop` version is described: the release of the
/// tag `v<version>`.
pub open spec fn sop_release_url_of(version: Seq<char>) -> Seq<char> {
    "https://api.github.com/repos/halcyonnouveau/soppo/releases/tags/"@ + "v"@ + version
}

/// Returns the address that describes the release of a `sop` version.
pub fn sop_release_url(version: &str) -> (url: String)
    ensures
        url@ == sop_release_url_of(version@),
{
    let mut url = joined("https://api.github.com/repos/halcyonnouveau/soppo/releases/tags/", "v");
    url.append(version);
    url
}

/// How the names of the `sop` assets for a platform begin: `sop-<triple>`.
pub open spec fn asset_prefix_of(platform: Platform) -> Seq<char> {
    "sop-"@ + platform.target_triple_of()
}

/// Returns the beginning of the names of the `sop` assets for a platform.
pub fn asset_prefix(platform: &Platform) -> (prefix: String)
    ensures
        prefix@ == asset_prefix_of(*platform),
{
    joined("sop-", platform.target_triple())
}

/// The position of the first asset whose name begins with `prefix`, or the
/// number of assets where there is none.
pub open spec fn first_asset(assets: Seq<Asset>, prefix: Seq<char>) -> int
    decreases assets.len(),
{
    if assets.len() == 0 {
        0
    } else if prefix.is_prefix_of(assets[0].name@) {
        0
    } else {
        1 + first_asset(assets.drop_first(), prefix)
    }
}

/// `first_asset` is the least position whose name begins with the prefix.
pub proof fn lemma_first_asset(assets: Seq<Asset>, prefix: Seq<char>, k: int)
    requires
        0 <= k <= assets.len(),
        forall|j: int| 0 <= j < k ==> !prefix.is_prefix_of((#[trigger] assets[j]).name@),
        k < assets.len() ==> prefix.is_prefix_of(assets[k].name@),
    ensures
        first_asset(assets, prefix) == k,
    decreases assets.len(),
{
    if assets.len() == 0 {
    } else if k == 0 {
    } else {
        let rest = assets.drop_first();
        assert(!prefix.is_prefix_of(assets[0].name@));
        assert forall|j: int| 0 <= j < k - 1 implies !prefix.is_prefix_of(
            (#[trigger] rest[j]).name@,
        ) by {
            assert(rest[j] == assets[j + 1]);
        }
        lemma_first_asset(rest, prefix, k - 1);
    }
}

/// Picks the first asset whose name begins with `prefix`.
pub fn select_asset(assets: &Vec<Asset>, prefix: &str) -> (r: Option<Asset>)
    ensures
        match r {
            Some(asset) => {
                let i = first_asset(assets@, prefix@);
                &&& 0 <= i < assets.len()
                &&& asset.name@ == assets@[i].name@
                &&& asset.url@ == assets@[i].url@
                &&& prefix@.is_prefix_of(asset.name@)
            },
            None => first_asset(assets@, prefix@) == assets.len(),
        },
{
    let mut i: usize = 0;
    while i < assets.len()
        invariant
            i <= assets.len(),
            forall|j: int| 0 <= j < i ==> !prefix@.is_prefix_of((#[trigger] assets@[j]).name@),
        decreases assets.len() - i,
    {
        if starts_with(assets[i].name.as_str(), prefix) {
            proof {
                lemma_first_asset(assets@, prefix@, i as int);
            }
            return Some(Asset { name: assets[i].name.clone(), url: assets[i].url.clone() });
        }
        i = i + 1;
    }
    proof {
        lemma_first_asset(assets@, prefix@, assets.len() as int);
    }
    None
}

/// How a `go` archive for the platform is packed: zip on Windows,
/// compressed tar everywhere else.
pub open spec fn go_archive_format_of(platform: Platform) -> ArchiveFormat {
    if platform.os == Os::Windows {
        ArchiveFormat::Zip
    } else {
        ArchiveFormat::TarGz
    }
}

/// Returns how a `go` archive for the platform is packed.
pub fn go_archive_format(platform: &Platform) -> (format: ArchiveFormat)
    ensures
        format == go_archive_format_of(*platform),
{
    match platform.os {
        Os::Windows => ArchiveFormat::Zip,
        _ => ArchiveFormat::TarGz,
    }
}

/// How a `sop` asset is packed, by its name: `.zip` is a zip archive,
/// `.tar.gz` and `.tgz` a compressed tar archive, anything else the program
/// itself.
pub open spec fn sop_archive_format_of(name: Seq<char>) -> ArchiveFormat {
    if ".zip"@.is_suffix_of(name) {
        ArchiveFormat::Zip
    } else if ".tar.gz"@.is_suffix_of(name) || ".tgz"@.is_suffix_of(name) {
        ArchiveFormat::TarGz
    } else {
        ArchiveFormat::Binary
    }
}

/// Returns how a `sop` asset is packed.
pub fn sop_archive_format(name: &str) -> (format: ArchiveFormat)
    ensures
        format == sop_archive_format_of(name@),
{
    if ends_with(name, ".zip") {
        ArchiveFormat::Zip
    } else if ends_with(name, ".tar.gz") || ends_with(name, ".tgz") {
        ArchiveFormat::TarGz
    } else {
        ArchiveFormat::Binary
    }
}

/// What an entry of a zip archive becomes.
#[derive(Debug, Clone, Copy, PartialEq, Eq, Structural)]
pub enum EntryKind {
    /// A directory, created with the directories above it.
    Directory,
    /// A file, written after the directories above it have been created.
    File,
}

/// An entry of a zip archive is a directory exactly if its name ends in `/`.
pub fn zip_entry_kind(name: &str) -> (kind: EntryKind)
    ensures
        kind == if "/"@.is_suffix_of(name@) {
            EntryKind::Directory
        } else {
            EntryKind::File
        },
{
    if ends_with(name, "/") {
        EntryKind::Directory
    } else {
        EntryKind::File
    }
}

/// What is done with one entry of a zip archive.
#[derive(Debug, Clone, Copy, PartialEq, Eq, Structural)]
pub struct EntryPlan {
    /// Whether a directory is created or a file is written.
    pub kind: EntryKind,
    /// The permission bits to set afterwards, if any.
    pub mode: Option<u32>,
}

/// Decides what is done with an entry of a zip archive, from its name and
/// the permission bits that the archive stores for it: the bits are restored
/// where the system is a Unix, and only if the archive stores them.
pub fn plan_zip_entry(name: &str, unix_mode: Option<u32>, unix: bool) -> (plan: EntryPlan)
    ensures
        plan.kind == if "/"@.is_suffix_of(name@) {
            EntryKind::Directory
        } else {
            EntryKind::File
        },
        plan.mode == if unix {
            unix_mode
        } else {
            None
        },
{
    EntryPlan {
        kind: zip_entry_kind(name),
        mode: if unix {
            unix_mode
        } else {
            None
        },
    }
}

/// The permission bits of a program that was downloaded bare: on a Unix it
/// is made executable for everyone and writable for its owner.
pub fn program_mode(unix: bool) -> (mode: Option<u32>)
    ensures
        mode == if unix {
            Some(0o755u32)
        } else {
            None
        },
{
    if unix {
        Some(0o755)
    } else {
        None
    }
}

/// The directory of a version of a tool.
pub open spec fn tool_dir_parts(tool: Tool, version: Seq<char>) -> Seq<Seq<char>> {
    match tool {
        Tool::Go => go_dir_parts(version),
        Tool::Sop => sop_dir_parts(version),
    }
}

/// Returns the directory of a version of a tool.
pub fn tool_dir(tool: Tool, version: &str) -> (parts: Vec<String>)
    ensures
        texts(parts@) == tool_dir_parts(tool, version@),
{
    match tool {
        Tool::Go => go_dir(version),
        Tool::Sop => sop_dir(version),
    }
}

/// The program of a version of a tool; `windows` says whether the system is Windows.
pub open spec fn tool_binary_parts(tool: Tool, version: Seq<char>, windows: bool) -> Seq<
    Seq<char>,
> {
    match tool {
        Tool::Go => go_binary_parts(version, windows),
        Tool::Sop => sop_binary_parts(version, windows),
    }
}

/// Returns the program of a version of a tool.
pub fn tool_binary(tool: Tool, version: &str, windows: bool) -> (parts: Vec<String>)
    ensures
        texts(parts@) == tool_binary_parts(tool, version@, windows),
{
    match tool {
        Tool::Go => go_binary(version, windows),
        Tool::Sop => sop_binary(version, windows),
    }
}

/// The name of the program of a tool; `windows` says whether the system is Windows.
pub open spec fn program_name_of(tool: Tool, windows: bool) -> Seq<char> {
    match tool {
        Tool::Go => if windows {
            "go.exe"@
        } else {
            "go"@
        },
        Tool::Sop => sop_binary_name_of(windows),
    }
}

/// Returns the name of the program of a tool.
pub fn program_name(tool: Tool, windows: bool) -> (name: &'static str)
    ensures
        name@ == program_name_of(tool, windows),
{
    match tool {
        Tool::Go => if windows {
            "go.exe"
        } else {
            "go"
        },
        Tool::Sop => sop_binary_name(windows),
    }
}

/// The name of a tool, as the user writes it.
pub open spec fn tool_name_of(tool: Tool) -> Seq<char> {
    match tool {
        Tool::Go => "go"@,
        Tool::Sop => "sop"@,
    }
}

/// Returns the name of a tool.
pub fn tool_name(tool: Tool) -> (name: &'static str)
    ensures
        name@ == tool_name_of(tool),
{
    match tool {
        Tool::Go => "go",
        Tool::Sop => "sop",
    }
}

/// Whether one of the `go` versions runs the `sop` version. A `go` version
/// that cannot be read does not count.
pub open spec fn any_compatible_of(go_versions: Seq<Seq<char>>, sop_version: Seq<char>) -> bool {
    exists|i: int|
        0 <= i < go_versions.len() && go_compatible_of(#[trigger] go_versions[i], sop_version)
            == Ok::<bool, Seq<char>>(true)
}

/// Tells whether one of the `go` versions runs the `sop` version.
pub fn any_compatible(go_versions: &Vec<String>, sop_version: &str) -> (r: bool)
    ensures
        r == any_compatible_of(texts(go_versions@), sop_version@),
{
    let mut i: usize = 0;
    while i < go_versions.len()
        invariant
            i <= go_versions.len(),
            forall|k: int|
                0 <= k < i ==> go_compatible_of(#[trigger] texts(go_versions@)[k], sop_version@)
                    != Ok::<bool, Seq<char>>(true),
        decreases go_versions.len() - i,
    {
        match is_go_compatible(go_versions[i].as_str(), sop_version) {
            Ok(true) => {
                assert(texts(go_versions@)[i as int] == go_versions@[i as int]@);
                return true;
            },
            _ => {
                assert(texts(go_versions@)[i as int] == go_versions@[i as int]@);
            },
        }
        i = i + 1;
    }
    false
}

/// Whether a version counts as installed, from what is found at its place:
/// it is installed exactly if there is a directory and the directory holds
/// something.
pub fn is_installed(is_directory: bool, entries: usize) -> (r: bool)
    ensures
        r == (is_directory && entries > 0),
{
    is_directory && entries > 0
}

/// Decides the removal of a version of a tool from whether its directory
/// is there: the directory to delete, or the failure that names the version.
pub fn remove_version(tool: Tool, version: &str, found: bool) -> (r: Result<
    Vec<String>,
    InstallError,
>)
    ensures
        match r {
            Ok(path) => found && texts(path@) == tool_dir_parts(tool, version@),
            Err(e) => {
                &&& !found
                &&& e matches InstallError::VersionNotFound(detail)
                &&& detail@ == tool_name_of(tool) + " "@ + version@
            },
        },
{
    if found {
        Ok(tool_dir(tool, version))
    } else {
        let mut detail = joined(tool_name(tool), " ");
        detail.append(version);
        Err(InstallError::VersionNotFound(detail))
    }
}

/// Decides the removal of a `go` version.
pub fn remove_go(version: &str, found: bool) -> (r: Result<Vec<String>, InstallError>)
    ensures
        match r {
            Ok(path) => found && texts(path@) == go_dir_parts(version@),
            Err(e) => {
                &&& !found
                &&& e matches InstallError::VersionNotFound(detail)
                &&& detail@ == "go "@ + version@
            },
        },
{
    proof {
        reveal_strlit("go ");
        reveal_strlit("go");
        reveal_strlit(" ");
        assert("go "@ =~= "go"@ + " "@);
    }
    remove_version(Tool::Go, version, found)
}

/// Decides the removal of a `sop` version.
pub fn remove_sop(version: &str, found: bool) -> (r: Result<Vec<String>, InstallError>)
    ensures
        match r {
            Ok(path) => found && texts(path@) == sop_dir_parts(version@),
            Err(e) => {
                &&& !found
                &&& e matches InstallError::VersionNotFound(detail)
                &&& detail@ == "sop "@ + version@
            },
        },
{
    proof {
        reveal_strlit("sop ");
        reveal_strlit("sop");
        reveal_strlit(" ");
        assert("sop "@ =~= "sop"@ + " "@);
    }
    remove_version(Tool::Sop, version, found)
}

/// What a finished installation reports.
#[derive(Debug, Clone)]
pub struct Installed {
    /// The version that is installed.
    pub version: String,
    /// Whether it was fetched now; `false` where it was there before.
    pub fresh: bool,
}

/// Where an installation stands. Every phase but the last waits for the
/// answer to one request.
#[derive(Debug)]
pub enum Phase {
    /// The release index, or the latest release, has been asked for.
    Resolving,
    /// The version's directory is being looked for.
    CheckingDestination { version: String, platform: Platform },
    /// The installed `go` versions have been asked for.
    CheckingRuntime { version: String, platform: Platform },
    /// The user is being told that no installed `go` fits.
    Warning { version: String, platform: Platform, installed: Vec<String>, suggested: String },
    /// The description of the release has been asked for.
    AwaitingRelease { version: String, platform: Platform },
    /// The download is under way.
    Downloading { version: String, platform: Platform, asset: Asset },
    /// The downloaded file is being unpacked.
    Unpacking { version: String, platform: Platform, asset: Asset },
    /// The program is being looked for.
    Verifying { version: String, platform: Platform },
    /// Nothing is left to do.
    Finished(Result<Installed, InstallError>),
}

/// The installation of one version of a tool.
#[derive(Debug)]
pub struct Install {
    /// The tool that is installed.
    pub tool: Tool,
    /// The version as the user wrote it.
    pub requested: String,
    /// The `target_os` of the build target.
    pub target_os: String,
    /// The `target_arch` of the build target.
    pub target_arch: String,
    /// Where the installation stands.
    pub phase: Phase,
}

/// The address of the index of `go` releases.
pub open spec fn go_index_url() -> Seq<char> {
    "https://go.dev/dl/?mode=json"@
}

/// The address that describes the latest `sop` release.
pub open spec fn sop_latest_url() -> Seq<char> {
    "https://api.github.com/repos/halcyonnouveau/soppo/releases/latest"@
}

/// The `User-Agent` of requests to the host of the `sop` releases.
pub open spec fn user_agent() -> Seq<char> {
    "sopmod"@
}

/// The request for the index of `go` releases.
pub fn fetch_go_index() -> (request: Request)
    ensures
        request matches Request::FetchGoIndex { url } && url@ == go_index_url(),
{
    Request::FetchGoIndex { url: "https://go.dev/dl/?mode=json".to_owned() }
}

/// The request for the latest `sop` release.
pub fn fetch_latest_sop() -> (request: Request)
    ensures
        request matches Request::FetchLatestSop { url, agent } && url@ == sop_latest_url()
            && agent@ == user_agent(),
{
    Request::FetchLatestSop {
        url: "https://api.github.com/repos/halcyonnouveau/soppo/releases/latest".to_owned(),
        agent: "sopmod".to_owned(),
    }
}

impl Install {
    /// Whether the installation has ended.
    pub open spec fn is_finished(self) -> bool {
        self.phase is Finished
    }

    /// Whether `platform` is the platform of the build target of the job.
    pub open spec fn targets(self, platform: Platform) -> bool {
        &&& Os::of_target(self.target_os@) == Some(platform.os)
        &&& Arch::of_target(self.target_arch@) == Some(platform.arch)
    }

    /// Whether `version` can be what the specifier of the job was resolved
    /// to: a specifier that needs no answer from the network is its own
    /// version.
    pub open spec fn resolves_to(self, version: Seq<char>) -> bool {
        !needs_network_of(self.requested@) ==> version == self.requested@
    }

    /// Whether the state is one that an installation can be in.
    ///
    /// The network is only asked to resolve a specifier that needs it. From
    /// then on the version is one that the specifier can stand for and the
    /// platform is that of the build target. Only `sop` looks at the
    /// installed `go` versions and at the description of a release, and it
    /// warns only if `go` versions are installed and none of them fits. What
    /// is downloaded is the archive of the `go` version for the platform, or
    /// a `sop` asset that is named for the platform.
    pub open spec fn wf(self) -> bool {
        match self.phase {
            Phase::Resolving => needs_network_of(self.requested@),
            Phase::CheckingDestination { version, platform } => {
                &&& self.resolves_to(version@)
                &&& self.targets(platform)
            },
            Phase::CheckingRuntime { version, platform } => {
                &&& self.resolves_to(version@)
                &&& self.targets(platform)
                &&& self.tool == Tool::Sop
                &&& go_compat_of(version@) is Some
            },
            Phase::Warning { version, platform, installed, suggested } => {
                &&& self.resolves_to(version@)
                &&& self.targets(platform)
                &&& self.tool == Tool::Sop
                &&& installed@.len() > 0
                &&& !any_compatible_of(texts(installed@), version@)
                &&& go_compat_of(version@) matches Some(range)
                &&& suggested@ == range.min@
            },
            Phase::AwaitingRelease { version, platform } => {
                &&& self.resolves_to(version@)
                &&& self.targets(platform)
                &&& self.tool == Tool::Sop
            },
            Phase::Downloading { version, platform, asset } => {
                &&& self.resolves_to(version@)
                &&& self.targets(platform)
                &&& self.fetches(version@, platform, asset)
            },
            Phase::Unpacking { version, platform, asset } => {
                &&& self.resolves_to(version@)
                &&& self.targets(platform)
                &&& self.fetches(version@, platform, asset)
            },
            Phase::Verifying { version, platform } => {
                &&& self.resolves_to(version@)
                &&& self.targets(platform)
            },
            Phase::Finished(outcome) => match outcome {
                Ok(done) => self.resolves_to(done.version@),
                Err(_) => true,
            },
        }
    }

    /// Whether `asset` is what is downloaded for `version` on `platform`:
    /// the archive of the `go` version, or a `sop` asset named for the
    /// platform.
    pub open spec fn fetches(self, version: Seq<char>, platform: Platform, asset: Asset) -> bool {
        match self.tool {
            Tool::Go => {
                &&& asset.name@ == go_archive_name_of(version, platform)
                &&& asset.url@ == go_download_url_of(asset.name@)
            },
            Tool::Sop => asset_prefix_of(platform).is_prefix_of(asset.name@),
        }
    }

    /// Whether two installations are of the same tool, version and target.
    pub open spec fn same_job(self, other: Install) -> bool {
        &&& self.tool == other.tool
        &&& self.requested@ == other.requested@
        &&& self.target_os@ == other.target_os@
        &&& self.target_arch@ == other.target_arch@
    }

    /// Whether the installation has ended with `version`, fetched now or not.
    pub open spec fn installed(self, version: Seq<char>, fresh: bool) -> bool {
        &&& self.phase matches Phase::Finished(Ok(done))
        &&& done.version@ == version
        &&& done.fresh == fresh
    }

    /// Whether the installation has ended because `detail` was not found.
    pub open spec fn not_found(self, detail: Seq<char>) -> bool {
        &&& self.phase matches Phase::Finished(Err(InstallError::VersionNotFound(d)))
        &&& d@ == detail
    }

    /// Whether `next` is what the installation becomes once the specifier
    /// is resolved to `version`: it ends where no release is published for
    /// the target, and else looks for the version's directory.
    pub open spec fn resolved(self, version: Seq<char>, next: Install) -> bool {
        &&& self.same_job(next)
        &&& match (Os::of_target(self.target_os@), Arch::of_target(self.target_arch@)) {
            (Some(os), Some(arch)) => {
                &&& next.phase matches Phase::CheckingDestination { version: v, platform }
                &&& v@ == version
                &&& platform == (Platform { os, arch })
            },
            _ => {
                &&& next.phase matches Phase::Finished(
                    Err(InstallError::UnsupportedPlatform { os, arch }),
                )
                &&& os@ == self.target_os@
                &&& arch@ == self.target_arch@
            },
        }
    }

    /// Whether `next` is a fresh installation of `requested`: it asks the
    /// network where the specifier needs it, and else counts as resolved to
    /// the specifier itself.
    pub open spec fn started(
        next: Install,
        tool: Tool,
        requested: Seq<char>,
        target_os: Seq<char>,
        target_arch: Seq<char>,
    ) -> bool {
        &&& next.tool == tool
        &&& next.requested@ == requested
        &&& next.target_os@ == target_os
        &&& next.target_arch@ == target_arch
        &&& if needs_network_of(requested) {
            next.phase is Resolving
        } else {
            next.resolved(requested, next)
        }
    }

    /// Whether `request` is what the installation asks for in its phase.
    pub open spec fn asks(self, request: Option<Request>) -> bool {
        match self.phase {
            Phase::Resolving => match self.tool {
                Tool::Go => {
                    &&& request matches Some(Request::FetchGoIndex { url })
                    &&& url@ == go_index_url()
                },
                Tool::Sop => {
                    &&& request matches Some(Request::FetchLatestSop { url, agent })
                    &&& url@ == sop_latest_url()
                    &&& agent@ == user_agent()
                },
            },
            Phase::CheckingDestination { version, platform } => {
                &&& request matches Some(Request::Exists { path })
                &&& texts(path@) == tool_dir_parts(self.tool, version@)
            },
            Phase::CheckingRuntime { version, platform } => {
                &&& request matches Some(Request::ListInstalled { tool })
                &&& tool == Tool::Go
            },
            Phase::Warning { version, platform, installed, suggested } => {
                &&& request matches Some(
                    Request::WarnIncompatible { message, installed: listed, suggested: hinted },
                )
                &&& message@ == crate::compat::compat_message_of(version@)
                &&& texts(listed@) == texts(installed@)
                &&& hinted@ == suggested@
            },
            Phase::AwaitingRelease { version, platform } => {
                &&& request matches Some(Request::FetchSopRelease { url, agent })
                &&& url@ == sop_release_url_of(version@)
                &&& agent@ == user_agent()
            },
            Phase::Downloading { version, platform, asset } => {
                &&& request matches Some(Request::Download { url, file_name, user_agent: agent })
                &&& url@ == asset.url@
                &&& file_name@ == asset.name@
                &&& match self.tool {
                    Tool::Go => agent is None,
                    Tool::Sop => agent matches Some(a) && a@ == user_agent(),
                }
            },
            Phase::Unpacking { version, platform, asset } => {
                &&& request matches Some(Request::Unpack { format, into, program })
                &&& format == match self.tool {
                    Tool::Go => go_archive_format_of(platform),
                    Tool::Sop => sop_archive_format_of(asset.name@),
                }
                &&& texts(into@) == tool_dir_parts(self.tool, version@)
                &&& program@ == program_name_of(self.tool, platform.os == Os::Windows)
            },
            Phase::Verifying { version, platform } => {
                &&& request matches Some(Request::Exists { path })
                &&& texts(path@) == tool_binary_parts(
                    self.tool,
                    version@,
                    platform.os == Os::Windows,
                )
            },
            Phase::Finished(_) => request is None,
        }
    }

    /// Whether `next` is what the installation becomes on `reply`.
    ///
    /// A finished installation stays as it is. A failure of the request
    /// ends the installation with that failure. A reply that does not answer
    /// the pending request is passed over.
    pub open spec fn advanced(self, reply: Reply, next: Install) -> bool {
        &&& self.same_job(next)
        &&& match (self.phase, reply) {
            (Phase::Finished(_), _) => next.phase == self.phase,
            (_, Reply::Failed(e)) => next.phase == Phase::Finished(Err(e)),
            (Phase::Resolving, Reply::GoIndex(index)) => if self.tool == Tool::Go {
                match go_resolution(self.requested@, index@) {
                    Some(version) => self.resolved(version, next),
                    None => next.not_found(self.requested@),
                }
            } else {
                next.phase == self.phase
            },
            (Phase::Resolving, Reply::LatestTag(tag)) => if self.tool == Tool::Sop {
                match sop_resolution(self.requested@, tag@) {
                    Some(version) => self.resolved(version, next),
                    None => next.not_found(self.requested@),
                }
            } else {
                next.phase == self.phase
            },
            (Phase::CheckingDestination { version, platform }, Reply::Exists { found, shown }) => {
                if found {
                    next.installed(version@, false)
                } else {
                    match self.tool {
                        Tool::Go => {
                            &&& next.phase matches Phase::Downloading {
                                version: v,
                                platform: p,
                                asset,
                            }
                            &&& v@ == version@
                            &&& p == platform
                            &&& asset.name@ == go_archive_name_of(version@, platform)
                            &&& asset.url@ == go_download_url_of(asset.name@)
                        },
                        Tool::Sop => if go_compat_of(version@) is Some {
                            &&& next.phase matches Phase::CheckingRuntime {
                                version: v,
                                platform: p,
                            }
                            &&& v@ == version@
                            &&& p == platform
                        } else {
                            &&& next.phase matches Phase::AwaitingRelease {
                                version: v,
                                platform: p,
                            }
                            &&& v@ == version@
                            &&& p == platform
                        },
                    }
                }
            },
            (Phase::CheckingRuntime { version, platform }, Reply::Versions(installed)) => {
                if installed@.len() > 0 && !any_compatible_of(texts(installed@), version@) {
                    &&& next.phase matches Phase::Warning {
                        version: v,
                        platform: p,
                        installed: listed,
                        suggested,
                    }
                    &&& v@ == version@
                    &&& p == platform
                    &&& texts(listed@) == texts(installed@)
                    &&& go_compat_of(version@) matches Some(range)
                    &&& suggested@ == range.min@
                } else {
                    &&& next.phase matches Phase::AwaitingRelease { version: v, platform: p }
                    &&& v@ == version@
                    &&& p == platform
                }
            },
            (Phase::Warning { version, platform, installed, suggested }, Reply::Done) => {
                &&& next.phase matches Phase::AwaitingRelease { version: v, platform: p }
                &&& v@ == version@
                &&& p == platform
            },
            (Phase::AwaitingRelease { version, platform }, Reply::Release { success, assets }) => {
                if !success {
                    next.not_found("sop "@ + version@)
                } else {
                    let i = first_asset(assets@, asset_prefix_of(platform));
                    if 0 <= i < assets@.len() {
                        &&& next.phase matches Phase::Downloading {
                            version: v,
                            platform: p,
                            asset,
                        }
                        &&& v@ == version@
                        &&& p == platform
                        &&& asset.name@ == assets@[i].name@
                        &&& asset.url@ == assets@[i].url@
                    } else {
                        next.not_found(
                            "sop "@ + version@ + " for "@ + platform.target_triple_of(),
                        )
                    }
                }
            },
            (
                Phase::Downloading { version, platform, asset },
                Reply::Downloaded { success, error },
            ) => {
                if success {
                    &&& next.phase matches Phase::Unpacking { version: v, platform: p, asset: a }
                    &&& v@ == version@
                    &&& p == platform
                    &&& a.name@ == asset.name@
                    &&& a.url@ == asset.url@
                } else {
                    match self.tool {
                        Tool::Go => next.not_found(
                            "go "@ + version@ + " for "@ + platform.os.name_of() + "-"@
                                + platform.arch.name_of(),
                        ),
                        Tool::Sop => {
                            &&& next.phase matches Phase::Finished(Err(InstallError::Http(d)))
                            &&& d@ == error@
                        },
                    }
                }
            },
            (Phase::Unpacking { version, platform, asset }, Reply::Done) => {
                &&& next.phase matches Phase::Verifying { version: v, platform: p }
                &&& v@ == version@
                &&& p == platform
            },
            (Phase::Verifying { version, platform }, Reply::Exists { found, shown }) => {
                if found {
                    next.installed(version@, true)
                } else {
                    &&& next.phase matches Phase::Finished(Err(InstallError::Extract(d)))
                    &&& d@ == tool_name_of(self.tool) + " binary not found at "@ + shown@
                }
            },
            _ => next.phase == self.phase,
        }
    }
}

impl Install {
    /// The installation once its specifier is resolved to `version`.
    fn after_resolved(
        tool: Tool,
        requested: String,
        target_os: String,
        target_arch: String,
        version: String,
    ) -> (next: Install)
        ensures
            next.tool == tool,
            next.requested == requested,
            next.target_os == target_os,
            next.target_arch == target_arch,
            next.resolved(version@, next),
            (!needs_network_of(requested@) ==> version@ == requested@) ==> next.wf(),
    {
        let phase = match Platform::detect(target_os.as_str(), target_arch.as_str()) {
            Ok(platform) => Phase::CheckingDestination { version, platform },
            Err(e) => Phase::Finished(Err(e)),
        };
        Install { tool, requested, target_os, target_arch, phase }
    }

    /// Begins the installation of `requested` for the build target that
    /// `target_os` and `target_arch` name.
    pub fn start(tool: Tool, requested: &str, target_os: &str, target_arch: &str) -> (next: Install)
        ensures
            Install::started(next, tool, requested@, target_os@, target_arch@),
            next.wf(),
    {
        if needs_network(requested) {
            Install {
                tool,
                requested: requested.to_owned(),
                target_os: target_os.to_owned(),
                target_arch: target_arch.to_owned(),
                phase: Phase::Resolving,
            }
        } else {
            Install::after_resolved(
                tool,
                requested.to_owned(),
                target_os.to_owned(),
                target_arch.to_owned(),
                requested.to_owned(),
            )
        }
    }

    /// The request that the installation waits to have answered; `None`
    /// once it has ended.
    pub fn request(&self) -> (request: Option<Request>)
        ensures
            self.asks(request),
    {
        match &self.phase {
            Phase::Resolving => match self.tool {
                Tool::Go => Some(fetch_go_index()),
                Tool::Sop => Some(fetch_latest_sop()),
            },
            Phase::CheckingDestination { version, platform } => Some(
                Request::Exists { path: tool_dir(self.tool, version.as_str()) },
            ),
            Phase::CheckingRuntime { version, platform } => Some(
                Request::ListInstalled { tool: Tool::Go },
            ),
            Phase::Warning { version, platform, installed, suggested } => Some(
                Request::WarnIncompatible {
                    message: crate::compat::compat_message(version.as_str()),
                    installed: clone_strings(installed),
                    suggested: suggested.clone(),
                },
            ),
            Phase::AwaitingRelease { version, platform } => Some(
                Request::FetchSopRelease {
                    url: sop_release_url(version.as_str()),
                    agent: "sopmod".to_owned(),
                },
            ),
            Phase::Downloading { version, platform, asset } => Some(
                Request::Download {
                    url: asset.url.clone(),
                    file_name: asset.name.clone(),
                    user_agent: match self.tool {
                        Tool::Go => None,
                        Tool::Sop => Some("sopmod".to_owned()),
                    },
                },
            ),
            Phase::Unpacking { version, platform, asset } => Some(
                Request::Unpack {
                    format: match self.tool {
                        Tool::Go => go_archive_format(platform),
                        Tool::Sop => sop_archive_format(asset.name.as_str()),
                    },
                    into: tool_dir(self.tool, version.as_str()),
                    program: program_name(self.tool, platform.is_windows()).to_owned(),
                },
            ),
            Phase::Verifying { version, platform } => Some(
                Request::Exists {
                    path: tool_binary(self.tool, version.as_str(), platform.is_windows()),
                },
            ),
            Phase::Finished(_) => None,
        }
    }

    /// Takes the answer to the pending request.
    pub fn advance(self, reply: Reply) -> (next: Install)
        ensures
            self.advanced(reply, next),
            self.wf() ==> next.wf(),
    {
        let Install { tool, requested, target_os, target_arch, phase } = self;
        let phase = match (phase, reply) {
            (Phase::Finished(outcome), _) => Phase::Finished(outcome),
            (_, Reply::Failed(e)) => Phase::Finished(Err(e)),
            (Phase::Resolving, Reply::GoIndex(index)) => match tool {
                Tool::Go => match resolve_go_version(requested.as_str(), &index) {
                    Ok(version) => {
                        return Install::after_resolved(
                            tool,
                            requested,
                            target_os,
                            target_arch,
                            version,
                        );
                    },
                    Err(e) => Phase::Finished(Err(e)),
                },
                Tool::Sop => Phase::Resolving,
            },
            (Phase::Resolving, Reply::LatestTag(tag)) => match tool {
                Tool::Sop => match resolve_sop_version(requested.as_str(), tag.as_str()) {
                    Ok(version) => {
                        return Install::after_resolved(
                            tool,
                            requested,
                            target_os,
                            target_arch,
                            version,
                        );
                    },
                    Err(e) => Phase::Finished(Err(e)),
                },
                Tool::Go => Phase::Resolving,
            },
            (Phase::CheckingDestination { version, platform }, Reply::Exists { found, shown }) => {
                if found {
                    Phase::Finished(Ok(Installed { version, fresh: false }))
                } else {
                    match tool {
                        Tool::Go => {
                            let name = go_archive_name(version.as_str(), &platform);
                            let url = go_download_url(name.as_str());
                            Phase::Downloading { version, platform, asset: Asset { name, url } }
                        },
                        Tool::Sop => match go_compat(version.as_str()) {
                            Some(_) => Phase::CheckingRuntime { version, platform },
                            None => Phase::AwaitingRelease { version, platform },
                        },
                    }
                }
            },
            (Phase::CheckingRuntime { version, platform }, Reply::Versions(installed)) => {
                if installed.len() > 0 && !any_compatible(&installed, version.as_str()) {
                    match go_compat(version.as_str()) {
                        Some(range) => Phase::Warning {
                            version,
                            platform,
                            installed,
                            suggested: range.min.to_owned(),
                        },
                        None => {
                            proof {
                                let first = texts(installed@)[0];
                                assert(go_compatible_of(first, version@) == Ok::<bool, Seq<char>>(
                                    true,
                                ));
                            }
                            Phase::AwaitingRelease { version, platform }
                        },
                    }
                } else {
                    Phase::AwaitingRelease { version, platform }
                }
            },
            (Phase::Warning { version, platform, installed, suggested }, Reply::Done) => {
                Phase::AwaitingRelease { version, platform }
            },
            (Phase::AwaitingRelease { version, platform }, Reply::Release { success, assets }) => {
                if !success {
                    Phase::Finished(
                        Err(InstallError::VersionNotFound(joined("sop ", version.as_str()))),
                    )
                } else {
                    let prefix = asset_prefix(&platform);
                    match select_asset(&assets, prefix.as_str()) {
                        Some(asset) => Phase::Downloading { version, platform, asset },
                        None => {
                            let mut detail = joined("sop ", version.as_str());
                            detail.append(" for ");
                            detail.append(platform.target_triple());
                            Phase::Finished(Err(InstallError::VersionNotFound(detail)))
                        },
                    }
                }
            },
            (
                Phase::Downloading { version, platform, asset },
                Reply::Downloaded { success, error },
            ) => {
                if success {
                    Phase::Unpacking { version, platform, asset }
                } else {
                    match tool {
                        Tool::Go => {
                            let mut detail = joined("go ", version.as_str());
                            detail.append(" for ");
                            detail.append(platform.os.name());
                            detail.append("-");
                            detail.append(platform.arch.name());
                            Phase::Finished(Err(InstallError::VersionNotFound(detail)))
                        },
                        Tool::Sop => Phase::Finished(Err(InstallError::Http(error))),
                    }
                }
            },
            (Phase::Unpacking { version, platform, asset }, Reply::Done) => {
                Phase::Verifying { version, platform }
            },
            (Phase::Verifying { version, platform }, Reply::Exists { found, shown }) => {
                if found {
                    Phase::Finished(Ok(Installed { version, fresh: true }))
                } else {
                    let mut detail = joined(tool_name(tool), " binary not found at ");
                    detail.append(shown.as_str());
                    Phase::Finished(Err(InstallError::Extract(detail)))
                }
            },
            (phase, _) => phase,
        };
        Install { tool, requested, target_os, target_arch, phase }
    }

    /// The version that the specifier was resolved to, once it is known and
    /// while the installation is under way.
    pub fn version(&self) -> (r: Option<String>)
        ensures
            match self.phase {
                Phase::Resolving => r is None,
                Phase::Finished(_) => r is None,
                Phase::CheckingDestination { version, .. } => r matches Some(v) && v@ == version@,
                Phase::CheckingRuntime { version, .. } => r matches Some(v) && v@ == version@,
                Phase::Warning { version, .. } => r matches Some(v) && v@ == version@,
                Phase::AwaitingRelease { version, .. } => r matches Some(v) && v@ == version@,
                Phase::Downloading { version, .. } => r matches Some(v) && v@ == version@,
                Phase::Unpacking { version, .. } => r matches Some(v) && v@ == version@,
                Phase::Verifying { version, .. } => r matches Some(v) && v@ == version@,
            },
    {
        match &self.phase {
            Phase::Resolving => None,
            Phase::Finished(_) => None,
            Phase::CheckingDestination { version, .. } => Some(version.clone()),
            Phase::CheckingRuntime { version, .. } => Some(version.clone()),
            Phase::Warning { version, .. } => Some(version.clone()),
            Phase::AwaitingRelease { version, .. } => Some(version.clone()),
            Phase::Downloading { version, .. } => Some(version.clone()),
            Phase::Unpacking { version, .. } => Some(version.clone()),
            Phase::Verifying { version, .. } => Some(version.clone()),
        }
    }

    /// Whether the installation has ended.
    pub fn finished(&self) -> (r: bool)
        ensures
            r == self.is_finished(),
    {
        match &self.phase {
            Phase::Finished(_) => true,
            _ => false,
        }
    }

    /// What the installation ended with; `None` while it is under way.
    pub fn outcome(self) -> (r: Option<Result<Installed, InstallError>>)
        ensures
            match r {
                Some(outcome) => self.phase == Phase::Finished(outcome),
                None => !self.is_finished(),
            },
    {
        match self.phase {
            Phase::Finished(outcome) => Some(outcome),
            _ => None,
        }
    }
}

impl Install {
    /// How many requests the installation can still make, at most.
    pub open spec fn remaining(self) -> nat {
        match self.phase {
            Phase::Resolving => 8,
            Phase::CheckingDestination { .. } => 7,
            Phase::CheckingRuntime { .. } => 6,
            Phase::Warning { .. } => 5,
            Phase::AwaitingRelease { .. } => 4,
            Phase::Downloading { .. } => 3,
            Phase::Unpacking { .. } => 2,
            Phase::Verifying { .. } => 1,
            Phase::Finished(_) => 0,
        }
    }

    /// Whether `reply` answers the request that is pending: the failure of
    /// the request does, and else the kind of reply that the request calls for.
    pub open spec fn answered_by(self, reply: Reply) -> bool {
        match (self.phase, reply) {
            (Phase::Finished(_), _) => false,
            (_, Reply::Failed(_)) => true,
            (Phase::Resolving, Reply::GoIndex(_)) => self.tool == Tool::Go,
            (Phase::Resolving, Reply::LatestTag(_)) => self.tool == Tool::Sop,
            (Phase::CheckingDestination { .. }, Reply::Exists { .. }) => true,
            (Phase::CheckingRuntime { .. }, Reply::Versions(_)) => true,
            (Phase::Warning { .. }, Reply::Done) => true,
            (Phase::AwaitingRelease { .. }, Reply::Release { .. }) => true,
            (Phase::Downloading { .. }, Reply::Downloaded { .. }) => true,
            (Phase::Unpacking { .. }, Reply::Done) => true,
            (Phase::Verifying { .. }, Reply::Exists { .. }) => true,
            _ => false,
        }
    }
}

/// Every answer brings the installation closer to its end, and any other
/// reply leaves it where it is: an installation makes at most eight requests.
pub proof fn lemma_install_makes_progress(before: Install, reply: Reply, next: Install)
    requires
        before.advanced(reply, next),
    ensures
        before.answered_by(reply) ==> next.remaining() < before.remaining(),
        !before.answered_by(reply) ==> next.phase == before.phase,
        before.remaining() <= 8,
        before.remaining() == 0 <==> before.is_finished(),
{
}

/// A version whose directory is there is not fetched again: an exact version
/// is looked for without a request to the network, and once its directory is
/// found the installation ends with that version and asks for nothing more.
pub proof fn lemma_present_version_is_not_fetched(
    start: Install,
    first: Option<Request>,
    shown: String,
    next: Install,
    second: Option<Request>,
)
    requires
        !needs_network_of(start.requested@),
        Install::started(start, start.tool, start.requested@, start.target_os@, start.target_arch@),
        start.asks(first),
        start.advanced(Reply::Exists { found: true, shown }, next),
        next.asks(second),
    ensures
        first matches Some(request) ==> !request.is_network() && !request.is_change(),
        !start.is_finished() ==> next.installed(start.requested@, false),
        second is None,
{
}

/// Begins the installation of a `go` version.
pub fn install_go(version: &str, target_os: &str, target_arch: &str) -> (next: Install)
    ensures
        Install::started(next, Tool::Go, version@, target_os@, target_arch@),
        next.wf(),
{
    Install::start(Tool::Go, version, target_os, target_arch)
}

/// Begins the installation of a `sop` version.
pub fn install_sop(version: &str, target_os: &str, target_arch: &str) -> (next: Install)
    ensures
        Install::started(next, Tool::Sop, version@, target_os@, target_arch@),
        next.wf(),
{
    Install::start(Tool::Sop, version, target_os, target_arch)
}

} // verus!
