//! The platforms that releases are published for.

use crate::error::InstallError;
use crate::text::str_eq;
use vstd::prelude::*;

verus! {

/// An operating system, by the name that `go` downloads use.
#[derive(Debug, Clone, Copy, PartialEq, Eq, Structural)]
pub enum Os {
    Linux,
    Darwin,
    Windows,
}

/// A processor architecture, by the name that `go` downloads use.
#[derive(Debug, Clone, Copy, PartialEq, Eq, Structural)]
pub enum Arch {
    Amd64,
    Arm64,
}

/// The platform that artifacts are fetched for.
#[derive(Debug, Clone, Copy, PartialEq, Eq, Structural)]
pub struct Platform {
    pub os: Os,
    pub arch: Arch,
}

impl Os {
    /// The name of the system in `go` archive names.
    pub open spec fn name_of(self) -> Seq<char> {
        match self {
            Os::Linux => "linux"@,
            Os::Darwin => "darwin"@,
            Os::Windows => "windows"@,
        }
    }

    /// The name of the system in `go` archive names.
    pub fn name(self) -> (r: &'static str)
        ensures
            r@ == self.name_of(),
    {
        match self {
            Os::Linux => "linux",
            Os::Darwin => "darwin",
            Os::Windows => "windows",
        }
    }

    /// The system that a build target's `target_os` stands for, if releases
    /// are published for it.
    pub open spec fn of_target(target_os: Seq<char>) -> Option<Os> {
        if target_os == "linux"@ {
            Some(Os::Linux)
        } else if target_os == "macos"@ {
            Some(Os::Darwin)
        } else if target_os == "windows"@ {
            Some(Os::Windows)
        } else {
            None
        }
    }

    /// Reads a build target's `target_os`.
    pub fn from_target(target_os: &str) -> (r: Option<Os>)
        ensures
            r == Os::of_target(target_os@),
    {
        if str_eq(target_os, "linux") {
            Some(Os::Linux)
        } else if str_eq(target_os, "macos") {
            Some(Os::Darwin)
        } else if str_eq(target_os, "windows") {
            Some(Os::Windows)
        } else {
            None
        }
    }
}

impl Arch {
    /// The name of the architecture in `go` archive names.
    pub open spec fn name_of(self) -> Seq<char> {
        match self {
            Arch::Amd64 => "amd64"@,
            Arch::Arm64 => "arm64"@,
        }
    }

    /// The name of the architecture in `go` archive names.
    pub fn name(self) -> (r: &'static str)
        ensures
            r@ == self.name_of(),
    {
        match self {
            Arch::Amd64 => "amd64",
            Arch::Arm64 => "arm64",
        }
    }

    /// The architecture that a build target's `target_arch` stands for, if
    /// releases are published for it.
    pub open spec fn of_target(target_arch: Seq<char>) -> Option<Arch> {
        if target_arch == "x86_64"@ {
            Some(Arch::Amd64)
        } else if target_arch == "aarch64"@ {
            Some(Arch::Arm64)
        } else {
            None
        }
    }

    /// Reads a build target's `target_arch`.
    pub fn from_target(target_arch: &str) -> (r: Option<Arch>)
        ensures
            r == Arch::of_target(target_arch@),
    {
        if str_eq(target_arch, "x86_64") {
            Some(Arch::Amd64)
        } else if str_eq(target_arch, "aarch64") {
            Some(Arch::Arm64)
        } else {
            None
        }
    }
}

impl Platform {
    /// The platform of a build target, given by its `target_os` and
    /// `target_arch`; the names are handed back where no release is
    /// published for the system or for the architecture.
    pub fn detect(target_os: &str, target_arch: &str) -> (r: Result<Platform, InstallError>)
        ensures
            match r {
                Ok(p) => Os::of_target(target_os@) == Some(p.os) && Arch::of_target(target_arch@)
                    == Some(p.arch),
                Err(e) => {
                    &&& Os::of_target(target_os@) is None || Arch::of_target(target_arch@) is None
                    &&& e matches InstallError::UnsupportedPlatform { os, arch }
                    &&& os@ == target_os@
                    &&& arch@ == target_arch@
                },
            },
    {
        match (Os::from_target(target_os), Arch::from_target(target_arch)) {
            (Some(os), Some(arch)) => Ok(Platform { os, arch }),
            _ => Err(
                InstallError::UnsupportedPlatform {
                    os: target_os.to_owned(),
                    arch: target_arch.to_owned(),
                },
            ),
        }
    }

    /// Whether the system of the platform is Windows.
    pub fn is_windows(&self) -> (r: bool)
        ensures
            r == (self.os == Os::Windows),
    {
        match self.os {
            Os::Windows => true,
            _ => false,
        }
    }

    /// The extension of `go` archives for the platform: `zip` on Windows,
    /// `tar.gz` everywhere else.
    pub open spec fn go_archive_ext_of(self) -> Seq<char> {
        if self.os == Os::Windows {
            "zip"@
        } else {
            "tar.gz"@
        }
    }

    /// The extension of `go` archives for the platform.
    pub fn go_archive_ext(&self) -> (r: &'static str)
        ensures
            r@ == self.go_archive_ext_of(),
    {
        match self.os {
            Os::Windows => "zip",
            _ => "tar.gz",
        }
    }

    /// The target triple in the names of `sop` release assets.
    pub open spec fn target_triple_of(self) -> Seq<char> {
        match (self.os, self.arch) {
            (Os::Linux, Arch::Amd64) => "x86_64-unknown-linux-gnu"@,
            (Os::Linux, Arch::Arm64) => "aarch64-unknown-linux-gnu"@,
            (Os::Darwin, Arch::Amd64) => "x86_64-apple-darwin"@,
            (Os::Darwin, Arch::Arm64) => "aarch64-apple-darwin"@,
            (Os::Windows, Arch::Amd64) => "x86_64-pc-windows-msvc"@,
            (Os::Windows, Arch::Arm64) => "aarch64-pc-windows-msvc"@,
        }
    }

    /// The target triple in the names of `sop` release assets.
    pub fn target_triple(&self) -> (r: &'static str)
        ensures
            r@ == self.target_triple_of(),
    {
        match (self.os, self.arch) {
            (Os::Linux, Arch::Amd64) => "x86_64-unknown-linux-gnu",
            (Os::Linux, Arch::Arm64) => "aarch64-unknown-linux-gnu",
            (Os::Darwin, Arch::Amd64) => "x86_64-apple-darwin",
            (Os::Darwin, Arch::Arm64) => "aarch64-apple-darwin",
            (Os::Windows, Arch::Amd64) => "x86_64-pc-windows-msvc",
            (Os::Windows, Arch::Arm64) => "aarch64-pc-windows-msvc",
        }
    }
}

} // verus!
