//! Where the manager keeps its files.
//!
//! A location is the sequence of directory and file names that lead to it
//! from the user's home directory. The caller joins them to that directory.

use crate::text::texts;
use vstd::prelude::*;

verus! {

/// Appends one name to a location.
fn push_part(parts: &mut Vec<String>, part: &str)
    ensures
        texts(final(parts)@) == texts(old(parts)@).push(part@),
{
    let owned = part.to_owned();
    proof {
        assert(texts(parts@.push(owned)) =~= texts(parts@).push(part@));
    }
    parts.push(owned);
}

/// The root of everything the manager keeps: `.sopmod`.
pub open spec fn sopmod_parts() -> Seq<Seq<char>> {
    seq![".sopmod"@]
}

/// The directory of `go` installations: `.sopmod/go`.
pub open spec fn go_root_parts() -> Seq<Seq<char>> {
    sopmod_parts().push("go"@)
}

/// The directory of one `go` version: `.sopmod/go/<version>`.
pub open spec fn go_dir_parts(version: Seq<char>) -> Seq<Seq<char>> {
    go_root_parts().push(version)
}

/// The `go` program of one version: `go/bin/go` below the version's
/// directory, `go/bin/go.exe` on Windows.
pub open spec fn go_binary_parts(version: Seq<char>, windows: bool) -> Seq<Seq<char>> {
    go_dir_parts(version).push("go"@).push("bin"@).push(
        if windows {
            "go.exe"@
        } else {
            "go"@
        },
    )
}

/// The directory of `sop` installations: `.sopmod/sop`.
pub open spec fn sop_root_parts() -> Seq<Seq<char>> {
    sopmod_parts().push("sop"@)
}

/// The directory of one `sop` version: `.sopmod/sop/<version>`.
pub open spec fn sop_dir_parts(version: Seq<char>) -> Seq<Seq<char>> {
    sop_root_parts().push(version)
}

/// The name of the `sop` program: `sop`, or `sop.exe` on Windows.
pub open spec fn sop_binary_name_of(windows: bool) -> Seq<char> {
    if windows {
        "sop.exe"@
    } else {
        "sop"@
    }
}

/// The `sop` program of one version, directly in the version's directory.
pub open spec fn sop_binary_parts(version: Seq<char>, windows: bool) -> Seq<Seq<char>> {
    sop_dir_parts(version).push(sop_binary_name_of(windows))
}

/// The configuration file: `.sopmod/config.toml`.
pub open spec fn config_parts() -> Seq<Seq<char>> {
    sopmod_parts().push("config.toml"@)
}

/// The directory that is meant to be on the search path: `.sopmod/bin`.
pub open spec fn bin_dir_parts() -> Seq<Seq<char>> {
    sopmod_parts().push("bin"@)
}

/// The link to the active `sop` program, in the `bin` directory.
pub open spec fn sop_symlink_parts(windows: bool) -> Seq<Seq<char>> {
    bin_dir_parts().push(sop_binary_name_of(windows))
}

/// Returns the manager's root directory.
pub fn sopmod_dir() -> (parts: Vec<String>)
    ensures
        texts(parts@) == sopmod_parts(),
{
    let mut parts: Vec<String> = Vec::new();
    assert(texts(parts@) =~= Seq::<Seq<char>>::empty());
    push_part(&mut parts, ".sopmod");
    assert(texts(parts@) =~= sopmod_parts());
    parts
}

/// Returns the directory that holds the `go` installations.
pub fn go_root() -> (parts: Vec<String>)
    ensures
        texts(parts@) == go_root_parts(),
{
    let mut parts = sopmod_dir();
    push_part(&mut parts, "go");
    parts
}

/// Returns the directory of the `go` version `version`.
pub fn go_dir(version: &str) -> (parts: Vec<String>)
    ensures
        texts(parts@) == go_dir_parts(version@),
{
    let mut parts = go_root();
    push_part(&mut parts, version);
    parts
}

/// Returns the `go` program of the version `version`; `windows` says whether
/// the system is Windows.
pub fn go_binary(version: &str, windows: bool) -> (parts: Vec<String>)
    ensures
        texts(parts@) == go_binary_parts(version@, windows),
{
    let mut parts = go_dir(version);
    push_part(&mut parts, "go");
    push_part(&mut parts, "bin");
    if windows {
        push_part(&mut parts, "go.exe");
    } else {
        push_part(&mut parts, "go");
    }
    parts
}

/// Returns the directory that holds the `sop` installations.
pub fn sop_root() -> (parts: Vec<String>)
    ensures
        texts(parts@) == sop_root_parts(),
{
    let mut parts = sopmod_dir();
    push_part(&mut parts, "sop");
    parts
}

/// Returns the directory of the `sop` version `version`.
pub fn sop_dir(version: &str) -> (parts: Vec<String>)
    ensures
        texts(parts@) == sop_dir_parts(version@),
{
    let mut parts = sop_root();
    push_part(&mut parts, version);
    parts
}

/// Returns the name of the `sop` program; `windows` says whether
/// the system is Windows.
pub fn sop_binary_name(windows: bool) -> (name: &'static str)
    ensures
        name@ == sop_binary_name_of(windows),
{
    if windows {
        "sop.exe"
    } else {
        "sop"
    }
}

/// Returns the `sop` program of the version `version`; `windows` says whether
/// the system is Windows.
pub fn sop_binary(version: &str, windows: bool) -> (parts: Vec<String>)
    ensures
        texts(parts@) == sop_binary_parts(version@, windows),
{
    let mut parts = sop_dir(version);
    push_part(&mut parts, sop_binary_name(windows));
    parts
}

/// Returns the configuration file.
pub fn config_path() -> (parts: Vec<String>)
    ensures
        texts(parts@) == config_parts(),
{
    let mut parts = sopmod_dir();
    push_part(&mut parts, "config.toml");
    parts
}

/// Returns the directory that holds the link to the active `sop` program.
pub fn bin_dir() -> (parts: Vec<String>)
    ensures
        texts(parts@) == bin_dir_parts(),
{
    let mut parts = sopmod_dir();
    push_part(&mut parts, "bin");
    parts
}

/// Returns the link to the active `sop` program; `windows` says whether
/// the system is Windows.
pub fn sop_symlink(windows: bool) -> (parts: Vec<String>)
    ensures
        texts(parts@) == sop_symlink_parts(windows),
{
    let mut parts = bin_dir();
    push_part(&mut parts, sop_binary_name(windows));
    parts
}

/// The directories that have to be there before anything else is done:
/// those of the `go` and `sop` installations and the `bin` directory.
pub fn ensure_dirs() -> (dirs: Vec<Vec<String>>)
    ensures
        dirs@.len() == 3,
        texts(dirs@[0]@) == go_root_parts(),
        texts(dirs@[1]@) == sop_root_parts(),
        texts(dirs@[2]@) == bin_dir_parts(),
{
    let mut dirs: Vec<Vec<String>> = Vec::new();
    dirs.push(go_root());
    dirs.push(sop_root());
    dirs.push(bin_dir());
    dirs
}

/// Every location lies below the manager's root, and the directory of a
/// version is the last name below the root of its tool.
pub proof fn lemma_locations_below_root(version: Seq<char>, windows: bool)
    ensures
        sopmod_parts().is_prefix_of(go_root_parts()),
        sopmod_parts().is_prefix_of(sop_root_parts()),
        sopmod_parts().is_prefix_of(config_parts()),
        sopmod_parts().is_prefix_of(bin_dir_parts()),
        go_root_parts().is_prefix_of(go_dir_parts(version)),
        sop_root_parts().is_prefix_of(sop_dir_parts(version)),
        go_dir_parts(version).last() == version,
        sop_dir_parts(version).last() == version,
        go_dir_parts(version).is_prefix_of(go_binary_parts(version, windows)),
        sop_dir_parts(version).is_prefix_of(sop_binary_parts(version, windows)),
        bin_dir_parts().is_prefix_of(sop_symlink_parts(windows)),
{
}

} // verus!
