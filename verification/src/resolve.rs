//! Turning a version specifier into a concrete version.
//!
//! A specifier is `latest`, a partial version of two numbers, or an exact
//! version. An exact version stands for itself. The other two are
//! answered from the releases that are known, in the order in which they
//! are listed: the first stable release that fits is taken. Of `go` the
//! release index is known, of `sop` the latest release.

use crate::error::InstallError;
use crate::text::{
    lemma_first_index_of, split, split_on, starts_with, str_eq, strip_prefix, texts,
    without_prefix,
};
use vstd::prelude::*;

verus! {

/// The two tools that are managed.
#[derive(Debug, Clone, Copy, PartialEq, Eq, Structural)]
pub enum Tool {
    /// The `go` toolchain.
    Go,
    /// The `sop` tool, which runs on `go`.
    Sop,
}

/// One release in the index of `go` releases.
#[derive(Debug, Clone)]
pub struct GoRelease {
    /// The name of the release, such as `go1.22.1`.
    pub version: String,
    /// Whether the release is meant for general use.
    pub stable: bool,
}

/// What a user may write for a version.
#[derive(Debug, Clone)]
pub enum VersionSpecifier {
    /// A complete version, taken as it stands.
    Exact(String),
    /// The first two numbers of a version.
    Partial(String),
    /// The word `latest`.
    Latest,
}

/// Whether the text is the word `latest`.
pub open spec fn is_latest(version: Seq<char>) -> bool {
    version == "latest"@
}

/// Whether the text is a partial version: not `latest`, and two
/// dot-separated pieces.
pub open spec fn is_partial(version: Seq<char>) -> bool {
    !is_latest(version) && split_on(version, '.').len() == 2
}

impl VersionSpecifier {
    /// Reads a specifier.
    pub fn parse(version: &str) -> (r: VersionSpecifier)
        ensures
            match r {
                VersionSpecifier::Latest => is_latest(version@),
                VersionSpecifier::Partial(p) => is_partial(version@) && p@ == version@,
                VersionSpecifier::Exact(e) => !is_latest(version@) && !is_partial(version@) && e@
                    == version@,
            },
    {
        if str_eq(version, "latest") {
            return VersionSpecifier::Latest;
        }
        let parts = split(version, '.');
        assert(texts(parts@).len() == parts@.len());
        if parts.len() == 2 {
            VersionSpecifier::Partial(version.to_owned())
        } else {
            VersionSpecifier::Exact(version.to_owned())
        }
    }
}

/// Whether a specifier can only be resolved with an answer from the
/// network: `latest` and partial versions can, exact versions stand for
/// themselves.
pub open spec fn needs_network_of(version: Seq<char>) -> bool {
    is_latest(version) || is_partial(version)
}

/// Whether resolving `version` has to ask the network.
pub fn needs_network(version: &str) -> (r: bool)
    ensures
        r == needs_network_of(version@),
{
    match VersionSpecifier::parse(version) {
        VersionSpecifier::Exact(_) => false,
        _ => true,
    }
}

impl GoRelease {
    /// The version of the release: its name without a leading `go`.
    pub open spec fn version_of(self) -> Seq<char> {
        without_prefix(self.version@, "go"@)
    }

    /// A release fits a prefix if it is stable and its version begins with
    /// the prefix.
    pub open spec fn fits(self, prefix: Seq<char>) -> bool {
        self.stable && prefix.is_prefix_of(self.version_of())
    }
}

/// The position of the first release of the index that fits `prefix`, or
/// the length of the index where none does.
pub open spec fn first_fit(index: Seq<GoRelease>, prefix: Seq<char>) -> int
    decreases index.len(),
{
    if index.len() == 0 {
        0
    } else if index[0].fits(prefix) {
        0
    } else {
        1 + first_fit(index.drop_first(), prefix)
    }
}

/// `first_fit` is the least position whose release fits.
pub proof fn lemma_first_fit(index: Seq<GoRelease>, prefix: Seq<char>, k: int)
    requires
        0 <= k <= index.len(),
        forall|j: int| 0 <= j < k ==> !(#[trigger] index[j]).fits(prefix),
        k < index.len() ==> index[k].fits(prefix),
    ensures
        first_fit(index, prefix) == k,
    decreases index.len(),
{
    if index.len() == 0 {
    } else if k == 0 {
    } else {
        let rest = index.drop_first();
        assert(!index[0].fits(prefix));
        assert forall|j: int| 0 <= j < k - 1 implies !(#[trigger] rest[j]).fits(prefix) by {
            assert(rest[j] == index[j + 1]);
        }
        lemma_first_fit(rest, prefix, k - 1);
    }
}

/// The version of the first release of the index that fits `prefix`.
pub open spec fn pick(index: Seq<GoRelease>, prefix: Seq<char>) -> Option<Seq<char>> {
    let i = first_fit(index, prefix);
    if 0 <= i < index.len() {
        Some(index[i].version_of())
    } else {
        None
    }
}

/// The release that is picked is the first that fits, in the order of the
/// index: `first_fit` is within the index or at its end, no release before
/// it fits, and the release at it fits if there is one.
pub proof fn lemma_pick_takes_the_first(index: Seq<GoRelease>, prefix: Seq<char>)
    ensures
        0 <= first_fit(index, prefix) <= index.len(),
        forall|j: int| 0 <= j < first_fit(index, prefix) ==> !(#[trigger] index[j]).fits(prefix),
        first_fit(index, prefix) < index.len() ==> index[first_fit(index, prefix)].fits(prefix),
        pick(index, prefix) is None <==> forall|j: int|
            0 <= j < index.len() ==> !(#[trigger] index[j]).fits(prefix),
    decreases index.len(),
{
    if index.len() > 0 && !index[0].fits(prefix) {
        let rest = index.drop_first();
        lemma_pick_takes_the_first(rest, prefix);
        let k = first_fit(rest, prefix);
        assert forall|j: int| 0 <= j < k + 1 implies !(#[trigger] index[j]).fits(prefix) by {
            if j > 0 {
                assert(index[j] == rest[j - 1]);
            }
        }
        if k < rest.len() {
            assert(index[k + 1] == rest[k]);
        }
    }
}

/// Finds the first release of the index that fits `prefix`.
fn pick_release(index: &Vec<GoRelease>, prefix: &str) -> (r: Option<String>)
    ensures
        match r {
            Some(v) => pick(index@, prefix@) == Some(v@),
            None => pick(index@, prefix@) is None,
        },
{
    let mut i: usize = 0;
    while i < index.len()
        invariant
            i <= index.len(),
            forall|j: int| 0 <= j < i ==> !(#[trigger] index@[j]).fits(prefix@),
        decreases index.len() - i,
    {
        if index[i].stable {
            let version = strip_prefix(index[i].version.as_str(), "go");
            if starts_with(version.as_str(), prefix) {
                proof {
                    lemma_first_fit(index@, prefix@, i as int);
                }
                return Some(version);
            }
        }
        i = i + 1;
    }
    proof {
        lemma_first_fit(index@, prefix@, index.len() as int);
    }
    None
}

/// The `go` version that a specifier stands for, given the release index:
/// `latest` is the first stable release, a partial version the first stable
/// release that begins with it, and any other text is its own version.
/// `None` where the index holds no such release.
pub open spec fn go_resolution(version: Seq<char>, index: Seq<GoRelease>) -> Option<Seq<char>> {
    if is_latest(version) {
        pick(index, Seq::empty())
    } else if is_partial(version) {
        pick(index, version)
    } else {
        Some(version)
    }
}

/// Resolves `latest` against the index of `go` releases.
pub fn resolve_latest_go(index: &Vec<GoRelease>) -> (r: Result<String, InstallError>)
    ensures
        match r {
            Ok(v) => pick(index@, Seq::empty()) == Some(v@),
            Err(e) => {
                &&& pick(index@, Seq::empty()) is None
                &&& e matches InstallError::VersionNotFound(detail)
                &&& detail@ == "latest"@
            },
        },
{
    proof {
        reveal_strlit("");
        assert(""@ =~= Seq::<char>::empty());
    }
    match pick_release(index, "") {
        Some(v) => Ok(v),
        None => Err(InstallError::VersionNotFound("latest".to_owned())),
    }
}

/// Resolves a `go` version specifier against the index of `go` releases.
/// The index is only looked at for `latest` and for partial versions.
pub fn resolve_go_version(version: &str, index: &Vec<GoRelease>) -> (r: Result<
    String,
    InstallError,
>)
    ensures
        match r {
            Ok(v) => go_resolution(version@, index@) == Some(v@),
            Err(e) => {
                &&& go_resolution(version@, index@) is None
                &&& e matches InstallError::VersionNotFound(detail)
                &&& detail@ == version@
            },
        },
{
    match VersionSpecifier::parse(version) {
        VersionSpecifier::Latest => resolve_latest_go(index),
        VersionSpecifier::Partial(prefix) => match pick_release(index, prefix.as_str()) {
            Some(v) => Ok(v),
            None => Err(InstallError::VersionNotFound(prefix)),
        },
        VersionSpecifier::Exact(exact) => Ok(exact),
    }
}

/// The version that the tag of a `sop` release names: the tag without a
/// leading `v`.
pub fn resolve_latest_sop(tag_name: &str) -> (r: String)
    ensures
        r@ == without_prefix(tag_name@, seq!['v']),
{
    proof {
        reveal_strlit("v");
        assert("v"@ =~= seq!['v']);
    }
    strip_prefix(tag_name, "v")
}

/// The `sop` version that a specifier stands for, given the tag of the
/// latest release, which is the one release that is known: `latest` is the
/// version of that tag, a partial version is the version of that tag if it
/// begins with the partial version, and any other text is its own version.
/// `None` where the latest release does not fit a partial version.
pub open spec fn sop_resolution(version: Seq<char>, latest_tag: Seq<char>) -> Option<Seq<char>> {
    let latest = without_prefix(latest_tag, seq!['v']);
    if is_latest(version) {
        Some(latest)
    } else if is_partial(version) {
        if version.is_prefix_of(latest) {
            Some(latest)
        } else {
            None
        }
    } else {
        Some(version)
    }
}

/// Resolves a `sop` version specifier against the tag of the latest
/// release. The tag is only looked at for `latest` and for partial versions.
pub fn resolve_sop_version(version: &str, latest_tag: &str) -> (r: Result<String, InstallError>)
    ensures
        match r {
            Ok(v) => sop_resolution(version@, latest_tag@) == Some(v@),
            Err(e) => {
                &&& sop_resolution(version@, latest_tag@) is None
                &&& e matches InstallError::VersionNotFound(detail)
                &&& detail@ == version@
            },
        },
{
    match VersionSpecifier::parse(version) {
        VersionSpecifier::Latest => Ok(resolve_latest_sop(latest_tag)),
        VersionSpecifier::Partial(prefix) => {
            let latest = resolve_latest_sop(latest_tag);
            if starts_with(latest.as_str(), prefix.as_str()) {
                Ok(latest)
            } else {
                Err(InstallError::VersionNotFound(prefix))
            }
        },
        VersionSpecifier::Exact(exact) => Ok(exact),
    }
}

/// An exact version of three numbers resolves to itself, whatever the
/// index holds, and without an answer from the network.
pub proof fn lemma_exact_version_resolves_to_itself(
    version: Seq<char>,
    index: Seq<GoRelease>,
    latest_tag: Seq<char>,
)
    requires
        split_on(version, '.').len() == 3,
    ensures
        !needs_network_of(version),
        go_resolution(version, index) == Some(version),
        sop_resolution(version, latest_tag) == Some(version),
{
    if is_latest(version) {
        reveal_strlit("latest");
        assert forall|j: int| 0 <= j < version.len() implies version[j] != '.' by {}
        lemma_first_index_of(version, '.', version.len() as int);
    }
}

} // verus!
