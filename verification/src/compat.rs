//! Which `go` toolchain a `sop` release needs.
//!
//! Version texts are parsed by the `semver` crate and compared by its
//! order. A [`SemVer`] holds a parsed version as plain values; the rule
//! table, the choice of the rule in force and the range test are proved over
//! those values. Where the three numbers of two versions differ they decide,
//! and a version whose identifiers the crate refuses is compared by its
//! numbers alone.

use crate::text::{joined, split, split_on, strip_prefix, texts, without_prefix};
use vstd::prelude::*;

verus! {

/// The range of `go` versions that a `sop` release runs on.
#[derive(Debug, Clone)]
pub struct GoCompat {
    /// Lowest `go` version that is accepted.
    pub min: &'static str,
    /// Highest `go` version that is accepted; `None` leaves the range open above.
    pub max: Option<&'static str>,
}

/// A semantic version as plain values: the three numbers, and the
/// pre-release and build identifiers without their leading `-` and `+`.
#[derive(Debug, Clone)]
pub struct SemVer {
    pub major: u64,
    pub minor: u64,
    pub patch: u64,
    pub pre: String,
    pub build: String,
}

/// The mathematical value of a [`SemVer`].
pub struct SemVerValue {
    pub major: u64,
    pub minor: u64,
    pub patch: u64,
    pub pre: Seq<char>,
    pub build: Seq<char>,
}

impl View for SemVer {
    type V = SemVerValue;

    open spec fn view(&self) -> SemVerValue {
        SemVerValue {
            major: self.major,
            minor: self.minor,
            patch: self.patch,
            pre: self.pre@,
            build: self.build@,
        }
    }
}

/// What `semver::Version::parse` makes of a text: the parsed version, or the
/// text of the crate's error.
pub uninterp spec fn semver_parse(text: Seq<char>) -> Result<SemVerValue, Seq<char>>;

/// What `<` of `semver::Version` says of two versions: whether `a` comes
/// before `b` in the crate's order. `None` where the crate does not accept
/// the pre-release or build identifiers of one of them.
pub uninterp spec fn semver_less(a: SemVerValue, b: SemVerValue) -> Option<bool>;

/// Whether the three numbers of `a` come before those of `b`, compared from
/// left to right.
pub open spec fn numbers_precede(a: SemVerValue, b: SemVerValue) -> bool {
    a.major < b.major || (a.major == b.major && (a.minor < b.minor || (a.minor == b.minor
        && a.patch < b.patch)))
}

/// Calls `semver::Version::parse` and moves the fields of the outcome into
/// plain values. The contract names the outcome and claims nothing of what
/// the crate accepts.
#[verifier::external_body]
fn parse_semver(text: &str) -> (r: Result<SemVer, String>)
    ensures
        match r {
            Ok(v) => semver_parse(text@) == Ok::<SemVerValue, Seq<char>>(v@),
            Err(e) => semver_parse(text@) == Err::<SemVerValue, Seq<char>>(e@),
        },
{
    match semver::Version::parse(text) {
        Ok(v) => Ok(
            SemVer {
                major: v.major,
                minor: v.minor,
                patch: v.patch,
                pre: v.pre.as_str().to_string(),
                build: v.build.as_str().to_string(),
            },
        ),
        Err(e) => Err(e.to_string()),
    }
}

/// Compares two versions with `<` of `semver::Version`, after moving the
/// plain values back into the crate's type with `Prerelease::new` and
/// `BuildMetadata::new`; `None` where one of these refuses an identifier.
/// The contract names the outcome and adds what the crate documents of its
/// order: the three numbers are compared first, from left to right, and a
/// version does not come before itself.
#[verifier::external_body]
fn semver_lt(a: &SemVer, b: &SemVer) -> (r: Option<bool>)
    ensures
        r == semver_less(a@, b@),
        r matches Some(less) ==> (numbers_precede(a@, b@) ==> less),
        r matches Some(less) ==> (numbers_precede(b@, a@) ==> !less),
        r matches Some(less) ==> (a@ == b@ ==> !less),
{
    let a_ids = (semver::Prerelease::new(&a.pre), semver::BuildMetadata::new(&a.build));
    let b_ids = (semver::Prerelease::new(&b.pre), semver::BuildMetadata::new(&b.build));
    match (a_ids, b_ids) {
        ((Ok(a_pre), Ok(a_build)), (Ok(b_pre), Ok(b_build))) => {
            let mut x = semver::Version::new(a.major, a.minor, a.patch);
            let mut y = semver::Version::new(b.major, b.minor, b.patch);
            (x.pre, x.build) = (a_pre, a_build);
            (y.pre, y.build) = (b_pre, b_build);
            Some(x < y)
        },
        _ => None,
    }
}

/// Whether `a` comes before `b`: as the `semver` crate orders the two, and
/// by their three numbers alone where the crate does not accept the
/// identifiers of one of them.
pub open spec fn precedes(a: SemVerValue, b: SemVerValue) -> bool {
    match semver_less(a, b) {
        Some(less) => less,
        None => numbers_precede(a, b),
    }
}

/// Tells whether `a` comes before `b`. Whatever the identifiers hold, the
/// three numbers decide where they differ, and no version comes before
/// itself.
pub fn comes_before(a: &SemVer, b: &SemVer) -> (r: bool)
    ensures
        r == precedes(a@, b@),
        numbers_precede(a@, b@) ==> r,
        numbers_precede(b@, a@) ==> !r,
        a@ == b@ ==> !r,
{
    match semver_lt(a, b) {
        Some(less) => less,
        None => a.major < b.major || (a.major == b.major && (a.minor < b.minor || (a.minor
            == b.minor && a.patch < b.patch))),
    }
}

/// A version text filled up with zeroes to three numbers: one dot-separated
/// piece gets `.0.0`, two get `.0`, any other count leaves the text as it is.
pub open spec fn normalised(version: Seq<char>) -> Seq<char> {
    let n = split_on(version, '.').len();
    if n == 1 {
        version + ".0.0"@
    } else if n == 2 {
        version + ".0"@
    } else {
        version
    }
}

/// Fills a version text up to three numbers.
pub fn normalise_version(version: &str) -> (r: String)
    ensures
        r@ == normalised(version@),
{
    let parts = split(version, '.');
    assert(texts(parts@).len() == parts@.len());
    if parts.len() == 1 {
        joined(version, ".0.0")
    } else if parts.len() == 2 {
        joined(version, ".0")
    } else {
        version.to_owned()
    }
}

/// One line of the compatibility table: from the `sop` release
/// `major.minor.patch` on, `go` has to lie in the range `go`.
#[derive(Debug, Clone)]
pub struct CompatRule {
    pub major: u64,
    pub minor: u64,
    pub patch: u64,
    pub go: GoCompat,
}

/// The release `major.minor.patch`, without pre-release or build identifiers.
pub open spec fn release(major: u64, minor: u64, patch: u64) -> SemVerValue {
    SemVerValue { major, minor, patch, pre: Seq::empty(), build: Seq::empty() }
}

impl CompatRule {
    /// The first `sop` release that the rule applies to.
    pub open spec fn threshold(&self) -> SemVerValue {
        release(self.major, self.minor, self.patch)
    }

    /// A rule applies to every version that does not come before its threshold.
    pub open spec fn applies_to(&self, v: SemVerValue) -> bool {
        !precedes(v, self.threshold())
    }
}

/// The compatibility table, by ascending threshold.
pub open spec fn rules() -> Seq<CompatRule> {
    seq![CompatRule { major: 0, minor: 1, patch: 0, go: GoCompat { min: "1.21", max: None } }]
}

/// The range of the last rule of the table that applies to `v`; `None` where
/// `v` comes before every threshold.
pub open spec fn rule_in_force(table: Seq<CompatRule>, v: SemVerValue) -> Option<GoCompat>
    decreases table.len(),
{
    if table.len() == 0 {
        None
    } else if table.last().applies_to(v) {
        Some(table.last().go)
    } else {
        rule_in_force(table.drop_last(), v)
    }
}

/// The rule in force is the last rule of the table that applies: no rule
/// after it applies. Where no rule applies, none is in force.
pub proof fn lemma_rule_in_force_is_the_last(table: Seq<CompatRule>, v: SemVerValue)
    ensures
        match rule_in_force(table, v) {
            Some(range) => exists|i: int|
                0 <= i < table.len() && (#[trigger] table[i]).applies_to(v) && range
                    == table[i].go && forall|j: int|
                    i < j < table.len() ==> !(#[trigger] table[j]).applies_to(v),
            None => forall|j: int| 0 <= j < table.len() ==> !(#[trigger] table[j]).applies_to(v),
        },
    decreases table.len(),
{
    if table.len() > 0 {
        let last = table.len() - 1;
        if table.last().applies_to(v) {
            assert(table[last].applies_to(v));
        } else {
            let head = table.drop_last();
            lemma_rule_in_force_is_the_last(head, v);
            match rule_in_force(head, v) {
                Some(range) => {
                    let i = choose|i: int|
                        0 <= i < head.len() && (#[trigger] head[i]).applies_to(v) && range
                            == head[i].go && forall|j: int|
                            i < j < head.len() ==> !(#[trigger] head[j]).applies_to(v);
                    assert(table[i] == head[i]);
                    assert forall|j: int| i < j < table.len() implies !(
                    #[trigger] table[j]).applies_to(v) by {
                        if j < last {
                            assert(table[j] == head[j]);
                        }
                    }
                },
                None => {
                    assert forall|j: int| 0 <= j < table.len() implies !(
                    #[trigger] table[j]).applies_to(v) by {
                        if j < last {
                            assert(table[j] == head[j]);
                        }
                    }
                },
            }
        }
    }
}

/// A `sop` version without a known requirement runs on every `go`.
pub proof fn lemma_unknown_requirement_is_compatible(go_version: Seq<char>, sop_version: Seq<char>)
    requires
        go_compat_of(sop_version) is None,
    ensures
        go_compatible_of(go_version, sop_version) == Ok::<bool, Seq<char>>(true),
{
}

/// The compatibility table.
pub fn compat_rules() -> (table: Vec<CompatRule>)
    ensures
        table@ == rules(),
{
    let mut table: Vec<CompatRule> = Vec::new();
    table.push(CompatRule { major: 0, minor: 1, patch: 0, go: GoCompat { min: "1.21", max: None } });
    assert(table@ =~= rules());
    table
}

/// Whether the three numbers of `v` have reached the threshold of a rule:
/// the threshold comes first by its numbers, or `v` is the threshold itself.
pub open spec fn reached(rule: CompatRule, v: SemVerValue) -> bool {
    numbers_precede(rule.threshold(), v) || v == rule.threshold()
}

/// Whether every rule of the table after position `i` has a threshold that
/// the three numbers of `v` have not reached.
pub open spec fn all_later_ahead(table: Seq<CompatRule>, i: int, v: SemVerValue) -> bool {
    forall|j: int| i < j < table.len() ==> numbers_precede(v, (#[trigger] table[j]).threshold())
}

/// Whether `r` is the range that the three numbers of `v` call for, where
/// they decide: none where every threshold is ahead of them, and that of a
/// rule whose threshold they have reached while all later ones are ahead.
pub open spec fn rule_by_numbers(table: Seq<CompatRule>, v: SemVerValue, r: Option<GoCompat>) -> bool {
    &&& all_later_ahead(table, -1, v) ==> r is None
    &&& forall|i: int|
        0 <= i < table.len() && reached(#[trigger] table[i], v) && all_later_ahead(table, i, v)
            ==> r == Some(table[i].go)
}

/// Picks from `table` the range that is in force for the parsed `sop` version `v`.
pub fn select_rule(table: &Vec<CompatRule>, v: &SemVer) -> (r: Option<GoCompat>)
    ensures
        r == rule_in_force(table@, v@),
        rule_by_numbers(table@, v@, r),
{
    let mut i: usize = table.len();
    assert(table@.subrange(0, i as int) =~= table@);
    while i > 0
        invariant
            i <= table.len(),
            rule_in_force(table@, v@) == rule_in_force(table@.subrange(0, i as int), v@),
            forall|j: int| i <= j < table.len() ==> !reached(#[trigger] table@[j], v@),
        decreases i,
    {
        let rule = &table[i - 1];
        let threshold = SemVer {
            major: rule.major,
            minor: rule.minor,
            patch: rule.patch,
            pre: String::new(),
            build: String::new(),
        };
        proof {
            let head = table@.subrange(0, i as int);
            assert(head.last() == table@[i - 1]);
            assert(head.drop_last() =~= table@.subrange(0, i - 1));
            assert(threshold@ == rule.threshold());
        }
        if !comes_before(v, &threshold) {
            let range = GoCompat { min: rule.go.min, max: rule.go.max };
            assert(range == table@[i - 1].go);
            return Some(range);
        }
        i = i - 1;
    }
    None
}

/// The requirement of a `sop` version text: a leading `v` is dropped, the
/// text is filled up to three numbers and parsed, and the table decides. A
/// text that does not parse has no known requirement.
pub open spec fn go_compat_of(sop_version: Seq<char>) -> Option<GoCompat> {
    match semver_parse(normalised(without_prefix(sop_version, seq!['v']))) {
        Ok(v) => rule_in_force(rules(), v),
        Err(_) => None,
    }
}

/// Returns the `go` versions that `sop_version` runs on, or `None` where the
/// requirement is unknown.
pub fn go_compat(sop_version: &str) -> (r: Option<GoCompat>)
    ensures
        r == go_compat_of(sop_version@),
        semver_parse(normalised(without_prefix(sop_version@, seq!['v']))) matches Ok(v)
            ==> rule_by_numbers(rules(), v, r),
{
    proof {
        reveal_strlit("v");
        assert("v"@ =~= seq!['v']);
    }
    let version = strip_prefix(sop_version, "v");
    let text = normalise_version(version.as_str());
    match parse_semver(text.as_str()) {
        Ok(v) => {
            let table = compat_rules();
            select_rule(&table, &v)
        },
        Err(_) => None,
    }
}

/// From the first release listed in the table on, `sop` needs `go` 1.21 or later.
pub proof fn lemma_go_compat_since_first_release(sop_version: Seq<char>, v: SemVerValue)
    requires
        semver_parse(normalised(without_prefix(sop_version, seq!['v']))) == Ok::<
            SemVerValue,
            Seq<char>,
        >(v),
        !precedes(v, release(0, 1, 0)),
    ensures
        go_compat_of(sop_version) == Some(GoCompat { min: "1.21", max: None }),
{
    assert(rules().last().applies_to(v));
}

/// The text that is handed to the parser for a `go` version: two
/// dot-separated pieces get `.0`, three are taken as they are, any other
/// count is no `go` version.
pub open spec fn go_version_text(version: Seq<char>) -> Option<Seq<char>> {
    let n = split_on(version, '.').len();
    if n == 2 {
        Some(version + ".0"@)
    } else if n == 3 {
        Some(version)
    } else {
        None
    }
}

/// A `go` version text as a parsed version, or the message that says why it is none.
pub open spec fn go_version_of(version: Seq<char>) -> Result<SemVerValue, Seq<char>> {
    match go_version_text(version) {
        None => Err("Invalid go version format: "@ + version),
        Some(text) => match semver_parse(text) {
            Ok(v) => Ok(v),
            Err(e) => Err("Failed to parse version '"@ + version + "': "@ + e),
        },
    }
}

/// Parses a `go` version such as `1.22` or `1.22.0`.
pub fn parse_go_version(version: &str) -> (r: Result<SemVer, String>)
    ensures
        match r {
            Ok(v) => go_version_of(version@) == Ok::<SemVerValue, Seq<char>>(v@),
            Err(e) => go_version_of(version@) == Err::<SemVerValue, Seq<char>>(e@),
        },
{
    let parts = split(version, '.');
    assert(texts(parts@).len() == parts@.len());
    let text = if parts.len() == 2 {
        joined(version, ".0")
    } else if parts.len() == 3 {
        version.to_owned()
    } else {
        return Err(joined("Invalid go version format: ", version));
    };
    match parse_semver(text.as_str()) {
        Ok(v) => Ok(v),
        Err(e) => {
            let mut message = joined("Failed to parse version '", version);
            message.append("': ");
            message.append(e.as_str());
            Err(message)
        },
    }
}

/// Whether `go` lies between `min` and `max`, both included; without a
/// `max` the range is open above.
pub open spec fn in_range(go: SemVerValue, min: SemVerValue, max: Option<SemVerValue>) -> bool {
    !precedes(go, min) && match max {
        Some(m) => !precedes(m, go),
        None => true,
    }
}

/// Whether the three numbers of `a` do not come after those of `b`.
pub open spec fn numbers_within(a: SemVerValue, b: SemVerValue) -> bool {
    numbers_precede(a, b) || a == b
}

/// Whether `r` is the answer that the three numbers call for, where they
/// decide: `go` is outside if its numbers come before those of `min` or
/// after those of `max`, and inside if they lie between the two, the bounds
/// themselves included.
pub open spec fn range_by_numbers(
    go: SemVerValue,
    min: SemVerValue,
    max: Option<SemVerValue>,
    r: bool,
) -> bool {
    &&& numbers_precede(go, min) ==> !r
    &&& max is None && numbers_within(min, go) ==> r
    &&& max matches Some(m) ==> (numbers_precede(m, go) ==> !r)
    &&& max matches Some(m) ==> (numbers_within(min, go) && numbers_within(go, m) ==> r)
}

/// The value of an optional version.
pub open spec fn opt_version(v: Option<&SemVer>) -> Option<SemVerValue> {
    match v {
        Some(m) => Some(m@),
        None => None,
    }
}

/// Tests a parsed `go` version against parsed bounds.
pub fn within_range(go: &SemVer, min: &SemVer, max: Option<&SemVer>) -> (r: bool)
    ensures
        r == in_range(go@, min@, opt_version(max)),
        range_by_numbers(go@, min@, opt_version(max), r),
{
    if comes_before(go, min) {
        return false;
    }
    match max {
        Some(m) => !comes_before(m, go),
        None => true,
    }
}

/// Whether `go_version` meets the requirement of `sop_version`. A `sop`
/// version without a known requirement runs on every `go`, whatever
/// `go_version` holds. Otherwise `go_version` and the bounds of the rule are
/// parsed in that order, and the first text that fails gives the error.
pub open spec fn go_compatible_of(go_version: Seq<char>, sop_version: Seq<char>) -> Result<
    bool,
    Seq<char>,
> {
    match go_compat_of(sop_version) {
        None => Ok(true),
        Some(range) => match go_version_of(go_version) {
            Err(e) => Err(e),
            Ok(go) => match go_version_of(range.min@) {
                Err(e) => Err(e),
                Ok(min) => if precedes(go, min) {
                    Ok(false)
                } else {
                    match range.max {
                        None => Ok(true),
                        Some(m) => match go_version_of(m@) {
                            Err(e) => Err(e),
                            Ok(max) => Ok(!precedes(max, go)),
                        },
                    }
                },
            },
        },
    }
}

/// Whether `r` is the answer that the three numbers call for, where the
/// `go` version and the bounds of the range all parse: then `r` is an
/// answer, and the one that [`range_by_numbers`] describes.
pub open spec fn compatible_by_numbers(
    go_version: Seq<char>,
    range: GoCompat,
    r: Result<bool, String>,
) -> bool {
    match (go_version_of(go_version), go_version_of(range.min@)) {
        (Ok(go), Ok(min)) => match range.max {
            None => r matches Ok(b) && range_by_numbers(go, min, None, b),
            Some(m) => match go_version_of(m@) {
                Ok(max) => r matches Ok(b) && range_by_numbers(go, min, Some(max), b),
                Err(_) => true,
            },
        },
        _ => true,
    }
}

/// Checks whether a `go` version satisfies the requirement of a `sop` version.
pub fn is_go_compatible(go_version: &str, sop_version: &str) -> (r: Result<bool, String>)
    ensures
        match r {
            Ok(b) => go_compatible_of(go_version@, sop_version@) == Ok::<bool, Seq<char>>(b),
            Err(e) => go_compatible_of(go_version@, sop_version@) == Err::<bool, Seq<char>>(e@),
        },
        go_compat_of(sop_version@) matches Some(range) ==> compatible_by_numbers(
            go_version@,
            range,
            r,
        ),
{
    let range = match go_compat(sop_version) {
        Some(range) => range,
        None => { return Ok(true); },
    };
    let go = match parse_go_version(go_version) {
        Ok(v) => v,
        Err(e) => { return Err(e); },
    };
    let min = match parse_go_version(range.min) {
        Ok(v) => v,
        Err(e) => { return Err(e); },
    };
    match range.max {
        None => Ok(within_range(&go, &min, None)),
        Some(m) => {
            if comes_before(&go, &min) {
                return Ok(false);
            }
            match parse_go_version(m) {
                Ok(max) => Ok(within_range(&go, &min, Some(&max))),
                Err(e) => Err(e),
            }
        },
    }
}

/// The sentence that states the requirement of a `sop` version.
pub open spec fn compat_message_of(sop_version: Seq<char>) -> Seq<char> {
    match go_compat_of(sop_version) {
        Some(range) => match range.max {
            Some(max) => "sop "@ + sop_version + " requires go "@ + range.min@ + " to "@ + max@,
            None => "sop "@ + sop_version + " requires go "@ + range.min@ + " or later"@,
        },
        None => "sop "@ + sop_version + " has unknown go requirements"@,
    }
}

/// A human-readable statement of what `go` a `sop` version needs.
pub fn compat_message(sop_version: &str) -> (r: String)
    ensures
        r@ == compat_message_of(sop_version@),
{
    let mut message = joined("sop ", sop_version);
    match go_compat(sop_version) {
        Some(range) => {
            message.append(" requires go ");
            message.append(range.min);
            match range.max {
                Some(max) => {
                    message.append(" to ");
                    message.append(max);
                },
                None => {
                    message.append(" or later");
                },
            }
        },
        None => {
            message.append(" has unknown go requirements");
        },
    }
    message
}

} // verus!
