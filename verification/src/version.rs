//! Semantic versions and the "is newer" ordering that decides whether an
//! update is available.

use vstd::prelude::*;

verus! {

/// The three numeric components of a semantic version.
///
/// Only these three components take part in the "is newer" decision;
/// pre-release and build metadata never do.
#[derive(Clone, Copy, Debug, PartialEq, Eq, Structural)]
pub struct VersionCore {
    pub major: u64,
    pub minor: u64,
    pub patch: u64,
}

/// A parsed semantic version: the numeric core plus the exact text it was
/// parsed from, kept for display.
#[derive(Debug)]
pub struct SemVer {
    pub core: VersionCore,
    pub text: String,
}

/// What `semver::Version::parse` makes of a string: `None` where the string
/// is not valid semantic-version syntax, otherwise the three numeric
/// components. The result is a function of the characters alone.
pub uninterp spec fn parsed_version(s: Seq<char>) -> Option<VersionCore>;

/// Relies on `semver::Version::parse`: it accepts exactly the strings of the
/// `major.minor.patch[-pre][+build]` grammar and yields the three numeric
/// components.
#[verifier::external_body]
fn parse_version_core(s: &str) -> (r: Option<VersionCore>)
    ensures
        r == parsed_version(s@),
{
    match semver::Version::parse(s) {
        Ok(v) => Some(VersionCore { major: v.major, minor: v.minor, patch: v.patch }),
        Err(_) => None,
    }
}

impl SemVer {
    /// Parses `s` as a semantic version. The version's display text is `s`
    /// itself, which the strict grammar already keeps in canonical form.
    pub fn parse(s: &str) -> (r: Option<SemVer>)
        ensures
            match r {
                Some(v) => parsed_version(s@) == Some(v.core) && v.text@ == s@,
                None => parsed_version(s@) is None,
            },
    {
        match parse_version_core(s) {
            Some(core) => Some(SemVer { core, text: s.to_owned() }),
            None => None,
        }
    }
}

/// `a` is strictly newer than `b`: lexicographic order on the
/// `(major, minor, patch)` triples.
pub open spec fn version_newer(a: VersionCore, b: VersionCore) -> bool {
    ||| a.major > b.major
    ||| (a.major == b.major && a.minor > b.minor)
    ||| (a.major == b.major && a.minor == b.minor && a.patch > b.patch)
}

/// `a` is strictly newer than `b`, as a relation on whole versions.
/// It reads nothing but the numeric cores.
pub open spec fn semver_newer(a: SemVer, b: SemVer) -> bool {
    version_newer(a.core, b.core)
}

/// Decides whether `latest` is strictly newer than `current` by comparing
/// the `(major, minor, patch)` triples lexicographically.
pub fn is_newer_than(latest: &SemVer, current: &SemVer) -> (r: bool)
    ensures
        r == semver_newer(*latest, *current),
{
    let a = &latest.core;
    let b = &current.core;
    a.major > b.major || (a.major == b.major && (a.minor > b.minor || (a.minor == b.minor
        && a.patch > b.patch)))
}

/// The "is newer" relation depends on the numeric cores alone: two pairs of
/// versions with equal cores compare the same way, whatever their texts
/// (and so whatever pre-release or build metadata those texts carry).
pub proof fn lemma_newer_ignores_metadata(a: SemVer, b: SemVer, c: SemVer, d: SemVer)
    requires
        a.core == c.core,
        b.core == d.core,
    ensures
        semver_newer(a, b) == semver_newer(c, d),
{
}

} // verus!
