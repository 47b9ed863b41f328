//! The upstream response shapes, the errors a check can fail with, and the
//! normalized answer every check produces.

use vstd::prelude::*;

use crate::version::SemVer;
use crate::version::semver_newer;
use crate::version::is_newer_than;

verus! {

/// A registry's answer to a package lookup: the highest published version
/// and the package's name.
pub struct RegistryResponse {
    pub max_version: SemVer,
    pub name: String,
}

/// A forge's "latest release" answer, shared by GitHub- and Gitea-style
/// APIs: the release tag (possibly carrying a leading `v`), the optional
/// release notes, and the release's web page.
pub struct ForgeResponse {
    pub tag_name: String,
    pub body: Option<String>,
    pub html_url: String,
}

/// Which kind of update source an operation spoke to.
#[derive(Clone, Copy, Debug, PartialEq, Eq, Structural)]
pub enum SourceKind {
    Registry,
    Forge,
    SelfHostedForge,
}

/// Which side of the version comparison a string came from.
#[derive(Clone, Copy, Debug, PartialEq, Eq, Structural)]
pub enum VersionSide {
    Current,
    Latest,
}

/// Why a check failed. Every failure surfaces to the caller; no partial
/// answer is ever produced.
#[derive(Debug, PartialEq)]
pub enum CheckError {
    /// A version string is not valid semantic-version syntax. `raw` is the
    /// string that failed.
    VersionParse { side: VersionSide, raw: String },
    /// The transport failed (`status` is `None`) or the upstream answered
    /// with a non-2xx status (`status` carries it).
    Fetch { kind: SourceKind, status: Option<u16>, message: String },
    /// The response body does not match the expected shape for the source.
    Deserialization { kind: SourceKind, message: String },
}

/// The normalized answer of a check, immutable once built.
#[derive(Debug)]
pub struct UpdateInfo {
    /// Whether a newer version is available than the current one. This is
    /// the sole function of comparing `latest_version` against the current
    /// version by `(major, minor, patch)` order; no other field plays a part.
    pub is_update_available: bool,
    /// The latest available version.
    pub latest_version: SemVer,
    /// Optional changelog or release notes for the latest version.
    pub changelog: Option<String>,
    /// URL where more information can be found.
    pub url: String,
}

impl UpdateInfo {
    /// Builds the answer: `is_update_available` holds exactly when
    /// `latest_version` is strictly newer than `current_version` by the
    /// `(major, minor, patch)` ordering; every other field is carried
    /// through unchanged.
    pub fn new(
        latest_version: SemVer,
        current_version: &SemVer,
        changelog: Option<String>,
        url: String,
    ) -> (r: Self)
        ensures
            r.is_update_available == semver_newer(latest_version, *current_version),
            r.latest_version == latest_version,
            r.changelog == changelog,
            r.url == url,
    {
        let is_update_available = is_newer_than(&latest_version, current_version);
        UpdateInfo { is_update_available, latest_version, changelog, url }
    }
}

} // verus!
