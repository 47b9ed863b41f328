//! The source dispatcher's decisions: which endpoint a source selects, and
//! how an HTTP outcome is accepted or turned into a fetch error. The
//! transport itself is the caller's: it performs the one request that
//! `endpoint` names and hands the outcome back.

use vstd::prelude::*;
use vstd::string::StringExecFns;

use crate::model::CheckError;
use crate::model::SourceKind;
use crate::urls::forge_endpoint;
use crate::urls::forge_endpoint_spec;
use crate::urls::registry_endpoint;
use crate::urls::registry_endpoint_spec;
use crate::urls::self_hosted_endpoint;
use crate::urls::self_hosted_endpoint_spec;

verus! {

/// A user identifier for forge repositories.
pub type User = String;

/// The fixed identifying client header every outbound request carries.
pub const USER_AGENT: &'static str = "update-available-lib";

/// Represents the source from which to check for updates.
pub enum Source {
    /// Check for updates on crates.io.
    CratesIo,
    /// Check for updates on GitHub for a specific user.
    Github(User),
    /// Check for updates on Gitea for a specific user and Gitea URL.
    Gitea(User, String),
}

/// A pending update check: the package or repository name, which is never
/// empty, and the version the caller currently has. Whether the version
/// text is a valid semantic version is only decided at resolution time.
pub struct UpdateAvailable {
    pub name: String,
    pub current_version: String,
}

impl UpdateAvailable {
    /// Creates a new `UpdateAvailable` instance holding the given name and
    /// current version, exactly as passed. The name must not be empty; no
    /// lookup exists for a nameless package.
    pub fn new(name: &str, current_version: &str) -> (r: Self)
        requires
            name@.len() > 0,
        ensures
            r.name@ == name@,
            r.current_version@ == current_version@,
    {
        UpdateAvailable { name: name.to_owned(), current_version: current_version.to_owned() }
    }
}

impl Source {
    /// The endpoint this source selects for a package name.
    pub open spec fn endpoint_spec(self, name: Seq<char>) -> Seq<char> {
        match self {
            Source::CratesIo => registry_endpoint_spec(name),
            Source::Github(user) => forge_endpoint_spec(user@, name),
            Source::Gitea(user, base) => self_hosted_endpoint_spec(base@, user@, name),
        }
    }

    /// The kind of source this is, for tagging errors.
    pub open spec fn kind_spec(self) -> SourceKind {
        match self {
            Source::CratesIo => SourceKind::Registry,
            Source::Github(_) => SourceKind::Forge,
            Source::Gitea(_, _) => SourceKind::SelfHostedForge,
        }
    }

    /// Builds the one endpoint this source queries for `name`: the variant
    /// fully determines the endpoint template.
    pub fn endpoint(&self, name: &str) -> (r: String)
        ensures
            r@ == self.endpoint_spec(name@),
    {
        match self {
            Source::CratesIo => registry_endpoint(name),
            Source::Github(user) => forge_endpoint(user.as_str(), name),
            Source::Gitea(user, base) => self_hosted_endpoint(base.as_str(), user.as_str(), name),
        }
    }

    /// The kind of source this is.
    pub fn kind(&self) -> (r: SourceKind)
        ensures
            r == self.kind_spec(),
    {
        match self {
            Source::CratesIo => SourceKind::Registry,
            Source::Github(_) => SourceKind::Forge,
            Source::Gitea(_, _) => SourceKind::SelfHostedForge,
        }
    }
}

/// A status in the 2xx range: the only answers whose bodies are consumed.
pub open spec fn is_success_status(status: u16) -> bool {
    200 <= status < 300
}

/// The fixed text a non-2xx answer from this kind of source is reported
/// with; the numeric status travels beside it.
pub open spec fn fetch_failure_message_spec(kind: SourceKind) -> Seq<char> {
    match kind {
        SourceKind::Registry => "failed to fetch data from crates.io"@,
        SourceKind::Forge => "failed to fetch data from GitHub"@,
        SourceKind::SelfHostedForge => "failed to fetch data from Gitea"@,
    }
}

fn fetch_failure_message(kind: SourceKind) -> (r: String)
    ensures
        r@ == fetch_failure_message_spec(kind),
{
    match kind {
        SourceKind::Registry => String::from_str("failed to fetch data from crates.io"),
        SourceKind::Forge => String::from_str("failed to fetch data from GitHub"),
        SourceKind::SelfHostedForge => String::from_str("failed to fetch data from Gitea"),
    }
}

/// Gates an HTTP answer: a 2xx status is accepted and the body may be
/// consumed; any other status is a fetch error carrying this source kind
/// and that exact status, never an answer.
pub fn accept_status(kind: SourceKind, status: u16) -> (r: Result<(), CheckError>)
    ensures
        r is Ok <==> is_success_status(status),
        !is_success_status(status) ==> ({
            &&& r matches Err(e)
            &&& e matches CheckError::Fetch { kind: k, status: st, message } && k == kind && st
                == Some(status) && message@ == fetch_failure_message_spec(kind)
        }),
{
    if 200 <= status && status < 300 {
        Ok(())
    } else {
        Err(
            CheckError::Fetch {
                kind,
                status: Some(status),
                message: fetch_failure_message(kind),
            },
        )
    }
}

} // verus!
