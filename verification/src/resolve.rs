//! The version resolver: turns a source-specific response plus the caller's
//! current version string into a normalized `UpdateInfo`.

use vstd::prelude::*;
use vstd::string::StrSliceExecFns;

use crate::model::CheckError;
use crate::model::ForgeResponse;
use crate::model::RegistryResponse;
use crate::model::UpdateInfo;
use crate::model::VersionSide;
use crate::urls::registry_package_url;
use crate::urls::registry_package_url_spec;
use crate::version::SemVer;
use crate::version::parsed_version;
use crate::version::version_newer;

verus! {

/// A forge tag with exactly one leading `v` removed, if one is present.
pub open spec fn strip_leading_v_spec(s: Seq<char>) -> Seq<char> {
    if s.len() > 0 && s[0] == 'v' {
        s.skip(1)
    } else {
        s
    }
}

/// Removes exactly one leading `v` from a forge tag, if one is present:
/// `"v1.2.3"` becomes `"1.2.3"`, `"1.2.3"` is left unchanged, and a tag of
/// literally `"v"` becomes the empty string.
pub fn strip_leading_v(tag: &str) -> (r: &str)
    ensures
        r@ == strip_leading_v_spec(tag@),
{
    let n = tag.unicode_len();
    if n > 0 && tag.get_char(0) == 'v' {
        tag.substring_char(1, n)
    } else {
        tag
    }
}

/// Stripping is idempotent on tags that carry no leading `v`: it leaves
/// them exactly as they are, so applying it to its own result changes
/// nothing further.
pub proof fn lemma_strip_leading_v_unprefixed(s: Seq<char>)
    requires
        s.len() == 0 || s[0] != 'v',
    ensures
        strip_leading_v_spec(s) == s,
{
}

/// Resolves a registry response against the caller's current version
/// string. The latest version comes parsed out of the response; only the
/// current side can fail to parse. On success the changelog is always
/// absent (the registry format carries no release notes) and the URL is
/// the registry's package page for the response's name.
pub fn resolve_from_registry(response: RegistryResponse, current_version: &str) -> (r: Result<
    UpdateInfo,
    CheckError,
>)
    ensures
        match r {
            Ok(info) => {
                &&& parsed_version(current_version@) is Some
                &&& info.is_update_available == version_newer(
                    response.max_version.core,
                    parsed_version(current_version@)->Some_0,
                )
                &&& info.latest_version == response.max_version
                &&& info.changelog is None
                &&& info.url@ == registry_package_url_spec(response.name@)
            },
            Err(e) => {
                &&& parsed_version(current_version@) is None
                &&& e matches CheckError::VersionParse { side, raw } && side
                    == VersionSide::Current && raw@ == current_version@
            },
        },
{
    let current = match SemVer::parse(current_version) {
        Some(v) => v,
        None => {
            return Err(
                CheckError::VersionParse {
                    side: VersionSide::Current,
                    raw: current_version.to_owned(),
                },
            );
        },
    };
    let url = registry_package_url(response.name.as_str());
    Ok(UpdateInfo::new(response.max_version, &current, None, url))
}

/// Resolves a forge response against the caller's current version string.
/// The release tag is first normalized by stripping one leading `v`; the
/// normalized tag and the current version must then both parse, the tag
/// being tried first. On success the changelog is the response's body as
/// is, the URL its web page as is.
pub fn resolve_from_forge(response: ForgeResponse, current_version: &str) -> (r: Result<
    UpdateInfo,
    CheckError,
>)
    ensures
        ({
            let tag = strip_leading_v_spec(response.tag_name@);
            match r {
                Ok(info) => {
                    &&& parsed_version(tag) is Some
                    &&& parsed_version(current_version@) is Some
                    &&& info.is_update_available == version_newer(
                        parsed_version(tag)->Some_0,
                        parsed_version(current_version@)->Some_0,
                    )
                    &&& info.latest_version.core == parsed_version(tag)->Some_0
                    &&& info.latest_version.text@ == tag
                    &&& info.changelog == response.body
                    &&& info.url == response.html_url
                },
                Err(e) => {
                    ||| ({
                        &&& parsed_version(tag) is None
                        &&& e matches CheckError::VersionParse { side, raw } && side
                            == VersionSide::Latest && raw@ == tag
                    })
                    ||| ({
                        &&& parsed_version(tag) is Some
                        &&& parsed_version(current_version@) is None
                        &&& e matches CheckError::VersionParse { side, raw } && side
                            == VersionSide::Current && raw@ == current_version@
                    })
                },
            }
        }),
{
    let normalized = strip_leading_v(response.tag_name.as_str());
    let latest = match SemVer::parse(normalized) {
        Some(v) => v,
        None => {
            return Err(
                CheckError::VersionParse { side: VersionSide::Latest, raw: normalized.to_owned() },
            );
        },
    };
    let current = match SemVer::parse(current_version) {
        Some(v) => v,
        None => {
            return Err(
                CheckError::VersionParse {
                    side: VersionSide::Current,
                    raw: current_version.to_owned(),
                },
            );
        },
    };
    Ok(UpdateInfo::new(latest, &current, response.body, response.html_url))
}

} // verus!
