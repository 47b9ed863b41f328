//! The endpoint templates of the three update sources and the registry's
//! package page, as exact functions of the caller's inputs.

use vstd::prelude::*;
use vstd::string::StringExecFns;

verus! {

/// The registry lookup endpoint for a package name.
pub open spec fn registry_endpoint_spec(name: Seq<char>) -> Seq<char> {
    "https://crates.io/api/v1/crates/"@ + name
}

/// The hosted forge's "latest release" endpoint for an owner and repository.
pub open spec fn forge_endpoint_spec(owner: Seq<char>, name: Seq<char>) -> Seq<char> {
    "https://api.github.com/repos/"@ + owner + "/"@ + name + "/releases/latest"@
}

/// A self-hosted forge's "latest release" endpoint. The base URL is used
/// verbatim; the caller is responsible for a well-formed base.
pub open spec fn self_hosted_endpoint_spec(
    base: Seq<char>,
    owner: Seq<char>,
    name: Seq<char>,
) -> Seq<char> {
    base + "/api/v1/repos/"@ + owner + "/"@ + name + "/releases/latest"@
}

/// The registry's canonical package page for a name.
pub open spec fn registry_package_url_spec(name: Seq<char>) -> Seq<char> {
    "https://crates.io/crates/"@ + name
}

/// Builds the registry lookup endpoint.
pub fn registry_endpoint(name: &str) -> (r: String)
    ensures
        r@ == registry_endpoint_spec(name@),
{
    let mut u = String::from_str("https://crates.io/api/v1/crates/");
    u.append(name);
    u
}

/// Builds the hosted forge's "latest release" endpoint.
pub fn forge_endpoint(owner: &str, name: &str) -> (r: String)
    ensures
        r@ == forge_endpoint_spec(owner@, name@),
{
    let mut u = String::from_str("https://api.github.com/repos/");
    u.append(owner);
    u.append("/");
    u.append(name);
    u.append("/releases/latest");
    u
}

/// Builds a self-hosted forge's "latest release" endpoint.
pub fn self_hosted_endpoint(base: &str, owner: &str, name: &str) -> (r: String)
    ensures
        r@ == self_hosted_endpoint_spec(base@, owner@, name@),
{
    let mut u = String::from_str(base);
    u.append("/api/v1/repos/");
    u.append(owner);
    u.append("/");
    u.append(name);
    u.append("/releases/latest");
    u
}

/// Builds the registry's canonical package page URL.
pub fn registry_package_url(name: &str) -> (r: String)
    ensures
        r@ == registry_package_url_spec(name@),
{
    let mut u = String::from_str("https://crates.io/crates/");
    u.append(name);
    u
}

} // verus!
