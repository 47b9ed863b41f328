//! Checks whether a newer version of a package or repository is available.
//!
//! Callers name a package and the version they currently have, pick a source
//! (the crates.io registry, GitHub, or a self-hosted Gitea instance), and get
//! back an [`UpdateInfo`]: whether an update exists, the latest version, the
//! release notes if any, and a URL with more information.

mod dispatch;
mod model;
mod render;
mod resolve;
mod urls;
mod version;

pub use dispatch::Source;
pub use dispatch::USER_AGENT;
pub use dispatch::UpdateAvailable;
pub use dispatch::User;
pub use dispatch::accept_status;
pub use dispatch::fetch_failure_message_spec;
pub use dispatch::is_success_status;
pub use model::CheckError;
pub use model::ForgeResponse;
pub use model::RegistryResponse;
pub use model::SourceKind;
pub use model::UpdateInfo;
pub use model::VersionSide;
pub use render::MAX_SHOWN_LINES;
pub use render::bullet_content;
pub use render::bullet_line;
pub use render::changelog_section_spec;
pub use render::drop_cr;
pub use render::first_newline;
pub use render::is_blank;
pub use render::is_header;
pub use render::is_marker;
pub use render::is_space_char;
pub use render::keeps;
pub use render::lemma_changelog_shows_all;
pub use render::lemma_changelog_truncation;
pub use render::lemma_render_no_update;
pub use render::qualifying_lines;
pub use render::render_spec;
pub use render::split_lines;
pub use resolve::lemma_strip_leading_v_unprefixed;
pub use resolve::resolve_from_forge;
pub use resolve::resolve_from_registry;
pub use resolve::strip_leading_v;
pub use resolve::strip_leading_v_spec;
pub use urls::forge_endpoint;
pub use urls::forge_endpoint_spec;
pub use urls::registry_endpoint;
pub use urls::registry_endpoint_spec;
pub use urls::registry_package_url;
pub use urls::registry_package_url_spec;
pub use urls::self_hosted_endpoint;
pub use urls::self_hosted_endpoint_spec;
pub use version::SemVer;
pub use version::VersionCore;
pub use version::is_newer_than;
pub use version::lemma_newer_ignores_metadata;
pub use version::parsed_version;
pub use version::semver_newer;
pub use version::version_newer;
