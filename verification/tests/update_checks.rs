use update_available::CheckError;
use update_available::ForgeResponse;
use update_available::RegistryResponse;
use update_available::SemVer;
use update_available::Source;
use update_available::SourceKind;
use update_available::UpdateAvailable;
use update_available::UpdateInfo;
use update_available::VersionSide;
use update_available::accept_status;
use update_available::forge_endpoint;
use update_available::registry_endpoint;
use update_available::registry_package_url;
use update_available::resolve_from_forge;
use update_available::resolve_from_registry;
use update_available::self_hosted_endpoint;
use update_available::strip_leading_v;

#[test]
fn display_update_available() {
    let latest_version = SemVer::parse("1.2.3").unwrap();
    let update = UpdateInfo {
        is_update_available: true,
        latest_version,
        changelog: Some("Added new features and fixed bugs.".into()),
        url: String::from("https://crates.io/crates/serde"),
    };
    for line in update.render_lines() {
        println!("{}", line);
    }
}

#[test]
fn display_no_update() {
    let latest_version = SemVer::parse("1.2.3").unwrap();
    let update = UpdateInfo {
        is_update_available: false,
        latest_version,
        changelog: None,
        url: String::new(),
    };
    for line in update.render_lines() {
        println!("{}", line);
    }
}

#[test]
fn parse_yields_numeric_components() {
    let v = SemVer::parse("1.2.3").unwrap();
    assert_eq!(v.core.major, 1);
    assert_eq!(v.core.minor, 2);
    assert_eq!(v.core.patch, 3);
    assert_eq!(v.text, "1.2.3");
}

#[test]
fn parse_rejects_bad_versions() {
    assert!(SemVer::parse("").is_none());
    assert!(SemVer::parse("not-a-version").is_none());
    assert!(SemVer::parse("1.2").is_none());
    assert!(SemVer::parse("1.2.x").is_none());
}

#[test]
fn newer_than_orders_triples_lexicographically() {
    let v = |s: &str| SemVer::parse(s).unwrap();
    assert!(update_available::is_newer_than(&v("2.0.0"), &v("1.9.9")));
    assert!(update_available::is_newer_than(&v("1.3.0"), &v("1.2.9")));
    assert!(update_available::is_newer_than(&v("1.2.4"), &v("1.2.3")));
    assert!(!update_available::is_newer_than(&v("1.2.3"), &v("1.2.3")));
    assert!(!update_available::is_newer_than(&v("1.2.3"), &v("1.2.4")));
}

#[test]
fn newer_than_ignores_prerelease_and_build() {
    let v = |s: &str| SemVer::parse(s).unwrap();
    // An equal (major, minor, patch) triple is never an update, whatever
    // pre-release or build metadata either side carries.
    assert!(!update_available::is_newer_than(&v("1.2.3-beta.1"), &v("1.2.3")));
    assert!(!update_available::is_newer_than(&v("1.2.3+build.5"), &v("1.2.3-alpha")));
    assert!(update_available::is_newer_than(&v("1.2.4-alpha"), &v("1.2.3+build")));
}

#[test]
fn strip_leading_v_cases() {
    assert_eq!(strip_leading_v("1.2.3"), "1.2.3");
    assert_eq!(strip_leading_v("v1.2.3"), "1.2.3");
    assert_eq!(strip_leading_v("v"), "");
    assert_eq!(strip_leading_v(""), "");
    assert_eq!(strip_leading_v("vv1.2.3"), "v1.2.3");
}

#[test]
fn bare_v_tag_is_a_parse_error_not_a_crash() {
    let response = ForgeResponse {
        tag_name: String::from("v"),
        body: None,
        html_url: String::from("https://example/releases"),
    };
    let err = resolve_from_forge(response, "1.0.0").unwrap_err();
    assert_eq!(err, CheckError::VersionParse { side: VersionSide::Latest, raw: String::new() });
}

#[test]
fn registry_resolution_with_update() {
    let response = RegistryResponse {
        max_version: SemVer::parse("2.0.0").unwrap(),
        name: String::from("serde"),
    };
    let info = resolve_from_registry(response, "1.0.0").unwrap();
    assert!(info.is_update_available);
    assert_eq!(info.latest_version.core.major, 2);
    assert_eq!(info.latest_version.core.minor, 0);
    assert_eq!(info.latest_version.core.patch, 0);
    assert!(info.changelog.is_none());
    assert_eq!(info.url, "https://crates.io/crates/serde");
}

#[test]
fn forge_resolution_without_update() {
    let response = ForgeResponse {
        tag_name: String::from("v1.0.0"),
        body: None,
        html_url: String::from("https://example/releases/1.0.0"),
    };
    let info = resolve_from_forge(response, "1.0.0").unwrap();
    assert!(!info.is_update_available);
    assert_eq!(info.latest_version.text, "1.0.0");
    assert_eq!(info.url, "https://example/releases/1.0.0");
}

#[test]
fn forge_resolution_carries_changelog_through() {
    let response = ForgeResponse {
        tag_name: String::from("v2.1.0"),
        body: Some(String::from("- fixes")),
        html_url: String::from("https://example/releases/2.1.0"),
    };
    let info = resolve_from_forge(response, "2.0.0").unwrap();
    assert!(info.is_update_available);
    assert_eq!(info.changelog.as_deref(), Some("- fixes"));
}

#[test]
fn current_version_parse_error_names_the_current_side() {
    let registry = RegistryResponse {
        max_version: SemVer::parse("2.0.0").unwrap(),
        name: String::from("serde"),
    };
    let err = resolve_from_registry(registry, "not-a-version").unwrap_err();
    assert_eq!(
        err,
        CheckError::VersionParse {
            side: VersionSide::Current,
            raw: String::from("not-a-version"),
        }
    );
    let forge = ForgeResponse {
        tag_name: String::from("v1.0.0"),
        body: None,
        html_url: String::from("https://example/releases/1.0.0"),
    };
    let err = resolve_from_forge(forge, "not-a-version").unwrap_err();
    assert_eq!(
        err,
        CheckError::VersionParse {
            side: VersionSide::Current,
            raw: String::from("not-a-version"),
        }
    );
}

#[test]
fn http_404_is_a_fetch_error_with_that_status() {
    for kind in [SourceKind::Registry, SourceKind::Forge, SourceKind::SelfHostedForge] {
        let err = accept_status(kind, 404).unwrap_err();
        match err {
            CheckError::Fetch { kind: k, status, message } => {
                assert_eq!(k, kind);
                assert_eq!(status, Some(404));
                assert!(!message.is_empty());
            }
            other => panic!("expected a fetch error, got {:?}", other),
        }
    }
}

#[test]
fn success_statuses_pass_the_gate() {
    assert!(accept_status(SourceKind::Registry, 200).is_ok());
    assert!(accept_status(SourceKind::Registry, 299).is_ok());
    assert!(accept_status(SourceKind::Registry, 199).is_err());
    assert!(accept_status(SourceKind::Registry, 300).is_err());
    assert!(accept_status(SourceKind::Forge, 500).is_err());
}

#[test]
fn deserialization_error_is_its_own_kind() {
    let err = CheckError::Deserialization {
        kind: SourceKind::Registry,
        message: String::from("missing field"),
    };
    assert_ne!(
        err,
        CheckError::Fetch { kind: SourceKind::Registry, status: None, message: String::from("missing field") }
    );
}

#[test]
fn endpoints_follow_the_templates() {
    assert_eq!(registry_endpoint("serde"), "https://crates.io/api/v1/crates/serde");
    assert_eq!(
        forge_endpoint("bircni", "cargo-wash"),
        "https://api.github.com/repos/bircni/cargo-wash/releases/latest"
    );
    assert_eq!(
        self_hosted_endpoint("https://gitea.example.com", "user", "repo"),
        "https://gitea.example.com/api/v1/repos/user/repo/releases/latest"
    );
    assert_eq!(registry_package_url("serde"), "https://crates.io/crates/serde");
}

#[test]
fn source_selects_its_endpoint() {
    assert_eq!(
        Source::CratesIo.endpoint("serde"),
        "https://crates.io/api/v1/crates/serde"
    );
    assert_eq!(
        Source::Github(String::from("bircni")).endpoint("cargo-wash"),
        "https://api.github.com/repos/bircni/cargo-wash/releases/latest"
    );
    assert_eq!(
        Source::Gitea(String::from("user"), String::from("https://gitea.example.com"))
            .endpoint("repo"),
        "https://gitea.example.com/api/v1/repos/user/repo/releases/latest"
    );
    assert_eq!(Source::CratesIo.kind(), SourceKind::Registry);
    assert_eq!(Source::Github(String::new()).kind(), SourceKind::Forge);
    assert_eq!(Source::Gitea(String::new(), String::new()).kind(), SourceKind::SelfHostedForge);
}

#[test]
fn update_available_keeps_its_fields() {
    let check = UpdateAvailable::new("cargo-wash", "0.1.0");
    assert_eq!(check.name, "cargo-wash");
    assert_eq!(check.current_version, "0.1.0");
}

#[test]
fn no_update_renders_no_lines() {
    let update = UpdateInfo {
        is_update_available: false,
        latest_version: SemVer::parse("9.9.9").unwrap(),
        changelog: Some(String::from("- would be shown\n- if there were an update")),
        url: String::from("https://example"),
    };
    assert!(update.render_lines().is_empty());
}

#[test]
fn rendering_shows_banner_bullets_and_footer() {
    let update = UpdateInfo {
        is_update_available: true,
        latest_version: SemVer::parse("1.2.3").unwrap(),
        changelog: Some(String::from("## Heading\n\n- first fix\n* second fix\n• third fix\nplain note")),
        url: String::from("https://example/releases/1.2.3"),
    };
    let lines = update.render_lines();
    assert_eq!(
        lines,
        vec![
            String::from("🚀  A new version is available!"),
            String::from("🔖  Latest version: 1.2.3"),
            String::from("📝  Changelog:"),
            String::from("• first fix"),
            String::from("• second fix"),
            String::from("• third fix"),
            String::from("• plain note"),
            String::from("🌐  More info: https://example/releases/1.2.3"),
        ]
    );
}

#[test]
fn rendering_truncates_after_four_bullets() {
    let update = UpdateInfo {
        is_update_available: true,
        latest_version: SemVer::parse("2.0.0").unwrap(),
        changelog: Some(String::from("- one\n- two\n- three\n- four\n- five\n- six")),
        url: String::from("https://example"),
    };
    let lines = update.render_lines();
    assert_eq!(
        lines,
        vec![
            String::from("🚀  A new version is available!"),
            String::from("🔖  Latest version: 2.0.0"),
            String::from("📝  Changelog:"),
            String::from("• one"),
            String::from("• two"),
            String::from("• three"),
            String::from("• four"),
            String::from("• (and more...)"),
            String::from("🌐  More info: https://example"),
        ]
    );
}

#[test]
fn rendering_without_changelog_has_no_changelog_section() {
    let update = UpdateInfo {
        is_update_available: true,
        latest_version: SemVer::parse("1.0.1").unwrap(),
        changelog: None,
        url: String::from("https://crates.io/crates/serde"),
    };
    let lines = update.render_lines();
    assert_eq!(
        lines,
        vec![
            String::from("🚀  A new version is available!"),
            String::from("🔖  Latest version: 1.0.1"),
            String::from("🌐  More info: https://crates.io/crates/serde"),
        ]
    );
}

#[test]
fn user_agent_is_fixed() {
    assert_eq!(update_available::USER_AGENT, "update-available-lib");
}
