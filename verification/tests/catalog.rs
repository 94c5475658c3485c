use cargox::version::SemVer;
use cargox::versions::{
    find_installed_version, latest_installed, list_installed_versions, versioned_binary_name,
    versioned_binary_path,
};

fn sv(major: u64, minor: u64, patch: u64) -> SemVer {
    SemVer {
        major,
        minor,
        patch,
        pre: String::new(),
        build: String::new(),
    }
}

#[test]
fn versioned_binary_path_uses_version_suffix() {
    let version = sv(1, 2, 3);
    let path = versioned_binary_path("bin", "example", &version);
    assert_eq!(path, "bin/example-1.2.3");
    assert_eq!(versioned_binary_name("example", &version), "example-1.2.3");
}

#[test]
fn list_installed_versions_returns_sorted_versions() {
    let entries = vec!["tool-0.1.0".to_string(), "tool-0.2.0".to_string()];
    let versions = list_installed_versions("tool", "bin", &entries);
    assert_eq!(versions.len(), 2);
    assert_eq!(versions[0].version, sv(0, 1, 0));
    assert_eq!(versions[1].version, sv(0, 2, 0));
}

#[test]
fn list_installed_versions_sorts_unordered_entries() {
    let entries = vec![
        "tool-1.10.0".to_string(),
        "tool-0.2.0".to_string(),
        "tool-1.2.0".to_string(),
    ];
    let versions = list_installed_versions("tool", "bin", &entries);
    assert_eq!(versions.len(), 3);
    assert_eq!(versions[0].version, sv(0, 2, 0));
    assert_eq!(versions[1].version, sv(1, 2, 0));
    assert_eq!(versions[2].version, sv(1, 10, 0));
    assert_eq!(versions[2].path, "bin/tool-1.10.0");
}

#[test]
fn list_installed_versions_excludes_unparseable_suffixes() {
    let entries = vec![
        "tool-0.1.0".to_string(),
        "tool-abc".to_string(),
        "tool-1.0".to_string(),
        "tool".to_string(),
        "other-0.3.0".to_string(),
        "tool-01.2.3".to_string(),
    ];
    let versions = list_installed_versions("tool", "bin", &entries);
    assert_eq!(versions.len(), 1);
    assert_eq!(versions[0].version, sv(0, 1, 0));
    assert_eq!(versions[0].path, "bin/tool-0.1.0");
}

#[test]
fn list_installed_versions_includes_pre_release_builds() {
    let entries = vec![
        "tool-1.0.0".to_string(),
        "tool-1.0.0-alpha".to_string(),
        "tool-1.0.0-alpha.2".to_string(),
        "tool-0.9.0+nightly".to_string(),
    ];
    let versions = list_installed_versions("tool", "bin", &entries);
    assert_eq!(versions.len(), 4);
    // Full semver precedence: 0.9.0+nightly, then the 1.0.0 pre-releases in
    // identifier order, then the 1.0.0 release above them.
    assert_eq!(versions[0].path, "bin/tool-0.9.0+nightly");
    assert_eq!(versions[0].version.build, "nightly");
    assert_eq!(versions[1].version.pre, "alpha");
    assert_eq!(versions[2].version.pre, "alpha.2");
    assert_eq!(versions[3].version, sv(1, 0, 0));
}

#[test]
fn latest_installed_ranks_release_above_its_pre_releases() {
    let entries = vec![
        "tool-1.0.0-rc.1".to_string(),
        "tool-1.0.0".to_string(),
        "tool-1.0.0-beta".to_string(),
    ];
    let versions = list_installed_versions("tool", "bin", &entries);
    let latest = latest_installed(&versions).unwrap();
    assert_eq!(latest.version, sv(1, 0, 0));
    assert_eq!(latest.path, "bin/tool-1.0.0");
}

#[test]
fn find_installed_version_does_not_match_pre_release_against_plain_requirement() {
    let entries = vec!["util-1.2.0-alpha".to_string()];
    let versions = list_installed_versions("util", "bin", &entries);
    assert_eq!(versions.len(), 1);
    assert!(find_installed_version(&versions, "^1.0").is_none());
    let found = find_installed_version(&versions, ">=1.2.0-alpha").unwrap();
    assert_eq!(found.version.pre, "alpha");
}

#[test]
fn latest_installed_returns_highest_version() {
    let entries = vec![
        "tool-0.1.0".to_string(),
        "tool-2.0.0".to_string(),
        "tool-1.5.0".to_string(),
    ];
    let versions = list_installed_versions("tool", "bin", &entries);
    let latest = latest_installed(&versions).unwrap();
    assert_eq!(latest.version, sv(2, 0, 0));
    assert!(latest_installed(&Vec::new()).is_none());
}

#[test]
fn find_installed_version_respects_requirement() {
    let entries = vec!["util-1.0.0".to_string(), "util-1.5.0".to_string()];
    let versions = list_installed_versions("util", "bin", &entries);
    let result = find_installed_version(&versions, "^1.0").unwrap();
    assert_eq!(result.version, sv(1, 5, 0));
}

#[test]
fn find_installed_version_returns_none_without_match() {
    let entries = vec!["util-1.0.0".to_string(), "util-1.5.0".to_string()];
    let versions = list_installed_versions("util", "bin", &entries);
    assert!(find_installed_version(&versions, "^2.0").is_none());
    assert!(find_installed_version(&versions, "not a requirement").is_none());
}

#[test]
fn find_installed_version_prefers_newest_compatible() {
    let entries = vec![
        "util-1.0.0".to_string(),
        "util-1.5.0".to_string(),
        "util-2.0.0".to_string(),
    ];
    let versions = list_installed_versions("util", "bin", &entries);
    let result = find_installed_version(&versions, "^1.0").unwrap();
    assert_eq!(result.version, sv(1, 5, 0));
    let result = find_installed_version(&versions, ">=1.0").unwrap();
    assert_eq!(result.version, sv(2, 0, 0));
}
