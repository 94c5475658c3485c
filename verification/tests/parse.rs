use cargox::errors::Error;
use cargox::paths::choose_install_dir;
use cargox::target::{make_target, parse_spec, VersionSpec};

#[test]
fn parse_spec_without_version_is_unspecified() {
    let (name, vs) = parse_spec("mycrate").unwrap();
    assert_eq!(name, "mycrate");
    assert!(matches!(vs, VersionSpec::Unspecified));
}

#[test]
fn parse_spec_with_empty_version_is_unspecified() {
    let (name, vs) = parse_spec("mycrate@").unwrap();
    assert_eq!(name, "mycrate");
    assert!(matches!(vs, VersionSpec::Unspecified));
}

#[test]
fn parse_spec_latest_token_is_latest() {
    let (name, vs) = parse_spec("mycrate@latest").unwrap();
    assert_eq!(name, "mycrate");
    assert!(matches!(vs, VersionSpec::Latest));
}

#[test]
fn parse_spec_uppercase_latest_is_not_latest() {
    assert!(parse_spec("mycrate@LATEST").is_err());
}

#[test]
fn parse_spec_requirement_is_kept() {
    let (name, vs) = parse_spec("mycrate@^1.0").unwrap();
    assert_eq!(name, "mycrate");
    match vs {
        VersionSpec::Requirement(text) => assert_eq!(text, "^1.0"),
        _ => panic!("expected a requirement"),
    }
}

#[test]
fn parse_spec_splits_at_first_at_sign() {
    let (name, vs) = parse_spec("my@1.0").unwrap();
    assert_eq!(name, "my");
    assert!(matches!(vs, VersionSpec::Requirement(_)));
}

#[test]
fn parse_spec_rejects_malformed_requirement() {
    match parse_spec("mycrate@not a requirement") {
        Err(Error::InvalidVersionSpec { spec_text }) => {
            assert_eq!(spec_text, "not a requirement");
        }
        other => panic!("expected InvalidVersionSpec, got {:?}", other),
    }
}

#[test]
fn make_target_defaults_binary_to_crate_name() {
    let t = make_target("mycrate".to_string(), VersionSpec::Unspecified, None);
    assert_eq!(t.binary, "mycrate");
    let t = make_target(
        "mycrate".to_string(),
        VersionSpec::Unspecified,
        Some("foo".to_string()),
    );
    assert_eq!(t.binary, "foo");
}

#[test]
fn install_dir_priority_is_override_platform_home() {
    let chosen = choose_install_dir(
        Some("/override".to_string()),
        Some("/data".to_string()),
        Some("/home/user".to_string()),
    );
    assert_eq!(chosen.unwrap(), "/override");
    let chosen = choose_install_dir(None, Some("/data".to_string()), Some("/home/user".to_string()));
    assert_eq!(chosen.unwrap(), "/data");
    let chosen = choose_install_dir(None, None, Some("/home/user".to_string()));
    assert_eq!(chosen.unwrap(), "/home/user/.local/share/cargox");
    assert!(choose_install_dir(None, None, None).is_none());
}
