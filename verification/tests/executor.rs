use cargox::errors::Error;
use cargox::executor::{
    check_canonical_containment, ensure_binary_within_dir, ensure_within_install_dir, InstallRoot,
};

#[test]
fn allows_binaries_inside_install_dir() {
    let temp = tempfile::tempdir().unwrap();
    let bin_dir = tempfile::tempdir_in(temp.path()).unwrap();
    let binary = tempfile::Builder::new()
        .prefix("tool")
        .tempfile_in(bin_dir.path())
        .unwrap();
    let result = ensure_binary_within_dir(
        binary.path().to_str().unwrap(),
        temp.path().to_str().unwrap(),
    );
    assert!(result.is_ok());
}

#[test]
fn rejects_binaries_outside_install_dir() {
    let temp = tempfile::tempdir().unwrap();
    let outside = tempfile::tempdir().unwrap();
    let binary = tempfile::Builder::new()
        .prefix("tool")
        .tempfile_in(outside.path())
        .unwrap();
    let result = ensure_binary_within_dir(
        binary.path().to_str().unwrap(),
        temp.path().to_str().unwrap(),
    );
    match result {
        Err(Error::PathEscape { .. }) => {}
        other => panic!("expected a path-escape refusal, got {:?}", other),
    }
}

#[test]
fn rejects_traversal_that_leaves_the_root() {
    let temp = tempfile::tempdir().unwrap();
    let outside = tempfile::tempdir().unwrap();
    let binary = tempfile::Builder::new()
        .prefix("tool")
        .tempfile_in(outside.path())
        .unwrap();
    // A candidate that starts under the root but climbs out of it before
    // reaching the target must be refused once canonicalized. The two
    // temporary directories are siblings, so one `..` crosses between them.
    let sneaky = format!(
        "{}/../{}/{}",
        temp.path().to_str().unwrap(),
        outside.path().file_name().unwrap().to_str().unwrap(),
        binary.path().file_name().unwrap().to_str().unwrap()
    );
    let root = InstallRoot {
        path: temp.path().to_str().unwrap().to_string(),
    };
    match ensure_within_install_dir(&sneaky, &root) {
        Err(Error::PathEscape { .. }) => {}
        other => panic!("expected a path-escape refusal, got {:?}", other),
    }
}

#[test]
fn missing_binary_is_an_execution_failure_not_an_escape() {
    let temp = tempfile::tempdir().unwrap();
    let missing = format!("{}/does-not-exist", temp.path().to_str().unwrap());
    match ensure_binary_within_dir(&missing, temp.path().to_str().unwrap()) {
        Err(Error::ExecutionFailed { .. }) => {}
        other => panic!("expected an execution failure, got {:?}", other),
    }
}

#[test]
fn containment_check_is_component_wise() {
    assert!(check_canonical_containment("/a/b/tool", "/a/b").is_ok());
    assert!(check_canonical_containment("/a/b", "/a/b").is_ok());
    assert!(check_canonical_containment("/a/bc/tool", "/a/b").is_err());
    assert!(check_canonical_containment("/other/tool", "/a/b").is_err());
    assert!(check_canonical_containment("/etc/passwd", "/a/b").is_err());
    assert!(check_canonical_containment("/a/b/tool", "/").is_ok());
    match check_canonical_containment("/outside", "/a/b") {
        Err(Error::PathEscape { path }) => assert_eq!(path, "/outside"),
        other => panic!("expected a path-escape refusal, got {:?}", other),
    }
}
