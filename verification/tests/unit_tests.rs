//! Tests of the pure parts of the library: configuration defaults, the
//! uppercasing of package identifiers, the directive format and its round
//! trip, and the classification of failures.

use git_describe::classify_describe_error;
use git_describe::classify_open_error;
use git_describe::directive_line;
use git_describe::get_version;
use git_describe::to_uppercase_ascii;
use git_describe::GitVersionCfg;
use git_describe::ResolutionError;

#[test]
fn configuration_for_a_package_uppercases_its_name() {
    let cfg = GitVersionCfg::for_package("example");
    assert_eq!(cfg.var_name, "EXAMPLE_GIT_VERSION");
    assert_eq!(cfg.repo_path, "./");
}

#[test]
fn default_configuration_uses_this_package() {
    let cfg = GitVersionCfg::default();
    assert_eq!(cfg.var_name, "GIT_DESCRIBE_GIT_VERSION");
    assert_eq!(cfg.repo_path, "./");
}

#[test]
fn uppercasing_touches_only_ascii_letters() {
    assert_eq!(to_uppercase_ascii("my-pkg_2"), "MY-PKG_2");
    assert_eq!(to_uppercase_ascii(""), "");
    assert_eq!(to_uppercase_ascii("MixedCase"), "MIXEDCASE");
}

#[test]
fn directive_has_the_documented_format() {
    let line = directive_line("EXAMPLE_GIT_VERSION", "v1.2.3-0-gabc1234");
    assert_eq!(line, "cargo:rustc-env=EXAMPLE_GIT_VERSION=v1.2.3-0-gabc1234");
}

#[test]
fn directive_twice_for_the_same_inputs_is_byte_identical() {
    let first = directive_line("DEMO_GIT_VERSION", "v0.9-2-g1234abc+");
    let second = directive_line("DEMO_GIT_VERSION", "v0.9-2-g1234abc+");
    assert_eq!(first.as_bytes(), second.as_bytes());
}

#[test]
fn exported_value_reads_back_verbatim() {
    let line = directive_line("EXAMPLE_GIT_VERSION", "v1.2.3-0-gabc1234");
    let value = &line["cargo:rustc-env=EXAMPLE_GIT_VERSION=".len()..];
    assert_eq!(get_version(Some(value)), Ok("v1.2.3-0-gabc1234"));
}

#[test]
fn exported_dirty_value_keeps_its_suffix() {
    let line = directive_line("EXAMPLE_GIT_VERSION", "v1.2.3-0-gabc1234+");
    let value = &line["cargo:rustc-env=EXAMPLE_GIT_VERSION=".len()..];
    assert_eq!(get_version(Some(value)), Ok("v1.2.3-0-gabc1234+"));
}

#[test]
fn missing_variable_is_its_own_error() {
    let err = get_version(None).unwrap_err();
    assert!(matches!(err, ResolutionError::MissingBuildTimeVariable));
    assert_eq!(err.message(), "build-time version variable was never exported");
}

#[test]
fn open_failures_classify_as_repository_not_found() {
    let err = classify_open_error("could not open repository".to_string());
    assert!(matches!(err, ResolutionError::RepositoryNotFound { .. }));
    assert_eq!(err.message(), "could not open repository");
}

#[test]
fn describe_failures_classify_by_kind() {
    let no_tag = classify_describe_error(true, "no tags can describe".to_string());
    assert!(matches!(no_tag, ResolutionError::NoReachableTag { .. }));
    assert_eq!(no_tag.message(), "no tags can describe");
    let backend = classify_describe_error(false, "reference not found".to_string());
    assert!(matches!(backend, ResolutionError::BackendError { .. }));
    assert_eq!(backend.message(), "reference not found");
}
