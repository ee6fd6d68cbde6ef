use flakehub_push::version::release_version;

#[test]
fn tag_release_returns_tag_verbatim() {
    let r = release_version(
        &Some("v1.2.3".to_string()),
        false,
        &None,
        Some(10),
        "abcdef",
    );
    assert_eq!(r.unwrap(), "v1.2.3".to_string());
}

#[test]
fn tag_without_leading_v_is_accepted() {
    let r = release_version(&Some("1.2.3".to_string()), false, &None, Some(1), "x");
    assert_eq!(r.unwrap(), "1.2.3".to_string());
}

#[test]
fn tag_with_prerelease_suffix_is_accepted() {
    let r = release_version(&Some("v1.2.3-rc1".to_string()), false, &None, Some(1), "x");
    assert_eq!(r.unwrap(), "v1.2.3-rc1".to_string());
}

#[test]
fn invalid_tag_is_rejected() {
    let e = release_version(&Some("vnot-a-version".to_string()), false, &None, Some(1), "x")
        .err()
        .unwrap()
        .message();
    assert_eq!(
        e,
        "Failed to parse version `vnot-a-version` as semver, see https://semver.org/ for specifications"
    );
}

#[test]
fn leading_zero_tag_is_rejected() {
    assert!(release_version(&Some("01.2.3".to_string()), false, &None, Some(1), "x").is_err());
}

#[test]
fn rolling_minor_version_format() {
    let r = release_version(&None, true, &Some(2), Some(10), "abcdef");
    assert_eq!(r.unwrap(), "0.2.10+rev-abcdef".to_string());
}

#[test]
fn rolling_minor_overrides_tag() {
    let r = release_version(&Some("v9.9.9".to_string()), true, &Some(3), Some(7), "deadbeef");
    assert_eq!(r.unwrap(), "0.3.7+rev-deadbeef".to_string());
}

#[test]
fn rolling_default_prefix() {
    let r = release_version(&None, true, &None, Some(5), "cafe");
    assert_eq!(r.unwrap(), "0.1.5+rev-cafe".to_string());
}

#[test]
fn rolling_minor_requires_rolling() {
    let e = release_version(&None, false, &Some(2), Some(10), "abc")
        .err()
        .unwrap()
        .message();
    assert_eq!(
        e,
        "You must enable `rolling` to upload a release with a specific `rolling-minor`."
    );
}

#[test]
fn no_version_source_is_an_error() {
    let e = release_version(&None, false, &None, Some(10), "abc")
        .err()
        .unwrap()
        .message();
    assert_eq!(
        e,
        "Could not determine tag or rolling minor version, `--tag`, `GITHUB_REF_NAME`, or `--rolling-minor` must be set"
    );
}

#[test]
fn missing_commit_count_is_an_error() {
    let e = release_version(&Some("v1.2.3".to_string()), false, &None, None, "abc")
        .err()
        .unwrap()
        .message();
    assert_eq!(
        e,
        "Could not determine commit count, this is normally determined via the `--git-root` argument or via the GitHub API"
    );
}
