use flakehub_push::credentials::ExecutionEnvironment;
use flakehub_push::git_context::GitContext;
use flakehub_push::metadata::build_release_metadata;
use flakehub_push::revision::RevisionInfo;
use flakehub_push::visibility::Visibility;

fn git_ctx(commit_count: Option<u64>) -> GitContext {
    GitContext {
        spdx_expression: Some("MIT".to_string()),
        repo_topics: vec!["nix".to_string()],
        revision_info: RevisionInfo { commit_count, revision: "deadbeef".to_string() },
    }
}

#[test]
fn builds_the_full_payload() {
    let (m, warnings) = build_release_metadata(
        &None,
        &Some("DeterminateSystems/subgroup/flakehub".to_string()),
        false,
        None,
        Some(Visibility::Public),
        false,
        &vec!["Extra".to_string()],
        &vec![],
        Some(ExecutionEnvironment::GitHub),
        &git_ctx(Some(42)),
        Some("a description".to_string()),
        "{\"outputs\":{}}".to_string(),
        "{\"raw\":{}}".to_string(),
        Some("# readme".to_string()),
        "sub/dir".to_string(),
    )
    .unwrap();
    assert_eq!(m.commit_count, 42);
    assert_eq!(m.description.unwrap(), "a description");
    assert_eq!(m.outputs, "{\"outputs\":{}}");
    assert_eq!(m.raw_flake_metadata, "{\"raw\":{}}");
    assert_eq!(m.readme.unwrap(), "# readme");
    assert_eq!(m.repo, "DeterminateSystems/subgroup-flakehub");
    assert_eq!(m.revision, "deadbeef");
    assert!(matches!(m.visibility, Visibility::Public));
    assert!(!m.mirrored);
    assert_eq!(m.source_subdirectory.unwrap(), "sub/dir");
    assert_eq!(m.spdx_identifier.unwrap(), "MIT");
    let mut labels = m.labels.clone();
    labels.sort();
    assert_eq!(labels, vec!["extra".to_string(), "nix".to_string()]);
    assert!(!warnings.deprecated_tags_used);
}

#[test]
fn no_environment_means_no_labels() {
    let (m, warnings) = build_release_metadata(
        &None,
        &Some("a/b".to_string()),
        false,
        None,
        Some(Visibility::Unlisted),
        true,
        &vec!["Extra".to_string()],
        &vec!["legacy".to_string()],
        None,
        &git_ctx(Some(1)),
        None,
        "{}".to_string(),
        "{}".to_string(),
        None,
        "".to_string(),
    )
    .unwrap();
    assert!(m.labels.is_empty());
    assert!(m.mirrored);
    assert!(!warnings.deprecated_tags_used);
    assert!(!warnings.both_sources_set);
}

#[test]
fn error_cascade() {
    // The commit count is checked first.
    let e = build_release_metadata(
        &None,
        &None,
        false,
        None,
        Some(Visibility::Public),
        false,
        &vec![],
        &vec![],
        None,
        &git_ctx(None),
        None,
        "{}".to_string(),
        "{}".to_string(),
        None,
        "".to_string(),
    )
    .err()
    .unwrap();
    assert!(e.message().contains("Could not determine commit count"));

    // Then the repository.
    let e = build_release_metadata(
        &None,
        &None,
        false,
        None,
        Some(Visibility::Public),
        false,
        &vec![],
        &vec![],
        None,
        &git_ctx(Some(1)),
        None,
        "{}".to_string(),
        "{}".to_string(),
        None,
        "".to_string(),
    )
    .err()
    .unwrap();
    assert_eq!(
        e.message(),
        "Could not determine repository name, pass `--repository` formatted like `determinatesystems/flakehub-push`"
    );

    // Then its shape.
    let e = build_release_metadata(
        &None,
        &Some("no-slash".to_string()),
        false,
        None,
        Some(Visibility::Public),
        false,
        &vec![],
        &vec![],
        None,
        &git_ctx(Some(1)),
        None,
        "{}".to_string(),
        "{}".to_string(),
        None,
        "".to_string(),
    )
    .err()
    .unwrap();
    assert!(e.message().contains("Could not determine project owner and name"));

    // Then the visibility.
    let e = build_release_metadata(
        &None,
        &Some("a/b".to_string()),
        false,
        None,
        None,
        false,
        &vec![],
        &vec![],
        None,
        &git_ctx(Some(1)),
        None,
        "{}".to_string(),
        "{}".to_string(),
        None,
        "".to_string(),
    )
    .err()
    .unwrap();
    assert_eq!(
        e.message(),
        "Could not determine the flake's desired visibility. Use `--visibility` to set this to one of the following: public, unlisted, private."
    );
}
