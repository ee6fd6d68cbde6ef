use flakehub_push::names::determine_names;

#[test]
fn project_owner_and_name() {
    struct Expected {
        upload_name: &'static str,
        project_owner: &'static str,
        project_name: &'static str,
    }

    struct SuccessTestCase {
        explicit_upload_name: Option<&'static str>,
        repository: &'static str,
        disable_subgroup_renaming: bool,
        expected: Expected,
    }

    struct FailureTestCase {
        explicit_upload_name: Option<&'static str>,
        repository: &'static str,
        disable_subgroup_renaming: bool,
        error_msg: &'static str,
    }

    let success_cases: Vec<SuccessTestCase> = vec![
        SuccessTestCase {
            explicit_upload_name: None,
            repository: "DeterminateSystems/testing/flakehub-push-test-subrepo",
            disable_subgroup_renaming: false,
            expected: Expected {
                upload_name: "DeterminateSystems/testing-flakehub-push-test-subrepo",
                project_owner: "DeterminateSystems",
                project_name: "testing-flakehub-push-test-subrepo",
            },
        },
        SuccessTestCase {
            explicit_upload_name: Some("DeterminateSystems/flakehub-test"),
            repository: "DeterminateSystems/flakehub",
            disable_subgroup_renaming: false,
            expected: Expected {
                upload_name: "DeterminateSystems/flakehub-test",
                project_owner: "DeterminateSystems",
                project_name: "flakehub",
            },
        },
        SuccessTestCase {
            explicit_upload_name: None,
            repository: "DeterminateSystems/flakehub",
            disable_subgroup_renaming: false,
            expected: Expected {
                upload_name: "DeterminateSystems/flakehub",
                project_owner: "DeterminateSystems",
                project_name: "flakehub",
            },
        },
        SuccessTestCase {
            explicit_upload_name: Some("a/my-flake"),
            disable_subgroup_renaming: false,
            repository: "a/b/c",
            expected: Expected {
                upload_name: "a/my-flake",
                project_owner: "a",
                project_name: "b-c",
            },
        },
        SuccessTestCase {
            explicit_upload_name: None,
            repository: "a/b/c/d/e/f/g/h",
            disable_subgroup_renaming: false,
            expected: Expected {
                upload_name: "a/b-c-d-e-f-g-h",
                project_owner: "a",
                project_name: "b-c-d-e-f-g-h",
            },
        },
        SuccessTestCase {
            explicit_upload_name: None,
            repository: "a/b/c/d/e/f/g/h/i/j/k/l",
            disable_subgroup_renaming: false,
            expected: Expected {
                upload_name: "a/b-c-d-e-f-g-h-i-j-k-l",
                project_owner: "a",
                project_name: "b-c-d-e-f-g-h-i-j-k-l",
            },
        },
        SuccessTestCase {
            explicit_upload_name: None,
            repository: "DeterminateSystems/subgroup/flakehub",
            disable_subgroup_renaming: false,
            expected: Expected {
                upload_name: "DeterminateSystems/subgroup-flakehub",
                project_owner: "DeterminateSystems",
                project_name: "subgroup-flakehub",
            },
        },
        SuccessTestCase {
            explicit_upload_name: None,
            repository: "DeterminateSystems/subgroup/subsubgroup/flakehub",
            disable_subgroup_renaming: false,
            expected: Expected {
                upload_name: "DeterminateSystems/subgroup-subsubgroup-flakehub",
                project_owner: "DeterminateSystems",
                project_name: "subgroup-subsubgroup-flakehub",
            },
        },
    ];

    for SuccessTestCase {
        explicit_upload_name,
        repository,
        disable_subgroup_renaming,
        expected:
            Expected {
                upload_name: expected_upload_name,
                project_owner: expected_project_owner,
                project_name: expected_project_name,
            },
    } in success_cases
    {
        let (upload_name, owner, name) = determine_names(
            &explicit_upload_name.map(String::from),
            repository,
            disable_subgroup_renaming,
        )
        .unwrap();
        assert_eq!(
            (String::from(expected_upload_name), String::from(expected_project_owner), String::from(expected_project_name)),
            (upload_name.clone(), owner.clone(), name.clone()),
            "expected {expected_project_owner}/{expected_project_name} from repository {repository} but got {owner}/{name} instead"
        );
    }

    let failure_cases: Vec<FailureTestCase> = vec![
        FailureTestCase {
            explicit_upload_name: None,
            // Two slashes in repository with subgroup renaming disabled
            repository: "a/b/c",
            disable_subgroup_renaming: true,
            error_msg: "Could not determine project owner and name; pass `--repository` formatted like `determinatesystems/flakehub-push`",
        },
        FailureTestCase {
            explicit_upload_name: None,
            // No slashes in repository
            repository: "a",
            disable_subgroup_renaming: false,
            error_msg: "Could not determine project owner and name; pass `--repository` formatted like `determinatesystems/flakehub-push` or `determinatesystems/subgroup-segments.../flakehub-push`)",
        },
        FailureTestCase {
            // No slashes in explicit name
            explicit_upload_name: Some("zero-slashes"),
            repository: "doesnt-matter",
            disable_subgroup_renaming: true,
            error_msg: "Could not determine project owner and name; pass `--repository` formatted like `determinatesystems/flakehub-push`",
        },
        FailureTestCase {
            // Two slashes in explicitly provided name
            explicit_upload_name: Some("a/b/c"),
            repository: "a/b",
            disable_subgroup_renaming: true,
            error_msg: "The argument `--name` must be in the format of `owner-name/flake-name` and cannot contain whitespace or other special characters",
        },
        FailureTestCase {
            // Five slashes in explicit name wit subgroup renaming disabled
            explicit_upload_name: Some("a/b/c/d/e/f"),
            repository: "doesnt-matter",
            disable_subgroup_renaming: true,
            // The repository name is invalid so that error gets thrown first
            error_msg: "Could not determine project owner and name; pass `--repository` formatted like `determinatesystems/flakehub-push`",
        },
    ];

    for FailureTestCase {
        explicit_upload_name,
        repository,
        disable_subgroup_renaming,
        error_msg: expected_error_msg,
    } in failure_cases
    {
        let error_msg = determine_names(
            &explicit_upload_name.map(String::from),
            repository,
            disable_subgroup_renaming,
        )
        .err()
        .unwrap()
        .message();

        assert_eq!(
            error_msg,
            String::from(expected_error_msg),
            "expected {} and `{repository}` to produce error message `{expected_error_msg}` but produced message `{error_msg}` instead", if let Some(ref explicit_upload_name) = &explicit_upload_name { format!("explicit upload name `{}`", explicit_upload_name) } else { String::from("no explicit upload name") },
        );
    }
}

#[test]
fn explicit_name_rejects_whitespace_and_non_ascii() {
    let err = determine_names(&Some("owner/with space".to_string()), "a/b", false)
        .err()
        .unwrap()
        .message();
    assert!(err.contains("--name"));
    let err = determine_names(&Some("owner/caf\u{e9}".to_string()), "a/b", false)
        .err()
        .unwrap()
        .message();
    assert!(err.contains("--name"));
}
