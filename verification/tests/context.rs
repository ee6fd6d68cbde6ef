use flakehub_push::errors::PushError;
use flakehub_push::git_context::GitContext;
use flakehub_push::github::{
    registration_message, WorkflowData, WorkflowDataEvent, WorkflowDataEventRepo,
    WorkflowDataEventRepoOwner,
};
use flakehub_push::github_actions::{escape_key_value, release_output_pairs, set_output_line};
use flakehub_push::github_data::{resolve_github_data, GitObjectKind, GithubApiReply};
use flakehub_push::revision::{revision_info_from_head, HeadKind, RevisionInfo};
use flakehub_push::strutil::{i64_to_string, u64_to_string};
use flakehub_push::visibility::{resolve_visibility, Visibility};

#[test]
fn error_messages_and_annotations() {
    let unauthorized = PushError::Unauthorized("bad token".to_string());
    assert_eq!(unauthorized.message(), "Unauthorized: bad token");
    assert_eq!(
        unauthorized.github_actions_annotation().unwrap(),
        "::error title=Unauthorized::bad token"
    );
    assert!(!unauthorized.should_suggest_issue());

    let conflict = PushError::Conflict {
        upload_name: "o/p".to_string(),
        release_version: "v1.2.3".to_string(),
    };
    assert_eq!(conflict.message(), "o/p/v1.2.3 already exists");
    assert_eq!(
        conflict.github_actions_annotation().unwrap(),
        "::error title=Conflict::o/p/v1.2.3 already exists"
    );
    assert!(!conflict.should_suggest_issue());

    let bad_request = PushError::BadRequest("shape".to_string());
    assert_eq!(bad_request.message(), "Bad request: shape");
    assert_eq!(
        bad_request.github_actions_annotation().unwrap(),
        "::error title=BadRequest::Bad request: shape"
    );
    assert!(!bad_request.should_suggest_issue());

    let config = PushError::Configuration("hint".to_string());
    assert_eq!(config.message(), "hint");
    assert!(config.github_actions_annotation().is_none());
    assert!(config.should_suggest_issue());
}

#[test]
fn visibility_names_and_resolution() {
    assert_eq!(Visibility::Public.name(), "public");
    assert_eq!(Visibility::Unlisted.name(), "unlisted");
    assert_eq!(Visibility::Hidden.name(), "unlisted");
    assert_eq!(Visibility::Private.name(), "private");
    assert_eq!(
        resolve_visibility(Some(Visibility::Private), Some(Visibility::Public)),
        Some(Visibility::Private)
    );
    assert_eq!(
        resolve_visibility(None, Some(Visibility::Public)),
        Some(Visibility::Public)
    );
    assert_eq!(resolve_visibility(None, None), None);
}

#[test]
fn head_resolution() {
    let info = revision_info_from_head(
        HeadKind::SymbolicPeeled { id_hex: "abc123".to_string() },
        Some(7),
    )
    .unwrap();
    assert_eq!(info.revision, "abc123");
    assert_eq!(info.commit_count, Some(7));

    let info =
        revision_info_from_head(HeadKind::Detached { id_hex: "ffee".to_string() }, None).unwrap();
    assert_eq!(info.revision, "ffee");
    assert_eq!(info.commit_count, None);

    assert_eq!(
        revision_info_from_head(HeadKind::SymbolicToSymbolic, None)
            .err()
            .unwrap()
            .message(),
        "Symbolic revision pointing to a symbolic revision is not supported at this time"
    );
    assert_eq!(
        revision_info_from_head(HeadKind::Unborn, None).err().unwrap().message(),
        "Newly initialized repository detected, at least one commit is necessary"
    );
}

fn complete_reply() -> GithubApiReply {
    GithubApiReply {
        status: 200,
        data_present: true,
        repository_present: true,
        object: Some(GitObjectKind::Commit { total_count: 42 }),
        license_spdx_id: Some("MIT".to_string()),
        project_id: Some(111),
        owner_id: Some(222),
        topics: vec!["nix".to_string(), "flakes".to_string()],
    }
}

#[test]
fn github_data_resolution() {
    let data = resolve_github_data(complete_reply(), "owner", "project", "deadbeef").unwrap();
    assert_eq!(data.revision, "deadbeef");
    assert_eq!(data.rev_count, 42);
    assert_eq!(data.spdx_identifier.unwrap(), "MIT");
    assert_eq!(data.project_id, 111);
    assert_eq!(data.owner_id, 222);
    assert_eq!(data.topics, vec!["nix".to_string(), "flakes".to_string()]);

    let mut reply = complete_reply();
    reply.status = 502;
    assert_eq!(
        resolve_github_data(reply, "o", "p", "r").err().unwrap().message(),
        "Got 502 status from Github's GraphQL API, expected 200"
    );

    let mut reply = complete_reply();
    reply.repository_present = false;
    let msg = resolve_github_data(reply, "owner", "project", "r").err().unwrap().message();
    assert!(msg.contains("owner/project"));

    let mut reply = complete_reply();
    reply.object = Some(GitObjectKind::Other);
    let msg = resolve_github_data(reply, "o", "p", "r").err().unwrap().message();
    assert!(msg.contains("was not a `Commit`"));

    let mut reply = complete_reply();
    reply.object = None;
    let msg = resolve_github_data(reply, "o", "p", "deadbeef").err().unwrap().message();
    assert!(msg.contains("deadbeef"));

    let mut reply = complete_reply();
    reply.owner_id = None;
    let msg = resolve_github_data(reply, "o", "p", "r").err().unwrap().message();
    assert!(msg.contains("repository.owner.databaseId"));
}

#[test]
fn git_context_from_github_validates_the_reported_license() {
    let data = resolve_github_data(complete_reply(), "o", "p", "r").unwrap();
    let (ctx, mismatch) = GitContext::from_cli_and_github(&None, &None, data).unwrap();
    assert_eq!(ctx.spdx_expression.unwrap(), "MIT");
    assert!(!mismatch);
    assert_eq!(ctx.revision_info.commit_count, Some(42));
    assert_eq!(ctx.revision_info.revision, "r");

    let mut data = resolve_github_data(complete_reply(), "o", "p", "r").unwrap();
    data.spdx_identifier = Some("MIT OR".to_string());
    let e = GitContext::from_cli_and_github(&None, &None, data).err().unwrap();
    assert!(e.message().contains("Invalid SPDX license identifier"));

    // A license given on the command line wins, and a differing
    // API-reported one only raises the mismatch flag.
    let data = resolve_github_data(complete_reply(), "o", "p", "r").unwrap();
    let (ctx, mismatch) =
        GitContext::from_cli_and_github(&Some("Apache-2.0".to_string()), &None, data).unwrap();
    assert_eq!(ctx.spdx_expression.unwrap(), "Apache-2.0");
    assert!(mismatch);

    // An explicitly given revision wins over the queried one.
    let data = resolve_github_data(complete_reply(), "o", "p", "r").unwrap();
    let (ctx, _) =
        GitContext::from_cli_and_github(&None, &Some("explicit".to_string()), data).unwrap();
    assert_eq!(ctx.revision_info.revision, "explicit");
}

#[test]
fn git_context_from_gitlab_and_generic() {
    let local = RevisionInfo { commit_count: Some(3), revision: "local".to_string() };
    let ctx = GitContext::from_cli_and_gitlab(&Some("MIT".to_string()), &None, local.clone());
    assert_eq!(ctx.spdx_expression.unwrap(), "MIT");
    assert!(ctx.repo_topics.is_empty());
    assert_eq!(ctx.revision_info.revision, "local");
    assert_eq!(ctx.revision_info.commit_count, Some(3));

    let ctx = GitContext::from_cli(&None, &Some("cli-rev".to_string()), local);
    assert!(ctx.spdx_expression.is_none());
    assert_eq!(ctx.revision_info.revision, "cli-rev");
}

#[test]
fn registration_messages() {
    let user = WorkflowData {
        event: WorkflowDataEvent {
            repository: WorkflowDataEventRepo {
                owner: WorkflowDataEventRepoOwner {
                    login: "someone".to_string(),
                    kind: "User".to_string(),
                },
            },
        },
    };
    assert_eq!(
        registration_message(&Some(user)),
        "::error title=FlakeHub registration required.::Please create an account for someone on FlakeHub.com to publish flakes."
    );
    let org = WorkflowData {
        event: WorkflowDataEvent {
            repository: WorkflowDataEventRepo {
                owner: WorkflowDataEventRepoOwner {
                    login: "acme".to_string(),
                    kind: "Organization".to_string(),
                },
            },
        },
    };
    assert_eq!(
        registration_message(&Some(org)),
        "::error title=FlakeHub registration required.::Please create an organization for acme on FlakeHub.com to publish flakes."
    );
    assert_eq!(
        registration_message(&None),
        "::error title=FlakeHub registration required.::Unable to authenticate to FlakeHub. Individuals must register at FlakeHub.com; Organizations must create an organization at FlakeHub.com."
    );
}

#[test]
fn output_escaping() {
    let framed = escape_key_value("flake_name", "o/p", "ghadelimiter_x").unwrap();
    assert_eq!(framed, "flake_name<<ghadelimiter_x\no/p\nghadelimiter_x\n");
    assert!(escape_key_value("key ghadelimiter_x tail", "v", "ghadelimiter_x").is_err());
    assert_eq!(
        escape_key_value("k", "v ghadelimiter_x", "ghadelimiter_x")
            .err()
            .unwrap()
            .message(),
        "Value contains delimiter"
    );
    // With a freshly drawn delimiter, ordinary values always frame.
    let line = set_output_line("flake_version", "v1.2.3").unwrap();
    assert!(line.starts_with("flake_version<<ghadelimiter_"));
    assert!(line.contains("\nv1.2.3\n"));
}

#[test]
fn release_outputs() {
    let pairs = release_output_pairs("o/p", "v1.2.3");
    assert_eq!(pairs.len(), 4);
    assert_eq!(pairs[0], ("flake_name".to_string(), "o/p".to_string()));
    assert_eq!(pairs[1], ("flake_version".to_string(), "v1.2.3".to_string()));
    assert_eq!(pairs[2], ("flakeref_at_least".to_string(), "o/p/v1.2.3".to_string()));
    assert_eq!(pairs[3], ("flakeref_exact".to_string(), "o/p/=v1.2.3".to_string()));
}

#[test]
fn decimal_rendering() {
    assert_eq!(u64_to_string(0), "0");
    assert_eq!(u64_to_string(7), "7");
    assert_eq!(u64_to_string(1234567890), "1234567890");
    assert_eq!(u64_to_string(u64::MAX), "18446744073709551615");
    assert_eq!(i64_to_string(-1), "-1");
    assert_eq!(i64_to_string(i64::MIN), "-9223372036854775808");
    assert_eq!(i64_to_string(i64::MAX), "9223372036854775807");
}
