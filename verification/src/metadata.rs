//! Assembly of the release metadata: the immutable payload the stage
//! request carries. Everything the external packaging step produced is
//! taken as given; the checks and derivations here — commit count,
//! upload name, visibility, labels — are the release's own rules.

use vstd::prelude::*;

use crate::credentials::ExecutionEnvironment;
use crate::errors::PushError;
use crate::git_context::{same_opt_string, GitContext};
use crate::labels::{merge_labels, merge_spec, LabelWarnings};
use crate::names::{determine_names, name_ok, repo_ok, spec_upload_name};
use crate::strutil::opt_view;
use crate::version::no_commit_count_error_message;
use crate::visibility::{resolve_visibility, Visibility};

verus! {

/// The payload of the stage request. Built once and then read-only;
/// the JSON documents the packaging step produced are carried opaquely.
pub struct ReleaseMetadata {
    pub commit_count: u64,
    pub description: Option<String>,
    pub outputs: String,
    pub raw_flake_metadata: String,
    pub readme: Option<String>,
    pub repo: String,
    pub revision: String,
    pub visibility: Visibility,
    pub mirrored: bool,
    pub source_subdirectory: Option<String>,
    pub spdx_identifier: Option<String>,
    pub labels: Vec<String>,
}

pub open spec fn repo_missing_error_message() -> Seq<char> {
    "Could not determine repository name, pass `--repository` formatted like `determinatesystems/flakehub-push`"@
}

pub open spec fn visibility_missing_error_message() -> Seq<char> {
    "Could not determine the flake's desired visibility. Use `--visibility` to set this to one of the following: public, unlisted, private."@
}

/// Whether every input the metadata needs is present and acceptable.
pub open spec fn metadata_inputs_ok(
    name: Option<Seq<char>>,
    repository: Option<Seq<char>>,
    disable_rename_subgroups: bool,
    visibility_alt: Option<Visibility>,
    visibility: Option<Visibility>,
    commit_count: Option<u64>,
) -> bool {
    &&& commit_count is Some
    &&& repository is Some
    &&& repo_ok(repository.unwrap(), disable_rename_subgroups)
    &&& (name is Some ==> name_ok(name.unwrap()))
    &&& (visibility_alt is Some || visibility is Some)
}

/// Build the release metadata from the command-line inputs, the git
/// context, and what the packaging step produced.
///
/// The commit count must be known by now; the repository identifier
/// must be given and parse; an explicit name must be acceptable; and a
/// visibility must be chosen in one of its two slots. The labels are
/// merged only when an execution environment is given — a plain
/// tarball export skips them.
pub fn build_release_metadata(
    name: &Option<String>,
    repository: &Option<String>,
    disable_rename_subgroups: bool,
    visibility_alt: Option<Visibility>,
    visibility: Option<Visibility>,
    mirror: bool,
    extra_labels: &Vec<String>,
    extra_tags: &Vec<String>,
    exec_env: Option<ExecutionEnvironment>,
    git_ctx: &GitContext,
    description: Option<String>,
    outputs_json: String,
    raw_metadata_json: String,
    readme: Option<String>,
    source_subdirectory: String,
) -> (r: Result<(ReleaseMetadata, LabelWarnings), PushError>)
    ensures
        r is Ok <==> metadata_inputs_ok(
            opt_view(*name),
            opt_view(*repository),
            disable_rename_subgroups,
            visibility_alt,
            visibility,
            git_ctx.revision_info.commit_count,
        ),
        r matches Ok(p) ==> {
            &&& p.0.commit_count == git_ctx.revision_info.commit_count.unwrap()
            &&& same_opt_string(opt_view(p.0.description), opt_view(description))
            &&& p.0.outputs@ == outputs_json@
            &&& p.0.raw_flake_metadata@ == raw_metadata_json@
            &&& same_opt_string(opt_view(p.0.readme), opt_view(readme))
            &&& p.0.repo@ == spec_upload_name(
                opt_view(*name),
                repository.unwrap()@,
                disable_rename_subgroups,
            )
            &&& p.0.revision@ == git_ctx.revision_info.revision@
            &&& p.0.visibility == (if visibility_alt is Some {
                visibility_alt.unwrap()
            } else {
                visibility.unwrap()
            })
            &&& p.0.mirrored == mirror
            &&& (p.0.source_subdirectory matches Some(s) && s@ == source_subdirectory@)
            &&& same_opt_string(
                opt_view(p.0.spdx_identifier),
                opt_view(git_ctx.spdx_expression),
            )
            &&& p.0.labels.deep_view() == (if exec_env is Some {
                merge_spec(
                    extra_labels.deep_view(),
                    extra_tags.deep_view(),
                    git_ctx.repo_topics.deep_view(),
                )
            } else {
                Seq::<Seq<char>>::empty()
            })
            &&& (exec_env is None ==> !p.1.deprecated_tags_used && !p.1.both_sources_set)
        },
        r matches Err(e) ==> e is Configuration && e.spec_message() == {
            if git_ctx.revision_info.commit_count is None {
                no_commit_count_error_message()
            } else if repository is None {
                repo_missing_error_message()
            } else if !repo_ok(repository.unwrap()@, disable_rename_subgroups) || (name is Some
                && !name_ok(name.unwrap()@)) {
                if !repo_ok(repository.unwrap()@, disable_rename_subgroups) {
                    crate::names::repo_error_message(disable_rename_subgroups)
                } else {
                    crate::names::name_error_message()
                }
            } else {
                visibility_missing_error_message()
            }
        },
{
    let commit_count: u64 = match git_ctx.revision_info.commit_count {
        Some(c) => c,
        None => {
            return Err(
                PushError::Configuration(
                    "Could not determine commit count, this is normally determined via the `--git-root` argument or via the GitHub API".to_owned(),
                ),
            );
        },
    };
    let repository: &String = match repository {
        Some(r) => r,
        None => {
            return Err(
                PushError::Configuration(
                    "Could not determine repository name, pass `--repository` formatted like `determinatesystems/flakehub-push`".to_owned(),
                ),
            );
        },
    };
    let (upload_name, _project_owner, _project_name) = match determine_names(
        name,
        repository.as_str(),
        disable_rename_subgroups,
    ) {
        Ok(t) => t,
        Err(e) => {
            return Err(e);
        },
    };
    let chosen_visibility: Visibility = match resolve_visibility(visibility_alt, visibility) {
        Some(v) => v,
        None => {
            return Err(
                PushError::Configuration(
                    "Could not determine the flake's desired visibility. Use `--visibility` to set this to one of the following: public, unlisted, private.".to_owned(),
                ),
            );
        },
    };
    let (labels, warnings) = match exec_env {
        Some(_) => merge_labels(extra_labels, extra_tags, &git_ctx.repo_topics),
        None => (
            Vec::new(),
            LabelWarnings { deprecated_tags_used: false, both_sources_set: false },
        ),
    };
    let spdx_identifier: Option<String> = match &git_ctx.spdx_expression {
        Some(s) => Some(s.clone()),
        None => None,
    };
    let metadata = ReleaseMetadata {
        commit_count,
        description,
        outputs: outputs_json,
        raw_flake_metadata: raw_metadata_json,
        readme,
        repo: upload_name,
        revision: git_ctx.revision_info.revision.clone(),
        visibility: chosen_visibility,
        mirrored: mirror,
        source_subdirectory: Some(source_subdirectory),
        spdx_identifier,
        labels,
    };
    Ok((metadata, warnings))
}

} // verus!
