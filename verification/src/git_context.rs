//! The git-derived context a release is described from: the validated
//! license expression, the repository topics, and the revision
//! information, assembled differently per execution environment.

use vstd::prelude::*;

use crate::errors::PushError;
use crate::github_data::GithubGraphqlDataResult;
use crate::license::{spdx_accepted, spdx_is_valid};
use crate::revision::RevisionInfo;
use crate::strutil::opt_view;

verus! {

/// License, topics and revision information for the release.
pub struct GitContext {
    pub spdx_expression: Option<String>,
    pub repo_topics: Vec<String>,
    pub revision_info: RevisionInfo,
}

pub open spec fn invalid_github_spdx_message() -> Seq<char> {
    "Invalid SPDX license identifier reported from the GitHub API, either you are using a non-standard license or GitHub has returned a value that cannot be validated"@
}

/// Whether two optional strings hold the same text.
pub open spec fn same_opt_string(a: Option<Seq<char>>, b: Option<Seq<char>>) -> bool {
    match (a, b) {
        (Some(x), Some(y)) => x == y,
        (None, None) => true,
        _ => false,
    }
}

impl GitContext {
    /// Assemble the context on the GitHub and local development paths,
    /// from the GraphQL answer. A license reported by the API is
    /// validated as an SPDX expression unless the command line already
    /// supplied one; when both exist and differ, the second result is
    /// true and the caller should warn. The commit count comes from
    /// the API; an explicitly given revision wins over the queried one.
    pub fn from_cli_and_github(
        cli_spdx: &Option<String>,
        cli_rev: &Option<String>,
        gh: GithubGraphqlDataResult,
    ) -> (r: Result<(GitContext, bool), PushError>)
        ensures
            r is Ok <==> (cli_spdx is Some || (gh.spdx_identifier matches Some(s) ==>
            spdx_accepted(s@))),
            r matches Err(e) ==> e is Configuration && e.spec_message()
                == invalid_github_spdx_message(),
            r matches Ok(p) ==> {
                &&& same_opt_string(
                    opt_view(p.0.spdx_expression),
                    if cli_spdx is Some {
                        opt_view(*cli_spdx)
                    } else {
                        opt_view(gh.spdx_identifier)
                    },
                )
                &&& p.0.repo_topics@ == gh.topics@
                &&& p.0.revision_info.revision@ == (match cli_rev {
                    Some(rev) => rev@,
                    None => gh.revision@,
                })
                &&& p.0.revision_info.commit_count == (if gh.rev_count >= 0 {
                    Some(gh.rev_count as u64)
                } else {
                    None::<u64>
                })
                &&& p.1 == (cli_spdx is Some && !same_opt_string(
                    opt_view(*cli_spdx),
                    opt_view(gh.spdx_identifier),
                ))
            },
    {
        let mut mismatch = false;
        let spdx_expression: Option<String> = match cli_spdx {
            None => {
                match gh.spdx_identifier {
                    Some(spdx_string) => {
                        if spdx_is_valid(spdx_string.as_str()) {
                            Some(spdx_string)
                        } else {
                            return Err(
                                PushError::Configuration(
                                    "Invalid SPDX license identifier reported from the GitHub API, either you are using a non-standard license or GitHub has returned a value that cannot be validated".to_owned(),
                                ),
                            );
                        }
                    },
                    None => None,
                }
            },
            Some(own) => {
                mismatch = match &gh.spdx_identifier {
                    Some(reported) => *reported != *own,
                    None => true,
                };
                Some(own.clone())
            },
        };
        let revision: String = match cli_rev {
            Some(rev) => rev.clone(),
            None => gh.revision,
        };
        let commit_count: Option<u64> = if gh.rev_count >= 0 {
            Some(gh.rev_count as u64)
        } else {
            None
        };
        Ok(
            (
                GitContext {
                    spdx_expression,
                    repo_topics: gh.topics,
                    revision_info: RevisionInfo { commit_count, revision },
                },
                mismatch,
            ),
        )
    }

    /// Assemble the context on the GitLab path: the license comes from
    /// the command line alone, no topics are reported, and the
    /// revision information is the locally resolved one, with an
    /// explicitly given revision winning.
    pub fn from_cli_and_gitlab(
        cli_spdx: &Option<String>,
        cli_rev: &Option<String>,
        local_revision_info: RevisionInfo,
    ) -> (r: GitContext)
        ensures
            same_opt_string(opt_view(r.spdx_expression), opt_view(*cli_spdx)),
            r.repo_topics@.len() == 0,
            r.revision_info.revision@ == (match cli_rev {
                Some(rev) => rev@,
                None => local_revision_info.revision@,
            }),
            r.revision_info.commit_count == local_revision_info.commit_count,
    {
        let revision: String = match cli_rev {
            Some(rev) => rev.clone(),
            None => local_revision_info.revision,
        };
        GitContext {
            spdx_expression: cli_spdx.clone(),
            repo_topics: Vec::new(),
            revision_info: RevisionInfo {
                commit_count: local_revision_info.commit_count,
                revision,
            },
        }
    }

    /// Assemble the context on the generic path: the same data sources
    /// as on the GitLab path.
    pub fn from_cli(
        cli_spdx: &Option<String>,
        cli_rev: &Option<String>,
        local_revision_info: RevisionInfo,
    ) -> (r: GitContext)
        ensures
            same_opt_string(opt_view(r.spdx_expression), opt_view(*cli_spdx)),
            r.repo_topics@.len() == 0,
            r.revision_info.revision@ == (match cli_rev {
                Some(rev) => rev@,
                None => local_revision_info.revision@,
            }),
            r.revision_info.commit_count == local_revision_info.commit_count,
    {
        let revision: String = match cli_rev {
            Some(rev) => rev.clone(),
            None => local_revision_info.revision,
        };
        GitContext {
            spdx_expression: cli_spdx.clone(),
            repo_topics: Vec::new(),
            revision_info: RevisionInfo {
                commit_count: local_revision_info.commit_count,
                revision,
            },
        }
    }
}

} // verus!
