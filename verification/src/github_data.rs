//! Interpretation of the GitHub GraphQL answer that backs the GitHub
//! and local development paths: the commit count at the pushed
//! revision, the reported license, the repository identifiers, and
//! the repository topics. The HTTP exchange happens outside the
//! library; this resolves its already-decoded fields.

use vstd::prelude::*;

use crate::errors::PushError;
use crate::strutil::dec_str;
use crate::strutil::u64_to_string;

verus! {

/// What kind of object the queried revision named.
pub enum GitObjectKind {
    /// A commit, with the total count of its history.
    Commit { total_count: i64 },
    /// A blob, tag or tree: never expected for a checked-out revision.
    Other,
}

/// The decoded fields of the GraphQL answer, before interpretation.
pub struct GithubApiReply {
    pub status: u16,
    pub data_present: bool,
    pub repository_present: bool,
    pub object: Option<GitObjectKind>,
    pub license_spdx_id: Option<String>,
    pub project_id: Option<i64>,
    pub owner_id: Option<i64>,
    pub topics: Vec<String>,
}

/// What the query yields once interpreted.
pub struct GithubGraphqlDataResult {
    pub revision: String,
    pub rev_count: i64,
    pub spdx_identifier: Option<String>,
    pub project_id: i64,
    pub owner_id: i64,
    pub topics: Vec<String>,
}

pub open spec fn graphql_status_error_message(status: u16) -> Seq<char> {
    "Got "@ + dec_str(status as nat) + " status from Github's GraphQL API, expected 200"@
}

pub open spec fn graphql_no_data_message() -> Seq<char> {
    "Did not receive a `data` inside GithubGraphqlDataQuery response from Github's GraphQL API"@
}

pub open spec fn graphql_no_repository_message(
    project_owner: Seq<char>,
    project_name: Seq<char>,
) -> Seq<char> {
    "Did not receive a `repository` inside GithubGraphqlDataQuery response from Github's GraphQL API. Does the repository "@
        + project_owner + "/"@ + project_name
        + " exist on GitHub, and does your GitHub access token have access to it?"@
}

pub open spec fn graphql_no_object_message(revision: Seq<char>) -> Seq<char> {
    "Did not receive a `repository.object` inside GithubGraphqlDataQuery response from Github's GraphQL API. Is the current commit "@
        + revision + " pushed to GitHub?"@
}

pub open spec fn graphql_not_a_commit_message() -> Seq<char> {
    "Retrieved a `repository.object` that was not a `Commit` in the GithubGraphqlDataQuery response from Github's GraphQL API. This shouldn't happen, because only commits can be checked out!"@
}

pub open spec fn graphql_no_project_id_message() -> Seq<char> {
    "Did not receive a `repository.databaseId` inside GithubGraphqlDataQuery response from Github's GraphQL API. Is GitHub's API experiencing issues?"@
}

pub open spec fn graphql_no_owner_id_message() -> Seq<char> {
    "Did not receive a `repository.owner.databaseId` inside GithubGraphqlDataQuery response from Github's GraphQL API. Is GitHub's API experiencing issues?"@
}

/// Whether a decoded reply holds everything interpretation needs.
pub open spec fn reply_complete(reply: GithubApiReply) -> bool {
    &&& reply.status == 200
    &&& reply.data_present
    &&& reply.repository_present
    &&& reply.object matches Some(o) && o is Commit
    &&& reply.project_id is Some
    &&& reply.owner_id is Some
}

/// Interpret the decoded GraphQL reply, demanding a 200 answer with a
/// `data` object naming a repository whose queried object is a commit
/// and whose repository and owner identifiers are present. The errors
/// name the missing piece and, where useful, the repository or
/// revision asked about.
pub fn resolve_github_data(
    reply: GithubApiReply,
    project_owner: &str,
    project_name: &str,
    revision: &str,
) -> (r: Result<GithubGraphqlDataResult, PushError>)
    ensures
        r is Ok <==> reply_complete(reply),
        r matches Ok(d) ==> {
            &&& d.revision@ == revision@
            &&& reply.object matches Some(GitObjectKind::Commit { total_count }) && d.rev_count
                == total_count
            &&& match (reply.license_spdx_id, d.spdx_identifier) {
                (Some(a), Some(b)) => a@ == b@,
                (None, None) => true,
                _ => false,
            }
            &&& d.project_id == reply.project_id.unwrap()
            &&& d.owner_id == reply.owner_id.unwrap()
            &&& d.topics@ == reply.topics@
        },
        r matches Err(e) ==> e is Generic && e.spec_message() == {
            if reply.status != 200 {
                graphql_status_error_message(reply.status)
            } else if !reply.data_present {
                graphql_no_data_message()
            } else if !reply.repository_present {
                graphql_no_repository_message(project_owner@, project_name@)
            } else if reply.object is None {
                graphql_no_object_message(revision@)
            } else if !(reply.object.unwrap() is Commit) {
                graphql_not_a_commit_message()
            } else if reply.project_id is None {
                graphql_no_project_id_message()
            } else {
                graphql_no_owner_id_message()
            }
        },
{
    if reply.status != 200 {
        return Err(
            PushError::Generic(
                "Got ".to_owned().concat(u64_to_string(reply.status as u64).as_str()).concat(
                    " status from Github's GraphQL API, expected 200",
                ),
            ),
        );
    }
    if !reply.data_present {
        return Err(
            PushError::Generic(
                "Did not receive a `data` inside GithubGraphqlDataQuery response from Github's GraphQL API".to_owned(),
            ),
        );
    }
    if !reply.repository_present {
        return Err(
            PushError::Generic(
                "Did not receive a `repository` inside GithubGraphqlDataQuery response from Github's GraphQL API. Does the repository ".to_owned().concat(
                    project_owner,
                ).concat("/").concat(project_name).concat(
                    " exist on GitHub, and does your GitHub access token have access to it?",
                ),
            ),
        );
    }
    let total_count: i64 = match reply.object {
        None => {
            return Err(
                PushError::Generic(
                    "Did not receive a `repository.object` inside GithubGraphqlDataQuery response from Github's GraphQL API. Is the current commit ".to_owned().concat(
                        revision,
                    ).concat(" pushed to GitHub?"),
                ),
            );
        },
        Some(GitObjectKind::Other) => {
            return Err(
                PushError::Generic(
                    "Retrieved a `repository.object` that was not a `Commit` in the GithubGraphqlDataQuery response from Github's GraphQL API. This shouldn't happen, because only commits can be checked out!".to_owned(),
                ),
            );
        },
        Some(GitObjectKind::Commit { total_count }) => total_count,
    };
    let project_id: i64 = match reply.project_id {
        Some(id) => id,
        None => {
            return Err(
                PushError::Generic(
                    "Did not receive a `repository.databaseId` inside GithubGraphqlDataQuery response from Github's GraphQL API. Is GitHub's API experiencing issues?".to_owned(),
                ),
            );
        },
    };
    let owner_id: i64 = match reply.owner_id {
        Some(id) => id,
        None => {
            return Err(
                PushError::Generic(
                    "Did not receive a `repository.owner.databaseId` inside GithubGraphqlDataQuery response from Github's GraphQL API. Is GitHub's API experiencing issues?".to_owned(),
                ),
            );
        },
    };
    Ok(
        GithubGraphqlDataResult {
            revision: revision.to_owned(),
            rev_count: total_count,
            spdx_identifier: reply.license_spdx_id,
            project_id,
            owner_id,
            topics: reply.topics,
        },
    )
}

} // verus!
