//! The slice of the GitHub Actions workflow event that the
//! registration hint reads, and the hint itself: when authentication
//! to the registry fails, the message names the account or
//! organization that should register.

use vstd::prelude::*;

verus! {

/// The workflow event data, as deep as the registration hint looks.
pub struct WorkflowData {
    pub event: WorkflowDataEvent,
}

pub struct WorkflowDataEvent {
    pub repository: WorkflowDataEventRepo,
}

pub struct WorkflowDataEventRepo {
    pub owner: WorkflowDataEventRepoOwner,
}

pub struct WorkflowDataEventRepoOwner {
    pub login: String,
    pub kind: String,
}

pub open spec fn generic_registration_message() -> Seq<char> {
    "::error title=FlakeHub registration required.::Unable to authenticate to FlakeHub. Individuals must register at FlakeHub.com; Organizations must create an organization at FlakeHub.com."@
}

pub open spec fn user_registration_message(login: Seq<char>) -> Seq<char> {
    "::error title=FlakeHub registration required.::Please create an account for "@ + login
        + " on FlakeHub.com to publish flakes."@
}

pub open spec fn organization_registration_message(login: Seq<char>) -> Seq<char> {
    "::error title=FlakeHub registration required.::Please create an organization for "@ + login
        + " on FlakeHub.com to publish flakes."@
}

/// The annotation shown when the registry does not know the caller:
/// with workflow data at hand it names the user or organization that
/// should register, and otherwise it gives the generic hint.
pub fn registration_message(workflow_data: &Option<WorkflowData>) -> (r: String)
    ensures
        r@ == match workflow_data {
            Some(wd) => {
                if wd.event.repository.owner.kind@ == "User"@ {
                    user_registration_message(wd.event.repository.owner.login@)
                } else if wd.event.repository.owner.kind@ == "Organization"@ {
                    organization_registration_message(wd.event.repository.owner.login@)
                } else {
                    generic_registration_message()
                }
            },
            None => generic_registration_message(),
        },
{
    proof {
        reveal_strlit("User");
        reveal_strlit("Organization");
    }
    match workflow_data {
        Some(wd) => {
            let owner = &wd.event.repository.owner;
            if crate::cli::str_equal(owner.kind.as_str(), "User") {
                "::error title=FlakeHub registration required.::Please create an account for ".to_owned().concat(
                    owner.login.as_str(),
                ).concat(" on FlakeHub.com to publish flakes.")
            } else if crate::cli::str_equal(owner.kind.as_str(), "Organization") {
                "::error title=FlakeHub registration required.::Please create an organization for ".to_owned().concat(
                    owner.login.as_str(),
                ).concat(" on FlakeHub.com to publish flakes.")
            } else {
                "::error title=FlakeHub registration required.::Unable to authenticate to FlakeHub. Individuals must register at FlakeHub.com; Organizations must create an organization at FlakeHub.com.".to_owned()
            }
        },
        None => {
            "::error title=FlakeHub registration required.::Unable to authenticate to FlakeHub. Individuals must register at FlakeHub.com; Organizations must create an organization at FlakeHub.com.".to_owned()
        },
    }
}

} // verus!
