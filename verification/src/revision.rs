//! Revision information for the release: the commit identifier that
//! HEAD resolves to and, when local history can be walked, the number
//! of reachable commits. A shallow checkout leaves the count absent,
//! and the caller must then obtain one from a remote source.

use vstd::prelude::*;

use crate::errors::PushError;

verus! {

/// What HEAD resolves to, as reported by the version-control layer.
pub enum HeadKind {
    /// A symbolic reference pointing directly at an object.
    SymbolicPeeled { id_hex: String },
    /// A symbolic reference pointing at another symbolic reference.
    SymbolicToSymbolic,
    /// A detached head pointing directly at an object.
    Detached { id_hex: String },
    /// A freshly initialized repository without commits.
    Unborn,
}

/// The resolved revision and, when available, the local commit count.
#[derive(Clone)]
pub struct RevisionInfo {
    pub commit_count: Option<u64>,
    pub revision: String,
}

pub open spec fn symbolic_head_error_message() -> Seq<char> {
    "Symbolic revision pointing to a symbolic revision is not supported at this time"@
}

pub open spec fn unborn_head_error_message() -> Seq<char> {
    "Newly initialized repository detected, at least one commit is necessary"@
}

/// Turn what HEAD resolved to into revision information. A direct or
/// detached object id is the revision; a symbolic chain and an unborn
/// branch are rejected. The commit count is whatever the history walk
/// yielded — `None` when the walk failed, as in a shallow clone.
pub fn revision_info_from_head(head: HeadKind, commit_count: Option<u64>) -> (r: Result<
    RevisionInfo,
    PushError,
>)
    ensures
        r is Ok <==> (head is SymbolicPeeled || head is Detached),
        head matches HeadKind::SymbolicPeeled { id_hex } ==> (r matches Ok(info)
            && info.revision@ == id_hex@ && info.commit_count == commit_count),
        head matches HeadKind::Detached { id_hex } ==> (r matches Ok(info) && info.revision@
            == id_hex@ && info.commit_count == commit_count),
        head is SymbolicToSymbolic ==> (r matches Err(e) && e is Configuration
            && e.spec_message() == symbolic_head_error_message()),
        head is Unborn ==> (r matches Err(e) && e is Configuration && e.spec_message()
            == unborn_head_error_message()),
{
    match head {
        HeadKind::SymbolicPeeled { id_hex } => Ok(
            RevisionInfo { commit_count, revision: id_hex },
        ),
        HeadKind::Detached { id_hex } => Ok(RevisionInfo { commit_count, revision: id_hex }),
        HeadKind::SymbolicToSymbolic => Err(
            PushError::Configuration(
                "Symbolic revision pointing to a symbolic revision is not supported at this time".to_owned(),
            ),
        ),
        HeadKind::Unborn => Err(
            PushError::Configuration(
                "Newly initialized repository detected, at least one commit is necessary".to_owned(),
            ),
        ),
    }
}

} // verus!
