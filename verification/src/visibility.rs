//! The visibility of a published release, and how it is chosen
//! from the two command-line slots that can carry it.

use vstd::prelude::*;

verus! {

/// Visibility of a release on the registry. `Hidden` is a
/// backwards-compatible alias of `Unlisted` and renders the same way.
#[derive(Debug, Clone, Copy, PartialEq, Eq, Structural)]
pub enum Visibility {
    Public,
    Unlisted,
    Hidden,
    Private,
}

impl Visibility {
    /// The lowercase name sent to the registry; `Hidden` renders as `unlisted`.
    pub open spec fn spec_name(self) -> Seq<char> {
        match self {
            Visibility::Public => "public"@,
            Visibility::Hidden | Visibility::Unlisted => "unlisted"@,
            Visibility::Private => "private"@,
        }
    }

    /// Render the visibility as the registry-facing lowercase string.
    pub fn name(&self) -> (r: String)
        ensures
            r@ == self.spec_name(),
    {
        match self {
            Visibility::Public => "public".to_owned(),
            Visibility::Hidden | Visibility::Unlisted => "unlisted".to_owned(),
            Visibility::Private => "private".to_owned(),
        }
    }
}

/// Choose the requested visibility: the alternate slot wins over the
/// primary one, and it is an error when neither is set.
pub fn resolve_visibility(alt: Option<Visibility>, primary: Option<Visibility>) -> (r: Option<
    Visibility,
>)
    ensures
        r == if alt is Some {
            alt
        } else {
            primary
        },
{
    match (alt, primary) {
        (Some(v), _) => Some(v),
        (None, Some(v)) => Some(v),
        (None, None) => None,
    }
}

} // verus!
