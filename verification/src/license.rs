//! Validation of SPDX license expressions. The grammar lives in the
//! spdx crate; the library relies on it through one named result.

use vstd::prelude::*;

verus! {

/// Whether the SPDX expression grammar accepts a string.
pub uninterp spec fn spdx_accepted(s: Seq<char>) -> bool;

/// Relies on spdx::Expression::parse: whether the text is a valid
/// SPDX license expression, a function of the text alone.
#[verifier::external_body]
pub(crate) fn spdx_is_valid(s: &str) -> (r: bool)
    ensures
        r == spdx_accepted(s@),
{
    spdx::Expression::parse(s).is_ok()
}

} // verus!
