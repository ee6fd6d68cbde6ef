//! Resolution of the registry-facing version string: either an
//! explicit tag validated as SemVer, or a rolling-release version of
//! the form `0.{minor}.{commit_count}+rev-{revision}`.

use vstd::prelude::*;

use crate::errors::PushError;
use crate::strutil::{
    chars_of, dec_str, digit_val, is_ascii_digit, split_char, string_from_chars, u64_to_string,
};

verus! {

/// A nonempty run of decimal digits without a superfluous leading zero.
pub open spec fn digit_run_ok(s: Seq<char>) -> bool {
    &&& s.len() > 0
    &&& forall|i: int| 0 <= i < s.len() ==> is_ascii_digit(#[trigger] s[i])
    &&& (s[0] == '0' ==> s.len() == 1)
}

/// Numeric value of a digit sequence.
pub open spec fn dec_val(s: Seq<char>) -> nat
    decreases s.len(),
{
    if s.len() == 0 {
        0
    } else {
        (dec_val(s.drop_last()) * 10 + digit_val(s.last())) as nat
    }
}

/// A bare `major.minor.patch` version: exactly three digit runs
/// joined by dots, each without leading zeros and fitting in a u64.
pub open spec fn is_plain_triple(s: Seq<char>) -> bool {
    let parts = split_char(s, '.');
    &&& parts.len() == 3
    &&& forall|i: int|
        0 <= i < 3 ==> digit_run_ok(#[trigger] parts[i]) && dec_val(parts[i]) <= u64::MAX
}

/// The outer shape every accepted SemVer string has: three dotted
/// digit runs without leading zeros, then nothing or a `-` prerelease
/// or `+` build suffix.
pub open spec fn semver_shaped(s: Seq<char>) -> bool {
    exists|i: int, j: int, k: int|
        {
            &&& 0 < i && i + 1 < j && j + 1 < k && k <= s.len()
            &&& digit_run_ok(#[trigger] s.subrange(0, i))
            &&& s[i] == '.'
            &&& digit_run_ok(#[trigger] s.subrange(i + 1, j))
            &&& s[j] == '.'
            &&& digit_run_ok(#[trigger] s.subrange(j + 1, k))
            &&& (k == s.len() || s[k] == '-' || s[k] == '+')
        }
}

/// Whether the SemVer grammar accepts a string.
pub uninterp spec fn semver_accepted(s: Seq<char>) -> bool;

/// Relies on semver::Version::parse: it accepts exactly the SemVer
/// grammar — `major.minor.patch` as digit runs without leading zeros,
/// each fitting in a u64, optionally followed by a `-` prerelease
/// and/or `+` build suffix. A bare well-formed triple is accepted, and
/// everything accepted starts with such a dotted triple.
#[verifier::external_body]
fn semver_is_valid(s: &str) -> (r: bool)
    ensures
        r == semver_accepted(s@),
        is_plain_triple(s@) ==> r,
        r ==> semver_shaped(s@),
{
    semver::Version::parse(s).is_ok()
}

/// The tag with one leading `v` removed, when present.
pub open spec fn strip_v(s: Seq<char>) -> Seq<char> {
    if s.len() > 0 && s[0] == 'v' {
        s.drop_first()
    } else {
        s
    }
}

/// The version prefix of a rolling release: `0.{minor}`, with `0.1`
/// when no explicit rolling minor number was given.
pub open spec fn rolling_prefix(rolling_minor: Option<u64>) -> Seq<char> {
    match rolling_minor {
        Some(m) => "0."@ + dec_str(m as nat),
        None => "0.1"@,
    }
}

/// The version string resolution yields when it succeeds.
pub open spec fn spec_release_version(
    tag: Option<Seq<char>>,
    rolling: bool,
    rolling_minor: Option<u64>,
    commit_count: u64,
    revision: Seq<char>,
) -> Seq<char> {
    if rolling_minor is Some || rolling {
        rolling_prefix(rolling_minor) + "."@ + dec_str(commit_count as nat) + "+rev-"@ + revision
    } else {
        tag.unwrap()
    }
}

pub open spec fn rolling_minor_error_message() -> Seq<char> {
    "You must enable `rolling` to upload a release with a specific `rolling-minor`."@
}

pub open spec fn semver_error_message(tag: Seq<char>) -> Seq<char> {
    "Failed to parse version `"@ + tag + "` as semver, see https://semver.org/ for specifications"@
}

pub open spec fn no_version_source_error_message() -> Seq<char> {
    "Could not determine tag or rolling minor version, `--tag`, `GITHUB_REF_NAME`, or `--rolling-minor` must be set"@
}

pub open spec fn no_commit_count_error_message() -> Seq<char> {
    "Could not determine commit count, this is normally determined via the `--git-root` argument or via the GitHub API"@
}

/// Compute the registry-facing version string.
///
/// A rolling minor number demands the rolling flag. A rolling release
/// is `0.{minor}.{count}+rev-{revision}`. Otherwise the tag, stripped
/// of a leading `v`, must parse as SemVer, and is returned as given
/// (with the `v`). A missing commit count is an error in every branch
/// that gets that far.
pub fn release_version(
    tag: &Option<String>,
    rolling: bool,
    rolling_minor: &Option<u64>,
    commit_count: Option<u64>,
    revision: &str,
) -> (r: Result<String, PushError>)
    ensures
        r is Ok <==> {
            &&& !(rolling_minor is Some && !rolling)
            &&& !(rolling_minor is None && !rolling && tag is None)
            &&& (rolling_minor is None && !rolling && tag is Some ==> semver_accepted(
                strip_v(tag.unwrap()@),
            ))
            &&& commit_count is Some
        },
        r matches Ok(v) ==> v@ == spec_release_version(
            match tag {
                Some(t) => Some(t@),
                None => None,
            },
            rolling,
            *rolling_minor,
            commit_count.unwrap(),
            revision@,
        ),
        r matches Err(e) ==> e is Configuration && e.spec_message() == {
            if rolling_minor is Some && !rolling {
                rolling_minor_error_message()
            } else if rolling_minor is None && !rolling && tag is Some && !semver_accepted(
                strip_v(tag.unwrap()@),
            ) {
                semver_error_message(tag.unwrap()@)
            } else if rolling_minor is None && !rolling && tag is None {
                no_version_source_error_message()
            } else {
                no_commit_count_error_message()
            }
        },
        // A tag of the bare `major.minor.patch` form is always accepted
        // and returned verbatim when no rolling scheme is in play.
        (rolling_minor is None && !rolling && commit_count is Some && tag is Some
            && is_plain_triple(strip_v(tag.unwrap()@))) ==> (r matches Ok(v) && v@
            == tag.unwrap()@),
        // A tag without the dotted-triple shape is always rejected
        // when no rolling scheme is in play.
        (rolling_minor is None && !rolling && tag is Some && !semver_shaped(
            strip_v(tag.unwrap()@),
        )) ==> (r matches Err(e) && e.spec_message() == semver_error_message(tag.unwrap()@)),
{
    let prefix_or_tag: String = match (rolling_minor, tag) {
        (Some(_), _) if !rolling => {
            return Err(
                PushError::Configuration(
                    "You must enable `rolling` to upload a release with a specific `rolling-minor`.".to_owned(),
                ),
            );
        },
        (Some(minor), _) => "0.".to_owned().concat(u64_to_string(*minor).as_str()),
        (None, _) if rolling => "0.1".to_owned(),
        (None, Some(tag_string)) => {
            let tag_chars = chars_of(tag_string.as_str());
            let stripped: Vec<char> = if tag_chars.len() > 0 && tag_chars[0] == 'v' {
                let mut rest: Vec<char> = Vec::new();
                let mut i: usize = 1;
                while i < tag_chars.len()
                    invariant
                        1 <= i <= tag_chars@.len(),
                        rest@ =~= tag_chars@.subrange(1, i as int),
                    decreases tag_chars@.len() - i,
                {
                    rest.push(tag_chars[i]);
                    proof {
                        assert(tag_chars@.subrange(1, i + 1) =~= tag_chars@.subrange(
                            1,
                            i as int,
                        ).push(tag_chars@[i as int]));
                    }
                    i = i + 1;
                }
                proof {
                    assert(tag_chars@.subrange(1, tag_chars@.len() as int) =~= tag_chars@
                        .drop_first());
                }
                rest
            } else {
                tag_chars
            };
            let stripped_string = string_from_chars(&stripped);
            proof {
                assert(stripped_string@ == strip_v(tag_string@));
            }
            if semver_is_valid(stripped_string.as_str()) {
                tag_string.clone()
            } else {
                return Err(
                    PushError::Configuration(
                        "Failed to parse version `".to_owned().concat(tag_string.as_str()).concat(
                            "` as semver, see https://semver.org/ for specifications",
                        ),
                    ),
                );
            }
        },
        (None, None) => {
            return Err(
                PushError::Configuration(
                    "Could not determine tag or rolling minor version, `--tag`, `GITHUB_REF_NAME`, or `--rolling-minor` must be set".to_owned(),
                ),
            );
        },
    };
    let count: u64 = match commit_count {
        Some(c) => c,
        None => {
            return Err(
                PushError::Configuration(
                    "Could not determine commit count, this is normally determined via the `--git-root` argument or via the GitHub API".to_owned(),
                ),
            );
        },
    };
    if rolling_minor.is_some() || rolling {
        Ok(
            prefix_or_tag.concat(".").concat(u64_to_string(count).as_str()).concat(
                "+rev-",
            ).concat(revision),
        )
    } else {
        Ok(prefix_or_tag)
    }
}

} // verus!
