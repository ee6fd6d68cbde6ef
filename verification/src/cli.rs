//! The pure half of command-line handling: the optional-value wrappers
//! the flags parse into, the value parsers themselves, and the
//! backfilling of unset flags from CI-provided environment values.

use vstd::prelude::*;

use crate::errors::PushError;
use crate::license::{spdx_accepted, spdx_is_valid};
use crate::strutil::{is_ascii_digit, opt_view};

verus! {

/// A string flag where the empty string means "not given".
#[derive(Clone, Debug)]
pub struct OptionString(pub Option<String>);

/// An unsigned integer flag where the empty string means "not given".
#[derive(Clone, Debug)]
pub struct OptionU64(pub Option<u64>);

/// Parse a string flag: empty means absent.
pub fn option_string_from_arg(val: String) -> (r: OptionString)
    ensures
        val@.len() == 0 ==> r.0 is None,
        val@.len() > 0 ==> (r.0 matches Some(s) && s@ == val@),
{
    if val.as_str().is_empty() {
        OptionString(None)
    } else {
        OptionString(Some(val))
    }
}

/// Compare two string slices by their characters.
pub fn str_equal(a: &str, b: &str) -> (r: bool)
    ensures
        r == (a@ == b@),
{
    let a_len = a.unicode_len();
    let b_len = b.unicode_len();
    if a_len != b_len {
        return false;
    }
    let mut i: usize = 0;
    while i < a_len
        invariant
            a_len == a@.len(),
            a@.len() == b@.len(),
            i <= a_len,
            forall|j: int| 0 <= j < i ==> a@[j] == b@[j],
        decreases a_len - i,
    {
        if a.get_char(i) != b.get_char(i) {
            return false;
        }
        i = i + 1;
    }
    proof {
        assert(a@ =~= b@);
    }
    true
}

pub open spec fn bool_arg_error_message(val: Seq<char>) -> Seq<char> {
    "`"@ + val + "` was not `true` or `false`\n"@
}

/// Parse a boolean flag: empty means false, otherwise the text must be
/// `true` or `false`.
pub fn bool_from_arg(val: &str) -> (r: Result<bool, PushError>)
    ensures
        val@.len() == 0 ==> r == Ok::<bool, PushError>(false),
        val@ == "true"@ ==> r == Ok::<bool, PushError>(true),
        val@ == "false"@ ==> r == Ok::<bool, PushError>(false),
        r is Ok <==> (val@.len() == 0 || val@ == "true"@ || val@ == "false"@),
        r matches Err(e) ==> e is Configuration && e.spec_message() == bool_arg_error_message(
            val@,
        ),
{
    proof {
        reveal_strlit("true");
        reveal_strlit("false");
    }
    if val.is_empty() {
        Ok(false)
    } else if str_equal(val, "true") {
        Ok(true)
    } else if str_equal(val, "false") {
        Ok(false)
    } else {
        Err(
            PushError::Configuration(
                "`".to_owned().concat(val).concat("` was not `true` or `false`\n"),
            ),
        )
    }
}

/// The outcome of scanning a digit run into a 64-bit value, mirroring
/// how the standard integer parser walks the text: the first invalid
/// character wins, and overflow is noticed at the digit that causes it.
pub enum ParseIntOutcome {
    Value(u64),
    InvalidDigit,
    PosOverflow,
}

/// Scan a digit run left to right, accumulating into a 64-bit value.
pub open spec fn u64_scan(s: Seq<char>, acc: u64) -> ParseIntOutcome
    decreases s.len(),
{
    if s.len() == 0 {
        ParseIntOutcome::Value(acc)
    } else if !is_ascii_digit(s[0]) {
        ParseIntOutcome::InvalidDigit
    } else if acc * 10 + (s[0] as int - '0' as int) > u64::MAX {
        ParseIntOutcome::PosOverflow
    } else {
        u64_scan(s.drop_first(), (acc * 10 + (s[0] as int - '0' as int)) as u64)
    }
}

/// The digits of an integer flag: the text with one leading `+`
/// removed, when present.
pub open spec fn int_arg_body(s: Seq<char>) -> Seq<char> {
    if s.len() > 0 && s[0] == '+' {
        s.drop_first()
    } else {
        s
    }
}

pub open spec fn int_empty_error_message() -> Seq<char> {
    "cannot parse integer from empty string\n"@
}

pub open spec fn int_invalid_error_message() -> Seq<char> {
    "invalid digit found in string\n"@
}

pub open spec fn int_overflow_error_message() -> Seq<char> {
    "number too large to fit in target type\n"@
}

/// Parse an unsigned integer flag: empty means absent; otherwise an
/// optional `+` followed by decimal digits whose value fits in 64
/// bits, with the same error classification the standard integer
/// parser makes.
pub fn option_u64_from_arg(val: &str) -> (r: Result<OptionU64, PushError>)
    ensures
        val@.len() == 0 ==> (r matches Ok(o) && o.0 is None),
        val@.len() > 0 && int_arg_body(val@).len() == 0 ==> (r matches Err(e) && e
            is Configuration && e.spec_message() == int_empty_error_message()),
        val@.len() > 0 && int_arg_body(val@).len() > 0 ==> match u64_scan(int_arg_body(val@), 0) {
            ParseIntOutcome::Value(v) => r matches Ok(o) && o.0 == Some(v),
            ParseIntOutcome::InvalidDigit => r matches Err(e) && e is Configuration
                && e.spec_message() == int_invalid_error_message(),
            ParseIntOutcome::PosOverflow => r matches Err(e) && e is Configuration
                && e.spec_message() == int_overflow_error_message(),
        },
{
    let chars = crate::strutil::chars_of(val);
    if chars.len() == 0 {
        return Ok(OptionU64(None));
    }
    let start: usize = if chars[0] == '+' {
        1
    } else {
        0
    };
    let ghost body = int_arg_body(val@);
    proof {
        if start == 1 {
            assert(body =~= chars@.skip(1));
        } else {
            assert(body =~= chars@.skip(0));
        }
    }
    if chars.len() == start {
        return Err(
            PushError::Configuration("cannot parse integer from empty string\n".to_owned()),
        );
    }
    let mut acc: u64 = 0;
    let mut i: usize = start;
    while i < chars.len()
        invariant
            chars@ == val@,
            val@.len() > 0,
            body == int_arg_body(val@),
            body.len() > 0,
            start <= i <= chars@.len(),
            body =~= chars@.skip(start as int),
            u64_scan(body, 0) == u64_scan(chars@.skip(i as int), acc),
        decreases chars@.len() - i,
    {
        let c = chars[i];
        proof {
            assert(chars@.skip(i as int)[0] == chars@[i as int]);
            assert(chars@.skip(i as int).drop_first() =~= chars@.skip(i + 1));
        }
        if !('0' <= c && c <= '9') {
            return Err(PushError::Configuration("invalid digit found in string\n".to_owned()));
        }
        let d = (c as u8) - ('0' as u8);
        let wide: u128 = (acc as u128) * 10 + (d as u128);
        if wide > u64::MAX as u128 {
            return Err(
                PushError::Configuration("number too large to fit in target type\n".to_owned()),
            );
        }
        acc = wide as u64;
        i = i + 1;
    }
    proof {
        assert(chars@.skip(chars@.len() as int) =~= Seq::<char>::empty());
    }
    Ok(OptionU64(Some(acc)))
}

pub open spec fn spdx_arg_error_message(val: Seq<char>) -> Seq<char> {
    "invalid SPDX license expression: "@ + val
}

/// Parse an SPDX flag: empty means absent, otherwise the text must be
/// a valid SPDX license expression and is kept as given.
pub fn option_spdx_from_arg(val: &str) -> (r: Result<OptionString, PushError>)
    ensures
        val@.len() == 0 ==> (r matches Ok(o) && o.0 is None),
        val@.len() > 0 && spdx_accepted(val@) ==> (r matches Ok(o) && (o.0 matches Some(s) && s@
            == val@)),
        val@.len() > 0 ==> (r is Ok <==> spdx_accepted(val@)),
        r matches Err(e) ==> e is Configuration && e.spec_message() == spdx_arg_error_message(
            val@,
        ),
{
    if val.is_empty() {
        Ok(OptionString(None))
    } else if spdx_is_valid(val) {
        Ok(OptionString(Some(val.to_owned())))
    } else {
        Err(
            PushError::Configuration(
                "invalid SPDX license expression: ".to_owned().concat(val),
            ),
        )
    }
}

/// An unset flag filled from an environment value, when one is there.
pub open spec fn backfilled(
    current: Option<Seq<char>>,
    env_val: Option<Seq<char>>,
) -> Option<Seq<char>> {
    if current is Some {
        current
    } else {
        env_val
    }
}

/// The command-line slots that CI environments can backfill.
pub struct CliBackfill {
    /// The git root directory, as given on the command line.
    pub git_root: OptionString,
    /// The repository identifier, `owner/project` or deeper.
    pub repository: OptionString,
    /// The tag the release is for.
    pub tag: OptionString,
}

impl CliBackfill {
    /// Fill unset slots from the GitHub Actions environment: the
    /// workspace directory, the repository, and the ref name.
    pub fn backfill_from_github_env(
        &mut self,
        github_workspace: Option<String>,
        github_repository: Option<String>,
        github_ref_name: Option<String>,
    )
        ensures
            opt_view(final(self).git_root.0) == backfilled(
                opt_view(old(self).git_root.0),
                opt_view(github_workspace),
            ),
            opt_view(final(self).repository.0) == backfilled(
                opt_view(old(self).repository.0),
                opt_view(github_repository),
            ),
            opt_view(final(self).tag.0) == backfilled(
                opt_view(old(self).tag.0),
                opt_view(github_ref_name),
            ),
    {
        if self.git_root.0.is_none() {
            if let Some(env_val) = github_workspace {
                self.git_root = OptionString(Some(env_val));
            }
        }
        if self.repository.0.is_none() {
            if let Some(env_val) = github_repository {
                self.repository = OptionString(Some(env_val));
            }
        }
        if self.tag.0.is_none() {
            if let Some(env_val) = github_ref_name {
                self.tag = OptionString(Some(env_val));
            }
        }
    }

    /// Fill unset slots from the GitLab CI environment: the project
    /// directory, the project identifier, and the commit ref name.
    pub fn backfill_from_gitlab_env(
        &mut self,
        ci_project_dir: Option<String>,
        ci_project_id: Option<String>,
        ci_commit_ref_name: Option<String>,
    )
        ensures
            opt_view(final(self).git_root.0) == backfilled(
                opt_view(old(self).git_root.0),
                opt_view(ci_project_dir),
            ),
            opt_view(final(self).repository.0) == backfilled(
                opt_view(old(self).repository.0),
                opt_view(ci_project_id),
            ),
            opt_view(final(self).tag.0) == backfilled(
                opt_view(old(self).tag.0),
                opt_view(ci_commit_ref_name),
            ),
    {
        if self.git_root.0.is_none() {
            if let Some(env_val) = ci_project_dir {
                self.git_root = OptionString(Some(env_val));
            }
        }
        if self.repository.0.is_none() {
            if let Some(env_val) = ci_project_id {
                self.repository = OptionString(Some(env_val));
            }
        }
        if self.tag.0.is_none() {
            if let Some(env_val) = ci_commit_ref_name {
                self.tag = OptionString(Some(env_val));
            }
        }
    }
}

} // verus!
