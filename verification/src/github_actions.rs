//! Output lines for the hosting CI platform: the release facts the run
//! exports, and the delimited key/value framing they are written in.

use uuid::Uuid;
use vstd::prelude::*;

use crate::strutil::{chars_of, contains_seq};

verus! {

/// Why a key/value pair could not be framed.
#[derive(Debug)]
pub enum OutputError {
    KeyContainsDelimiter,
    ValueContainsDelimiter,
}

impl OutputError {
    pub open spec fn spec_message(self) -> Seq<char> {
        match self {
            OutputError::KeyContainsDelimiter => "Key contains delimiter"@,
            OutputError::ValueContainsDelimiter => "Value contains delimiter"@,
        }
    }

    /// Render the error's message.
    pub fn message(&self) -> (r: String)
        ensures
            r@ == self.spec_message(),
    {
        match self {
            OutputError::KeyContainsDelimiter => "Key contains delimiter".to_owned(),
            OutputError::ValueContainsDelimiter => "Value contains delimiter".to_owned(),
        }
    }
}

/// Relies on uuid::Uuid::new_v4 and its hyphenated rendering: a fresh
/// random delimiter tag, 13 characters of prefix plus 36 of identifier.
/// Nothing more is promised of its content: the identifier is random.
#[verifier::external_body]
fn fresh_delimiter() -> (r: String)
    ensures
        r@.len() == 49,
{
    format!("ghadelimiter_{}", Uuid::new_v4())
}

/// The framed form of one output: `{key}<<{delimiter}\n{value}\n{delimiter}\n`.
pub open spec fn spec_escaped(key: Seq<char>, value: Seq<char>, delimiter: Seq<char>) -> Seq<
    char,
> {
    key + "<<"@ + delimiter + "\n"@ + value + "\n"@ + delimiter + "\n"@
}

/// Frame one key/value pair with the given delimiter. Neither the key
/// nor the value may contain the delimiter.
pub fn escape_key_value(key: &str, value: &str, delimiter: &str) -> (r: Result<
    String,
    OutputError,
>)
    ensures
        r is Ok <==> !contains_seq(key@, delimiter@) && !contains_seq(value@, delimiter@),
        r matches Ok(s) ==> s@ == spec_escaped(key@, value@, delimiter@),
        r matches Err(e) ==> e == (if contains_seq(key@, delimiter@) {
            OutputError::KeyContainsDelimiter
        } else {
            OutputError::ValueContainsDelimiter
        }),
{
    let key_chars = chars_of(key);
    let value_chars = chars_of(value);
    let delimiter_chars = chars_of(delimiter);
    if crate::strutil::contains_substring(&key_chars, &delimiter_chars) {
        return Err(OutputError::KeyContainsDelimiter);
    }
    if crate::strutil::contains_substring(&value_chars, &delimiter_chars) {
        return Err(OutputError::ValueContainsDelimiter);
    }
    Ok(
        key.to_owned().concat("<<").concat(delimiter).concat("\n").concat(value).concat(
            "\n",
        ).concat(delimiter).concat("\n"),
    )
}

/// Frame one key/value pair with a freshly drawn delimiter. The
/// delimiter is random, so success cannot be promised; what comes back
/// on success is the framing of the given pair with some delimiter
/// that occurs in neither half.
pub fn set_output_line(key: &str, value: &str) -> (r: Result<String, OutputError>)
    ensures
        r matches Ok(line) ==> exists|d: Seq<char>|
            {
                &&& !contains_seq(key@, d)
                &&& !contains_seq(value@, d)
                &&& line@ == #[trigger] spec_escaped(key@, value@, d)
            },
        r matches Err(e) ==> e is KeyContainsDelimiter || e is ValueContainsDelimiter,
{
    let delimiter = fresh_delimiter();
    let framed = escape_key_value(key, value, delimiter.as_str());
    proof {
        if framed is Ok {
            assert(framed.unwrap()@ == spec_escaped(key@, value@, delimiter@));
        }
    }
    framed
}

/// The four outputs a successful (or already-published) run exports:
/// the flake name, the version, and the at-least and exact flake
/// references.
pub fn release_output_pairs(upload_name: &str, release_version: &str) -> (r: Vec<
    (String, String),
>)
    ensures
        r@.len() == 4,
        r@[0].0@ == "flake_name"@ && r@[0].1@ == upload_name@,
        r@[1].0@ == "flake_version"@ && r@[1].1@ == release_version@,
        r@[2].0@ == "flakeref_at_least"@ && r@[2].1@ == upload_name@ + "/"@ + release_version@,
        r@[3].0@ == "flakeref_exact"@ && r@[3].1@ == upload_name@ + "/="@ + release_version@,
{
    let mut out: Vec<(String, String)> = Vec::new();
    out.push(("flake_name".to_owned(), upload_name.to_owned()));
    out.push(("flake_version".to_owned(), release_version.to_owned()));
    out.push(
        (
            "flakeref_at_least".to_owned(),
            upload_name.to_owned().concat("/").concat(release_version),
        ),
    );
    out.push(
        (
            "flakeref_exact".to_owned(),
            upload_name.to_owned().concat("/=").concat(release_version),
        ),
    );
    out
}

} // verus!
