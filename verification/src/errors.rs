//! The error taxonomy of the publish pipeline. Every failure is one of
//! a handful of kinds; the registry-reported kinds carry the response
//! body verbatim, and configuration failures carry a remediation hint.

use vstd::prelude::*;

verus! {

/// An error surfaced by the publish pipeline.
///
/// `Configuration` covers absent or malformed inputs and secrets;
/// `Unauthorized`, `Conflict` and `BadRequest` reflect the registry's
/// answer to the stage request; `Generic` wraps transport failures and
/// unexpected status codes with the name of the operation that failed.
#[derive(Debug, Clone)]
pub enum PushError {
    Configuration(String),
    Unauthorized(String),
    Conflict { upload_name: String, release_version: String },
    BadRequest(String),
    Generic(String),
}

impl PushError {
    /// The human-readable message for this error.
    pub open spec fn spec_message(self) -> Seq<char> {
        match self {
            PushError::Configuration(m) => m@,
            PushError::Unauthorized(m) => "Unauthorized: "@ + m@,
            PushError::Conflict { upload_name, release_version } => upload_name@ + "/"@
                + release_version@ + " already exists"@,
            PushError::BadRequest(m) => "Bad request: "@ + m@,
            PushError::Generic(m) => m@,
        }
    }

    /// Render the error's message.
    pub fn message(&self) -> (r: String)
        ensures
            r@ == self.spec_message(),
    {
        match self {
            PushError::Configuration(m) => m.clone(),
            PushError::Unauthorized(m) => "Unauthorized: ".to_owned().concat(m.as_str()),
            PushError::Conflict { upload_name, release_version } => upload_name.clone().concat(
                "/",
            ).concat(release_version.as_str()).concat(" already exists"),
            PushError::BadRequest(m) => "Bad request: ".to_owned().concat(m.as_str()),
            PushError::Generic(m) => m.clone(),
        }
    }

    /// Whether a bug report should be suggested for this error: the
    /// registry-reported kinds are expected outcomes and suggest none.
    pub fn should_suggest_issue(&self) -> (r: bool)
        ensures
            r == !(self is Unauthorized || self is Conflict || self is BadRequest),
    {
        match self {
            PushError::Unauthorized(_) | PushError::Conflict { .. } | PushError::BadRequest(_) => {
                false
            },
            PushError::Configuration(_) | PushError::Generic(_) => true,
        }
    }

    /// The single-line annotation a CI platform shows inline for this
    /// error, if this kind of error gets one.
    pub open spec fn spec_annotation(self) -> Option<Seq<char>> {
        match self {
            PushError::Unauthorized(m) => Some("::error title=Unauthorized::"@ + m@),
            PushError::Conflict { .. } => Some("::error title=Conflict::"@ + self.spec_message()),
            PushError::BadRequest(_) => Some("::error title=BadRequest::"@ + self.spec_message()),
            _ => None,
        }
    }

    /// Build the annotation line, when this error kind has one. The
    /// caller decides whether the platform accepts annotations at all.
    pub fn github_actions_annotation(&self) -> (r: Option<String>)
        ensures
            match self.spec_annotation() {
                Some(line) => r matches Some(s) && s@ == line,
                None => r is None,
            },
    {
        match self {
            PushError::Unauthorized(m) => Some(
                "::error title=Unauthorized::".to_owned().concat(m.as_str()),
            ),
            PushError::Conflict { .. } => Some(
                "::error title=Conflict::".to_owned().concat(self.message().as_str()),
            ),
            PushError::BadRequest(_) => Some(
                "::error title=BadRequest::".to_owned().concat(self.message().as_str()),
            ),
            PushError::Configuration(_) | PushError::Generic(_) => None,
        }
    }
}

} // verus!
