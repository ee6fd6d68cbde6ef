//! Selection of the execution environment and of the bearer-token
//! strategy it calls for, and the pure parts of each strategy: which
//! secrets are required, what request to make, and how to read the
//! answer. The network calls themselves live outside the library.

use vstd::prelude::*;

use crate::errors::PushError;
use crate::jsontext::{json_is_valid, json_ok, json_str_field, json_string_field};
use crate::strutil::{i64_to_string, int_dec_str};

verus! {

/// Which environment hosts the run, decided once from process
/// environment markers.
#[derive(Debug, Clone, Copy, PartialEq, Eq, Structural)]
pub enum ExecutionEnvironment {
    GitHub,
    GitLab,
    LocalGitHub,
    Generic,
}

/// Classify the execution environment from the presence of the GitHub
/// Actions marker, the GitLab CI marker, and the generic OIDC token
/// slot, in that order of precedence. With none of them set, the run
/// is taken for a local development one.
pub fn execution_environment(
    github_action_set: bool,
    gitlab_ci_set: bool,
    oidc_token_set: bool,
) -> (r: ExecutionEnvironment)
    ensures
        r == if github_action_set {
            ExecutionEnvironment::GitHub
        } else if gitlab_ci_set {
            ExecutionEnvironment::GitLab
        } else if oidc_token_set {
            ExecutionEnvironment::Generic
        } else {
            ExecutionEnvironment::LocalGitHub
        },
{
    if github_action_set {
        ExecutionEnvironment::GitHub
    } else if gitlab_ci_set {
        ExecutionEnvironment::GitLab
    } else if oidc_token_set {
        ExecutionEnvironment::Generic
    } else {
        ExecutionEnvironment::LocalGitHub
    }
}

/// The data needed to later acquire a bearer token, one variant per
/// execution environment. Construction is cheap and performs no I/O;
/// the token itself is fetched as late as possible, after the
/// expensive packaging step, because CI-issued tokens are short-lived.
pub enum TokenContext {
    /// GitHub Actions: the registry host, whose host name becomes the
    /// OIDC audience.
    GitHub { host: String },
    /// GitLab CI: the token is read from a fixed environment slot.
    GitLab,
    /// Generic OIDC-capable CI: the token is read from another fixed
    /// environment slot.
    Generic,
    /// Local development against a mock issuer.
    LocalDev { issuer: String },
}

pub open spec fn jwt_issuer_conflict_message() -> Seq<char> {
    "specifying the jwt_issuer_uri when running in GitHub or GitLab is invalid"@
}

pub open spec fn unknown_environment_message() -> Seq<char> {
    "can't determine execution environment"@
}

/// Choose the token strategy for the detected environment. A mock
/// issuer may only be combined with a local development run; a local
/// run demands one.
pub fn select_token_context(
    exec_env: &ExecutionEnvironment,
    jwt_issuer_uri: &Option<String>,
    host: &str,
) -> (r: Result<TokenContext, PushError>)
    ensures
        r is Ok <==> (exec_env is LocalGitHub <==> jwt_issuer_uri is Some),
        exec_env is GitHub && jwt_issuer_uri is None ==> (r matches Ok(c) && (
        c matches TokenContext::GitHub { host: h } && h@ == host@)),
        exec_env is GitLab && jwt_issuer_uri is None ==> (r matches Ok(c)
            && c is GitLab),
        exec_env is Generic && jwt_issuer_uri is None ==> (r matches Ok(c)
            && c is Generic),
        exec_env is LocalGitHub && jwt_issuer_uri is Some ==> (r matches Ok(c) && (
        c matches TokenContext::LocalDev { issuer } && issuer@ == jwt_issuer_uri.unwrap()@)),
        !(exec_env is LocalGitHub) && jwt_issuer_uri is Some ==> (r matches Err(e) && e
            is Configuration && e.spec_message() == jwt_issuer_conflict_message()),
        exec_env is LocalGitHub && jwt_issuer_uri is None ==> (r matches Err(e) && e
            is Configuration && e.spec_message() == unknown_environment_message()),
{
    match (exec_env, jwt_issuer_uri) {
        (ExecutionEnvironment::GitHub, None) => Ok(
            TokenContext::GitHub { host: host.to_owned() },
        ),
        (ExecutionEnvironment::GitLab, None) => Ok(TokenContext::GitLab),
        (ExecutionEnvironment::Generic, None) => Ok(TokenContext::Generic),
        (ExecutionEnvironment::LocalGitHub, Some(u)) => Ok(
            TokenContext::LocalDev { issuer: u.clone() },
        ),
        (_, Some(_)) => Err(
            PushError::Configuration(
                "specifying the jwt_issuer_uri when running in GitHub or GitLab is invalid".to_owned(),
            ),
        ),
        (ExecutionEnvironment::LocalGitHub, None) => Err(
            PushError::Configuration("can't determine execution environment".to_owned()),
        ),
    }
}

/// The host part of a URL text, when the URL parses and has one.
pub uninterp spec fn host_of(url_text: Seq<char>) -> Option<Seq<char>>;

/// Relies on url::Url::parse and Url::host_str: the host part of the
/// URL, a function of the text alone.
#[verifier::external_body]
fn url_host_str(url_text: &str) -> (r: Option<String>)
    ensures
        r is Some <==> host_of(url_text@) is Some,
        r matches Some(h) ==> h@ == host_of(url_text@).unwrap(),
{
    url::Url::parse(url_text).ok().and_then(|u| u.host_str().map(|h| h.to_string()))
}

pub open spec fn bad_host_message() -> Seq<char> {
    "`--host` must contain a valid host (eg `https://api.flakehub.com` contains `api.flakehub.com`)"@
}

/// The OIDC audience for a GitHub Actions token request: the host
/// name of the registry URL.
pub fn github_token_audience(host: &str) -> (r: Result<String, PushError>)
    ensures
        r is Ok <==> host_of(host@) is Some,
        r matches Ok(a) ==> a@ == host_of(host@).unwrap(),
        r matches Err(e) ==> e is Configuration && e.spec_message() == bad_host_message(),
{
    match url_host_str(host) {
        Some(audience) => Ok(audience),
        None => Err(
            PushError::Configuration(
                "`--host` must contain a valid host (eg `https://api.flakehub.com` contains `api.flakehub.com`)".to_owned(),
            ),
        ),
    }
}

/// The message shown when the CI-injected request token is absent; it
/// names the job permission that provides it.
pub open spec fn missing_request_token_message() -> Seq<char> {
    "No `ACTIONS_ID_TOKEN_REQUEST_TOKEN` found, `flakehub-push` requires a JWT. To provide this, add `permissions` to your job, eg:\n\n# ...\njobs:\n    example:\n    runs-on: ubuntu-latest\n    permissions:\n        id-token: write # Authenticate against FlakeHub\n        contents: read\n    steps:\n    - uses: actions/checkout@v3\n    # ...\n"@
}

pub open spec fn missing_request_url_message() -> Seq<char> {
    "`ACTIONS_ID_TOKEN_REQUEST_URL` required if `ACTIONS_ID_TOKEN_REQUEST_TOKEN` is also present"@
}

/// The GET request that trades the CI-injected secrets for a bearer
/// token: the request URL with the audience appended, authenticated
/// with the request token.
pub struct GithubTokenRequest {
    pub url: String,
    pub bearer: String,
}

/// Build the GitHub Actions token request from the two CI-injected
/// secrets. Both must be present; the errors name what to configure.
/// No network is touched here: the caller performs the request.
pub fn github_token_request(
    request_token: Option<String>,
    request_url: Option<String>,
    audience: &str,
) -> (r: Result<GithubTokenRequest, PushError>)
    ensures
        r is Ok <==> request_token is Some && request_url is Some,
        r matches Ok(q) ==> q.url@ == request_url.unwrap()@ + "&audience="@ + audience@
            && q.bearer@ == request_token.unwrap()@,
        r matches Err(e) ==> e is Configuration && e.spec_message() == if request_token is None {
            missing_request_token_message()
        } else {
            missing_request_url_message()
        },
{
    let token = match request_token {
        Some(t) => t,
        None => {
            return Err(
                PushError::Configuration(
                    "No `ACTIONS_ID_TOKEN_REQUEST_TOKEN` found, `flakehub-push` requires a JWT. To provide this, add `permissions` to your job, eg:\n\n# ...\njobs:\n    example:\n    runs-on: ubuntu-latest\n    permissions:\n        id-token: write # Authenticate against FlakeHub\n        contents: read\n    steps:\n    - uses: actions/checkout@v3\n    # ...\n".to_owned(),
                ),
            );
        },
    };
    let url = match request_url {
        Some(u) => u,
        None => {
            return Err(
                PushError::Configuration(
                    "`ACTIONS_ID_TOKEN_REQUEST_URL` required if `ACTIONS_ID_TOKEN_REQUEST_TOKEN` is also present".to_owned(),
                ),
            );
        },
    };
    Ok(GithubTokenRequest { url: url.concat("&audience=").concat(audience), bearer: token })
}

/// Read the bearer token out of the token endpoint's JSON answer: the
/// string under the `value` key.
pub fn github_token_from_response(body: &str) -> (r: Result<String, PushError>)
    ensures
        r is Ok <==> json_str_field(body@, "value"@) is Some,
        r matches Ok(t) ==> t@ == json_str_field(body@, "value"@).unwrap(),
        r matches Err(e) ==> e is Generic && e.spec_message() == if !json_ok(body@) {
            "Getting JSON from Actions ID bearer token response"@
        } else {
            "Getting value from Actions ID bearer token response"@
        },
{
    match json_string_field(body, "value") {
        Some(token) => Ok(token),
        None => {
            if !json_is_valid(body) {
                Err(
                    PushError::Generic(
                        "Getting JSON from Actions ID bearer token response".to_owned(),
                    ),
                )
            } else {
                Err(
                    PushError::Generic(
                        "Getting value from Actions ID bearer token response".to_owned(),
                    ),
                )
            }
        },
    }
}

/// Unwrap the pre-issued GitLab CI JWT, read from its fixed
/// environment slot by the caller.
pub fn gitlab_runner_token(token: Option<String>) -> (r: Result<String, PushError>)
    ensures
        r is Ok <==> token is Some,
        r matches Ok(t) ==> t@ == token.unwrap()@,
        r matches Err(e) ==> e is Configuration && e.spec_message()
            == "Failed to get a JWT from GitLab. You must configure id_token in the jobs."@,
{
    match token {
        Some(t) => Ok(t),
        None => Err(
            PushError::Configuration(
                "Failed to get a JWT from GitLab. You must configure id_token in the jobs.".to_owned(),
            ),
        ),
    }
}

/// Unwrap the generic OIDC token, read from its fixed environment
/// slot by the caller.
pub fn generic_oidc_token(token: Option<String>) -> (r: Result<String, PushError>)
    ensures
        r is Ok <==> token is Some,
        r matches Ok(t) ==> t@ == token.unwrap()@,
        r matches Err(e) ==> e is Configuration && e.spec_message()
            == "missing FLAKEHUB_PUSH_OIDC_TOKEN environment variable"@,
{
    match token {
        Some(t) => Ok(t),
        None => Err(
            PushError::Configuration(
                "missing FLAKEHUB_PUSH_OIDC_TOKEN environment variable".to_owned(),
            ),
        ),
    }
}

/// Unwrap the GitHub API token that the GitHub and local development
/// paths demand before querying the GitHub API.
pub fn require_github_token(token: Option<String>, running_locally: bool) -> (r: Result<
    String,
    PushError,
>)
    ensures
        r is Ok <==> token is Some,
        r matches Ok(t) ==> t@ == token.unwrap()@,
        r matches Err(e) ==> e is Configuration && e.spec_message() == if running_locally {
            "failed to get github token when running locally"@
        } else {
            "failed to get github token when running in GitHub Actions"@
        },
{
    match token {
        Some(t) => Ok(t),
        None => {
            if running_locally {
                Err(
                    PushError::Configuration(
                        "failed to get github token when running locally".to_owned(),
                    ),
                )
            } else {
                Err(
                    PushError::Configuration(
                        "failed to get github token when running in GitHub Actions".to_owned(),
                    ),
                )
            }
        },
    }
}

/// The development claim set the local path POSTs to the mock issuer.
pub struct DevClaims {
    pub aud: String,
    pub iss: String,
    pub repository: String,
    pub repository_owner: String,
    pub repository_id: String,
    pub repository_owner_id: String,
}

/// Build the development claim set for the local path: a fixed
/// audience, the mock issuer, and the repository identity reported by
/// the GitHub API.
pub fn dev_claims(
    jwt_issuer_uri: &str,
    project_owner: &str,
    repository: &str,
    project_id: i64,
    owner_id: i64,
) -> (r: DevClaims)
    ensures
        r.aud@ == "flakehub-localhost"@,
        r.iss@ == jwt_issuer_uri@,
        r.repository@ == repository@,
        r.repository_owner@ == project_owner@,
        r.repository_id@ == int_dec_str(project_id as int),
        r.repository_owner_id@ == int_dec_str(owner_id as int),
{
    DevClaims {
        aud: "flakehub-localhost".to_owned(),
        iss: jwt_issuer_uri.to_owned(),
        repository: repository.to_owned(),
        repository_owner: project_owner.to_owned(),
        repository_id: i64_to_string(project_id),
        repository_owner_id: i64_to_string(owner_id),
    }
}

} // verus!
