//! The three-phase publish protocol against the registry: stage,
//! transfer, publish. The flow is strictly sequential, and a stage
//! conflict is a successful terminal state unless the caller opted
//! into strict conflict handling.

use vstd::prelude::*;

use crate::errors::PushError;
use crate::jsontext::{json_str_field, json_string_field};
use crate::strutil::{contains_seq, dec_str, u64_to_string};

verus! {

/// What a successful stage response carries: the presigned transfer
/// URL and the release identifier the publish phase needs.
pub struct StageResult {
    pub s3_upload_url: String,
    pub uuid: String,
}

/// The relative path of the stage request:
/// `upload/{name}/{version}/{length}/{hash}`.
pub open spec fn spec_stage_path(
    upload_name: Seq<char>,
    release_version: Seq<char>,
    tarball_len: nat,
    tarball_hash_base64: Seq<char>,
) -> Seq<char> {
    "upload/"@ + upload_name + "/"@ + release_version + "/"@ + dec_str(tarball_len) + "/"@
        + tarball_hash_base64
}

/// Build the relative path of the stage request.
pub fn stage_path(
    upload_name: &str,
    release_version: &str,
    tarball_len: usize,
    tarball_hash_base64: &str,
) -> (r: String)
    ensures
        r@ == spec_stage_path(
            upload_name@,
            release_version@,
            tarball_len as nat,
            tarball_hash_base64@,
        ),
{
    "upload/".to_owned().concat(upload_name).concat("/").concat(release_version).concat(
        "/",
    ).concat(u64_to_string(tarball_len as u64).as_str()).concat("/").concat(tarball_hash_base64)
}

/// Build the relative path of the publish request.
pub fn publish_path(release_uuid: &str) -> (r: String)
    ensures
        r@ == "publish/"@ + release_uuid@,
{
    "publish/".to_owned().concat(release_uuid)
}

/// Decode a stage response body: the presigned transfer URL and the
/// release identifier, both strings at top-level keys.
pub fn decode_stage_response(body: &str) -> (r: Option<StageResult>)
    ensures
        r is Some <==> (json_str_field(body@, "s3_upload_url"@) is Some && json_str_field(
            body@,
            "uuid"@,
        ) is Some),
        r matches Some(sr) ==> sr.s3_upload_url@ == json_str_field(
            body@,
            "s3_upload_url"@,
        ).unwrap() && sr.uuid@ == json_str_field(body@, "uuid"@).unwrap(),
{
    let s3_upload_url = match json_string_field(body, "s3_upload_url") {
        Some(u) => u,
        None => {
            return None;
        },
    };
    let uuid = match json_string_field(body, "uuid") {
        Some(u) => u,
        None => {
            return None;
        },
    };
    Some(StageResult { s3_upload_url, uuid })
}

/// Where the publish flow stands. `Conflicted` and `Failed` are
/// terminal error states; a lenient stage conflict jumps straight to
/// `Published`, the successful terminal state.
#[derive(Debug, Clone, Copy, PartialEq, Eq, Structural)]
pub enum FlowState {
    Built,
    Staged,
    Transferred,
    Published,
    Conflicted,
    Failed,
}

/// The state a stage response moves the flow to.
pub open spec fn stage_transition(status: u16, decoded: bool, strict: bool) -> FlowState {
    if status == 200 {
        if decoded {
            FlowState::Staged
        } else {
            FlowState::Failed
        }
    } else if status == 409 {
        if strict {
            FlowState::Conflicted
        } else {
            FlowState::Published
        }
    } else {
        FlowState::Failed
    }
}

/// What the caller must do after the stage response.
pub enum StageOutcome {
    /// Staging succeeded: transfer the tarball to the given target.
    Staged(StageResult),
    /// The release already exists and strict conflict handling is off:
    /// the run is complete, with nothing left to transfer or publish.
    AlreadyPublished,
    /// The stage phase failed; the error says how.
    Rejected(PushError),
}

/// The publish flow: its methods accept the registry's responses and
/// require the strictly sequential order stage → transfer → publish.
pub struct PublishFlow {
    pub state: FlowState,
}

impl PublishFlow {
    /// A freshly built flow, before any exchange with the registry.
    pub fn new() -> (r: PublishFlow)
        ensures
            r.state == FlowState::Built,
    {
        PublishFlow { state: FlowState::Built }
    }

    /// Interpret the response to the stage request.
    ///
    /// 200 with a decodable body moves to `Staged`; 409 is a conflict,
    /// terminal success unless strict conflict handling was requested;
    /// 401 and 400 surface the response body as `Unauthorized` and
    /// `BadRequest`; anything else is a generic failure naming the
    /// status and body.
    pub fn on_stage_response(
        &mut self,
        status: u16,
        decoded: Option<StageResult>,
        body: &str,
        error_if_release_conflicts: bool,
        upload_name: &str,
        release_version: &str,
    ) -> (r: StageOutcome)
        requires
            old(self).state == FlowState::Built,
        ensures
            final(self).state == stage_transition(
                status,
                decoded is Some,
                error_if_release_conflicts,
            ),
            status == 200 && decoded is Some ==> (r matches StageOutcome::Staged(sr) && sr
                == decoded.unwrap()),
            status == 200 && decoded is None ==> (r matches StageOutcome::Rejected(e) && e
                is Generic && e.spec_message() == "Decoding release metadata POST response"@),
            status == 409 && !error_if_release_conflicts ==> r is AlreadyPublished,
            status == 409 && error_if_release_conflicts ==> (r matches StageOutcome::Rejected(e)
                && (e matches PushError::Conflict { upload_name: u, release_version: v } && u@
                == upload_name@ && v@ == release_version@)),
            status == 401 ==> (r matches StageOutcome::Rejected(e) && (
            e matches PushError::Unauthorized(m) && m@ == body@)),
            status == 400 ==> (r matches StageOutcome::Rejected(e) && (
            e matches PushError::BadRequest(m) && m@ == body@)),
            !(status == 200 || status == 409 || status == 401 || status == 400) ==> (
            r matches StageOutcome::Rejected(e) && e is Generic && e.spec_message() == "Status "@
                + dec_str(status as nat) + " from metadata POST\n"@ + body@),
    {
        // The conflict branch is judged before any other status
        // handling: it is the one condition with two legal outcomes.
        if status == 409 {
            if error_if_release_conflicts {
                self.state = FlowState::Conflicted;
                StageOutcome::Rejected(
                    PushError::Conflict {
                        upload_name: upload_name.to_owned(),
                        release_version: release_version.to_owned(),
                    },
                )
            } else {
                self.state = FlowState::Published;
                StageOutcome::AlreadyPublished
            }
        } else if status == 200 {
            match decoded {
                Some(stage_result) => {
                    self.state = FlowState::Staged;
                    StageOutcome::Staged(stage_result)
                },
                None => {
                    self.state = FlowState::Failed;
                    StageOutcome::Rejected(
                        PushError::Generic("Decoding release metadata POST response".to_owned()),
                    )
                },
            }
        } else if status == 401 {
            self.state = FlowState::Failed;
            StageOutcome::Rejected(PushError::Unauthorized(body.to_owned()))
        } else if status == 400 {
            self.state = FlowState::Failed;
            StageOutcome::Rejected(PushError::BadRequest(body.to_owned()))
        } else {
            self.state = FlowState::Failed;
            StageOutcome::Rejected(
                PushError::Generic(
                    "Status ".to_owned().concat(u64_to_string(status as u64).as_str()).concat(
                        " from metadata POST\n",
                    ).concat(body),
                ),
            )
        }
    }

    /// Interpret the response to the tarball transfer: any 2xx status
    /// succeeds, anything else fails the flow.
    pub fn on_transfer_response(&mut self, status: u16) -> (r: Result<(), PushError>)
        requires
            old(self).state == FlowState::Staged,
        ensures
            r is Ok <==> 200 <= status < 300,
            r is Ok ==> final(self).state == FlowState::Transferred,
            r matches Err(e) ==> final(self).state == FlowState::Failed && e is Generic
                && e.spec_message() == "Got "@ + dec_str(status as nat)
                + " status from PUT request"@,
    {
        if 200 <= status && status < 300 {
            self.state = FlowState::Transferred;
            Ok(())
        } else {
            self.state = FlowState::Failed;
            Err(
                PushError::Generic(
                    "Got ".to_owned().concat(u64_to_string(status as u64).as_str()).concat(
                        " status from PUT request",
                    ),
                ),
            )
        }
    }

    /// Interpret the response to the publish request: only 200
    /// succeeds, anything else fails the flow with the body included.
    pub fn on_publish_response(&mut self, status: u16, body: &str) -> (r: Result<(), PushError>)
        requires
            old(self).state == FlowState::Transferred,
        ensures
            r is Ok <==> status == 200,
            r is Ok ==> final(self).state == FlowState::Published,
            r matches Err(e) ==> final(self).state == FlowState::Failed && e is Generic
                && e.spec_message() == "Status "@ + dec_str(status as nat)
                + " from publish POST\n"@ + body@,
    {
        if status == 200 {
            self.state = FlowState::Published;
            Ok(())
        } else {
            self.state = FlowState::Failed;
            Err(
                PushError::Generic(
                    "Status ".to_owned().concat(u64_to_string(status as u64).as_str()).concat(
                        " from publish POST\n",
                    ).concat(body),
                ),
            )
        }
    }
}

/// How the registry judged the bearer token: valid, rejected as a
/// client error, or some other failure.
#[derive(Debug, Clone, Copy, PartialEq, Eq, Structural)]
pub enum TokenStatusOutcome {
    Valid,
    ClientError,
    OtherError,
}

/// Classify the status of the token check that precedes staging.
pub fn interpret_token_status(status: u16) -> (r: TokenStatusOutcome)
    ensures
        r == TokenStatusOutcome::Valid <==> status < 400,
        r == TokenStatusOutcome::ClientError <==> 400 <= status < 500,
        r == TokenStatusOutcome::OtherError <==> 500 <= status,
{
    if status < 400 {
        TokenStatusOutcome::Valid
    } else if status < 500 {
        TokenStatusOutcome::ClientError
    } else {
        TokenStatusOutcome::OtherError
    }
}

/// Law: a stage conflict with strict conflict handling off is terminal
/// success. The flow lands in `Published` without passing `Staged` or
/// `Transferred`, and the transfer and publish steps require those
/// states, so neither can be invoked after such a conflict.
pub proof fn lemma_conflict_lenient_completes(status: u16, decoded: bool)
    requires
        status == 409,
    ensures
        stage_transition(status, decoded, false) == FlowState::Published,
        stage_transition(status, decoded, false) != FlowState::Staged,
        stage_transition(status, decoded, false) != FlowState::Transferred,
{
}

/// Law: a stage conflict with strict conflict handling on lands the
/// flow in the terminal `Conflicted` state, and the error it carries
/// names `{upload_name}/{release_version}`.
pub proof fn lemma_conflict_strict_fails(
    status: u16,
    decoded: bool,
    e: PushError,
    upload_name: Seq<char>,
    release_version: Seq<char>,
)
    requires
        status == 409,
        e matches PushError::Conflict { upload_name: u, release_version: v } && u@ == upload_name
            && v@ == release_version,
    ensures
        stage_transition(status, decoded, true) == FlowState::Conflicted,
        e.spec_message() == upload_name + "/"@ + release_version + " already exists"@,
        contains_seq(e.spec_message(), upload_name + "/"@ + release_version),
{
    let named = upload_name + "/"@ + release_version;
    let msg = e.spec_message();
    assert(msg.subrange(0, 0 + named.len() as int) =~= named);
    assert(0 + named.len() <= msg.len());
}

} // verus!
