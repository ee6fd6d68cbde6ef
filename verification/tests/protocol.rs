use flakehub_push::protocol::{
    decode_stage_response, interpret_token_status, publish_path, stage_path, FlowState,
    PublishFlow, StageOutcome, TokenStatusOutcome,
};

#[test]
fn stage_path_format() {
    let p = stage_path("owner/project", "0.1.5+rev-abc", 1234, "aGFzaA==");
    assert_eq!(p, "upload/owner/project/0.1.5+rev-abc/1234/aGFzaA==");
}

#[test]
fn publish_path_format() {
    assert_eq!(
        publish_path("0192a1b2-0000-7000-8000-000000000000"),
        "publish/0192a1b2-0000-7000-8000-000000000000"
    );
}

#[test]
fn decode_stage_response_reads_both_fields() {
    let body = r#"{"s3_upload_url":"https://bucket/put","uuid":"abc-123"}"#;
    let sr = decode_stage_response(body).unwrap();
    assert_eq!(sr.s3_upload_url, "https://bucket/put");
    assert_eq!(sr.uuid, "abc-123");
    assert!(decode_stage_response(r#"{"uuid":"abc-123"}"#).is_none());
    assert!(decode_stage_response("not json").is_none());
}

#[test]
fn stage_ok_proceeds_to_transfer_and_publish() {
    let mut flow = PublishFlow::new();
    let body = r#"{"s3_upload_url":"https://bucket/put","uuid":"abc-123"}"#;
    let outcome = flow.on_stage_response(200, decode_stage_response(body), body, false, "o/p", "v1.2.3");
    match outcome {
        StageOutcome::Staged(sr) => assert_eq!(sr.uuid, "abc-123"),
        _ => panic!("expected Staged"),
    }
    assert_eq!(flow.state, FlowState::Staged);
    flow.on_transfer_response(200).unwrap();
    assert_eq!(flow.state, FlowState::Transferred);
    flow.on_publish_response(200, "").unwrap();
    assert_eq!(flow.state, FlowState::Published);
}

#[test]
fn stage_undecodable_body_fails() {
    let mut flow = PublishFlow::new();
    let outcome = flow.on_stage_response(200, None, "garbage", false, "o/p", "v1");
    match outcome {
        StageOutcome::Rejected(e) => {
            assert_eq!(e.message(), "Decoding release metadata POST response")
        },
        _ => panic!("expected Rejected"),
    }
    assert_eq!(flow.state, FlowState::Failed);
}

#[test]
fn stage_conflict_lenient_is_terminal_success() {
    let mut flow = PublishFlow::new();
    let outcome = flow.on_stage_response(409, None, "", false, "o/p", "v1.2.3");
    assert!(matches!(outcome, StageOutcome::AlreadyPublished));
    // The flow is complete: it never passes the states that the
    // transfer and publish steps demand.
    assert_eq!(flow.state, FlowState::Published);
}

#[test]
fn stage_conflict_strict_is_an_error_naming_the_release() {
    let mut flow = PublishFlow::new();
    let outcome = flow.on_stage_response(409, None, "", true, "o/p", "v1.2.3");
    match outcome {
        StageOutcome::Rejected(e) => {
            assert_eq!(e.message(), "o/p/v1.2.3 already exists");
            assert!(e.message().contains("o/p/v1.2.3"));
        },
        _ => panic!("expected Rejected"),
    }
    assert_eq!(flow.state, FlowState::Conflicted);
}

#[test]
fn stage_unauthorized_and_bad_request_carry_the_body() {
    let mut flow = PublishFlow::new();
    match flow.on_stage_response(401, None, "who are you", false, "o/p", "v1") {
        StageOutcome::Rejected(e) => assert_eq!(e.message(), "Unauthorized: who are you"),
        _ => panic!("expected Rejected"),
    }
    let mut flow = PublishFlow::new();
    match flow.on_stage_response(400, None, "bad shape", false, "o/p", "v1") {
        StageOutcome::Rejected(e) => assert_eq!(e.message(), "Bad request: bad shape"),
        _ => panic!("expected Rejected"),
    }
}

#[test]
fn stage_other_status_is_generic() {
    let mut flow = PublishFlow::new();
    match flow.on_stage_response(503, None, "down", false, "o/p", "v1") {
        StageOutcome::Rejected(e) => {
            assert_eq!(e.message(), "Status 503 from metadata POST\ndown")
        },
        _ => panic!("expected Rejected"),
    }
    assert_eq!(flow.state, FlowState::Failed);
}

#[test]
fn transfer_accepts_any_2xx_only() {
    let mut flow = PublishFlow::new();
    flow.on_stage_response(
        200,
        decode_stage_response(r#"{"s3_upload_url":"u","uuid":"i"}"#),
        "",
        false,
        "o/p",
        "v1",
    );
    assert!(flow.on_transfer_response(204).is_ok());

    let mut flow = PublishFlow::new();
    flow.on_stage_response(
        200,
        decode_stage_response(r#"{"s3_upload_url":"u","uuid":"i"}"#),
        "",
        false,
        "o/p",
        "v1",
    );
    let e = flow.on_transfer_response(403).err().unwrap();
    assert_eq!(e.message(), "Got 403 status from PUT request");
    assert_eq!(flow.state, FlowState::Failed);
}

#[test]
fn publish_accepts_200_only() {
    let mut flow = PublishFlow::new();
    flow.on_stage_response(
        200,
        decode_stage_response(r#"{"s3_upload_url":"u","uuid":"i"}"#),
        "",
        false,
        "o/p",
        "v1",
    );
    flow.on_transfer_response(200).unwrap();
    let e = flow.on_publish_response(500, "boom").err().unwrap();
    assert_eq!(e.message(), "Status 500 from publish POST\nboom");
    assert_eq!(flow.state, FlowState::Failed);
}

#[test]
fn token_status_classification() {
    assert_eq!(interpret_token_status(200), TokenStatusOutcome::Valid);
    assert_eq!(interpret_token_status(399), TokenStatusOutcome::Valid);
    assert_eq!(interpret_token_status(401), TokenStatusOutcome::ClientError);
    assert_eq!(interpret_token_status(499), TokenStatusOutcome::ClientError);
    assert_eq!(interpret_token_status(500), TokenStatusOutcome::OtherError);
}
