use appcore::api::decisions::{
    auth_gate, authorize_command, command_refusal, authorize_query, authorize_status, bearer_token, query_dispatch_failure, query_outcome, query_refusal, QueryAuditOutcome, QueryDispatch, command_policy_refusal, is_runtime_query, query_limit,
    query_validation_status, AuthGate, TokenVerdict,
};
use appcore::{
    ApiMethod, ApiRequest, ApiResponse, CommandCapabilityPolicyError, CommandRequest, CommandRequestValidationError,
    CommandResponse, CommandResponseEvent, HttpApiConfig, QueryRequest, QueryRequestValidationError, QueryResponse,
};

#[test]
fn api_request_basico() {
    let req = ApiRequest { method: ApiMethod::Query, path: "/api/query/runtime.test".to_string(), payload: vec![1] };
    assert_eq!(req.method, ApiMethod::Query);
    assert_eq!(req.path, "/api/query/runtime.test");
}

#[test]
fn api_response_basico() {
    let resp = ApiResponse { status_code: 200, payload: vec![2] };
    assert_eq!(resp.status_code, 200);
    assert_eq!(resp.payload, vec![2]);
}

fn valid_command() -> CommandRequest {
    CommandRequest {
        command_name: "runtime.ping".to_string(),
        command_id: "cmd-1".to_string(),
        idempotency_key: Some("idemp-1".to_string()),
        payload: "ok".to_string(),
    }
}

#[test]
fn request_validation_rules() {
    let valid = valid_command();
    assert!(valid.validate(65_536).is_ok());

    let empty_name = CommandRequest { command_name: "".to_string(), ..valid.clone() };
    assert_eq!(empty_name.validate(65_536), Err(CommandRequestValidationError::EmptyCommandName));

    let empty_id = CommandRequest { command_id: "".to_string(), ..valid.clone() };
    assert_eq!(empty_id.validate(65_536), Err(CommandRequestValidationError::EmptyCommandId));

    let invalid_name = CommandRequest { command_name: "runtime ping".to_string(), ..valid.clone() };
    assert_eq!(invalid_name.validate(65_536), Err(CommandRequestValidationError::InvalidCommandName));

    let invalid_key = CommandRequest { idempotency_key: Some("".to_string()), ..valid.clone() };
    assert_eq!(invalid_key.validate(65_536), Err(CommandRequestValidationError::InvalidIdempotencyKey));

    let missing_key = CommandRequest { command_name: "runtime.update".to_string(), idempotency_key: None, ..valid.clone() };
    assert_eq!(missing_key.validate(65_536), Err(CommandRequestValidationError::MissingIdempotencyKey));

    let too_large = CommandRequest { payload: "x".repeat(9), ..valid };
    assert_eq!(too_large.validate(8), Err(CommandRequestValidationError::PayloadTooLarge));
}

#[test]
fn command_request_validation_rules() {
    let valid = valid_command();
    assert!(valid.validate(65_536).is_ok());
    let empty_name = CommandRequest { command_name: "".to_string(), ..valid.clone() };
    assert_eq!(empty_name.validate(65_536), Err(CommandRequestValidationError::EmptyCommandName));
    let empty_id = CommandRequest { command_id: "".to_string(), ..valid.clone() };
    assert_eq!(empty_id.validate(65_536), Err(CommandRequestValidationError::EmptyCommandId));
    let invalid_name = CommandRequest { command_name: "runtime ping".to_string(), ..valid.clone() };
    assert_eq!(invalid_name.validate(65_536), Err(CommandRequestValidationError::InvalidCommandName));
    let invalid_key = CommandRequest { idempotency_key: Some("".to_string()), ..valid.clone() };
    assert_eq!(invalid_key.validate(65_536), Err(CommandRequestValidationError::InvalidIdempotencyKey));
    let missing_key = CommandRequest { command_name: "runtime.update".to_string(), idempotency_key: None, ..valid.clone() };
    assert_eq!(missing_key.validate(65_536), Err(CommandRequestValidationError::MissingIdempotencyKey));
    let too_large = CommandRequest { payload: "x".repeat(9), ..valid };
    assert_eq!(too_large.validate(8), Err(CommandRequestValidationError::PayloadTooLarge));
}

#[test]
fn command_validation_covers_every_error() {
    let valid = valid_command();
    let blank_name = CommandRequest { command_name: " \t ".to_string(), ..valid.clone() };
    assert_eq!(blank_name.validate(10), Err(CommandRequestValidationError::EmptyCommandName));
    let bad_id = CommandRequest { command_id: "cmd\t1".to_string(), ..valid.clone() };
    assert_eq!(bad_id.validate(10), Err(CommandRequestValidationError::InvalidCommandId));
    let long_name = CommandRequest { command_name: "a".repeat(129), ..valid.clone() };
    assert_eq!(long_name.validate(10), Err(CommandRequestValidationError::InvalidCommandName));
    let limit_name = CommandRequest { command_name: "a".repeat(128), ..valid.clone() };
    assert!(limit_name.validate(10).is_ok());
    let ping_without_key = CommandRequest { idempotency_key: None, ..valid.clone() };
    assert!(ping_without_key.validate(10).is_ok());
    let bad_key = CommandRequest { idempotency_key: Some("k/1".to_string()), ..valid.clone() };
    assert_eq!(bad_key.validate(10), Err(CommandRequestValidationError::InvalidIdempotencyKey));
    let exact = CommandRequest { payload: "é".to_string(), ..valid };
    assert!(exact.validate(2).is_ok());
    assert_eq!(exact.validate(1), Err(CommandRequestValidationError::PayloadTooLarge));
}

#[test]
fn payload_bytes_exposes_utf8_bytes() {
    let req = CommandRequest {
        command_name: "runtime.ping".to_string(),
        command_id: "cmd-1".to_string(),
        idempotency_key: None,
        payload: "hello".to_string(),
    };
    assert_eq!(req.payload_bytes(), b"hello");
}

#[test]
fn response_helpers_work() {
    let accepted = CommandResponse::accepted(vec![CommandResponseEvent {
        event_name: "runtime.pong".to_string(),
        event_id: "evt-1".to_string(),
    }]);
    assert!(accepted.accepted);
    assert_eq!(accepted.events.len(), 1);

    let rejected = CommandResponse::rejected("nope");
    assert!(!rejected.accepted);
    assert_eq!(rejected.message.as_deref(), Some("nope"));
}

#[test]
fn http_api_config_default() {
    let cfg = HttpApiConfig::default();
    assert_eq!(cfg.host, "127.0.0.1");
    assert_eq!(cfg.port, 8080);
    assert!(!cfg.enabled);
    assert_eq!(cfg.max_payload_bytes, 65_536);
}

fn object_with(key: &str, value: serde_json::Value) -> serde_json::Value {
    let mut map = serde_json::Map::new();
    map.insert(key.to_string(), value);
    serde_json::Value::Object(map)
}

#[test]
fn query_request_validation_rules() {
    let valid = QueryRequest {
        query_name: "runtime.status".to_string(),
        query_id: "qry-1".to_string(),
        payload: serde_json::Value::Object(serde_json::Map::new()),
    };
    assert!(valid.validate(1024).is_ok());
    assert_eq!(
        QueryRequest { query_name: "".to_string(), ..valid.clone() }.validate(1024),
        Err(QueryRequestValidationError::EmptyQueryName)
    );
    assert_eq!(
        QueryRequest { query_id: "".to_string(), ..valid.clone() }.validate(1024),
        Err(QueryRequestValidationError::EmptyQueryId)
    );
    assert_eq!(
        QueryRequest { query_name: "runtime status".to_string(), ..valid.clone() }.validate(1024),
        Err(QueryRequestValidationError::InvalidQueryName)
    );
    assert_eq!(
        QueryRequest { payload: object_with("x", serde_json::Value::String("123456789".to_string())), ..valid }
            .validate(8),
        Err(QueryRequestValidationError::PayloadTooLarge)
    );
}

#[test]
fn query_response_helpers() {
    let ok = QueryResponse::ok(object_with("a", serde_json::Value::from(1)));
    assert!(ok.ok);
    let rejected = QueryResponse::rejected("no");
    assert!(!rejected.ok);
    assert_eq!(rejected.payload, serde_json::Value::Object(serde_json::Map::new()));
    assert_eq!(serde_json::to_vec(&rejected.payload).unwrap(), b"{}".to_vec());
}

#[test]
fn query_payload_bytes_are_its_json_encoding() {
    let request = QueryRequest {
        query_name: "note.get".to_string(),
        query_id: "q".to_string(),
        payload: object_with("a", serde_json::Value::from(1)),
    };
    assert_eq!(request.payload_bytes(), b"{\"a\":1}".to_vec());
}

#[test]
fn query_statuses_and_runtime_names() {
    assert_eq!(query_validation_status(QueryRequestValidationError::PayloadTooLarge), 413);
    assert_eq!(query_validation_status(QueryRequestValidationError::InvalidQueryId), 400);
    assert!(is_runtime_query("runtime.audit"));
    assert!(!is_runtime_query("note.get"));
}

#[test]
fn query_limit_defaults_caps_and_refuses_zero() {
    assert_eq!(query_limit(None), Ok(20));
    assert_eq!(query_limit(Some(None)), Err(400));
    assert_eq!(query_limit(Some(Some(0))), Err(400));
    assert_eq!(query_limit(Some(Some(5000))), Ok(1000));
    assert_eq!(query_limit(Some(Some(7))), Ok(7));
}

#[test]
fn bearer_tokens_need_exactly_one_header() {
    assert_eq!(bearer_token(&["Bearer ok"]), Some("ok".to_string()));
    assert_eq!(bearer_token(&["Bearer "]), None);
    assert_eq!(bearer_token(&["Basic ok"]), None);
    assert_eq!(bearer_token(&["Bearer a", "Bearer b"]), None);
    assert_eq!(bearer_token(&[]), None);
}

#[test]
fn authorization_decisions() {
    assert_eq!(auth_gate(false, false, false), AuthGate::Open);
    assert_eq!(auth_gate(true, false, true), AuthGate::MissingToken);
    assert_eq!(auth_gate(true, true, false), AuthGate::NoVerifier);
    assert_eq!(auth_gate(true, true, true), AuthGate::Verify);
    assert_eq!(authorize_status(false, true, true, TokenVerdict::Forbidden), Err(403));
    assert_eq!(authorize_status(false, false, true, TokenVerdict::Allowed), Err(401));
    assert_eq!(authorize_status(true, true, true, TokenVerdict::Unauthorized), Ok(false));
    assert_eq!(authorize_status(true, true, true, TokenVerdict::Allowed), Ok(true));
    assert_eq!(
        command_policy_refusal(&CommandCapabilityPolicyError::Rejected("custom".to_string())),
        (403, "custom".to_string())
    );
    assert_eq!(
        command_policy_refusal(&CommandCapabilityPolicyError::StaleEpoch),
        (409, "leader_lease_stale_epoch".to_string())
    );
}

#[test]
fn bearer_authorization_messages() {
    assert_eq!(authorize_query(false, false, false, TokenVerdict::Unauthorized), None);
    assert_eq!(authorize_query(true, false, true, TokenVerdict::Allowed), Some((401, "missing bearer token")));
    assert_eq!(authorize_query(true, true, false, TokenVerdict::Allowed), Some((401, "token verifier not configured")));
    assert_eq!(authorize_query(true, true, true, TokenVerdict::Allowed), None);
    assert_eq!(authorize_query(true, true, true, TokenVerdict::Forbidden), Some((403, "query not allowed for token")));
    assert_eq!(authorize_query(true, true, true, TokenVerdict::InvalidFormat), Some((401, "invalid bearer token")));
    assert_eq!(
        authorize_command(true, true, true, TokenVerdict::Forbidden),
        Some((403, "command not allowed for token"))
    );
    assert_eq!(authorize_command(true, true, true, TokenVerdict::Unauthorized), Some((401, "invalid bearer token")));
    assert_eq!(authorize_command(false, true, true, TokenVerdict::Forbidden), None);
}

#[test]
fn query_route_refusals_follow_the_stage_order() {
    let ok: Result<(), QueryRequestValidationError> = Ok(());
    let refused_policy = Some(Err(CommandCapabilityPolicyError::ReadOnly));
    assert_eq!(
        query_refusal(
            &Err(QueryRequestValidationError::PayloadTooLarge),
            false,
            true,
            false,
            false,
            TokenVerdict::Unauthorized,
            "app.report",
            &refused_policy,
        ),
        Some((413, "query request invalid"))
    );
    assert_eq!(
        query_refusal(&ok, false, true, false, false, TokenVerdict::Unauthorized, "app.report", &refused_policy),
        Some((400, "trace context invalid"))
    );
    assert_eq!(
        query_refusal(&ok, true, true, false, false, TokenVerdict::Unauthorized, "app.report", &refused_policy),
        Some((401, "missing bearer token"))
    );
    assert_eq!(
        query_refusal(&ok, true, true, true, true, TokenVerdict::Allowed, "app.report", &refused_policy),
        Some((403, "operation_mode_read_only"))
    );
    assert_eq!(
        query_refusal(&ok, true, true, true, true, TokenVerdict::Allowed, "runtime.status", &refused_policy),
        None
    );
    assert_eq!(query_refusal(&ok, true, false, false, false, TokenVerdict::Forbidden, "app.report", &None), None);
    assert_eq!(query_dispatch_failure(false, 200), (500, "query dispatch failed"));
    assert_eq!(query_dispatch_failure(true, 404), (404, "query request invalid"));
}

#[test]
fn command_route_refusals_follow_the_stage_order() {
    assert_eq!(command_refusal(true, false, false, TokenVerdict::Allowed, false, false), Some((401, "missing bearer token")));
    assert_eq!(
        command_refusal(true, true, true, TokenVerdict::Allowed, false, false),
        Some((501, "command dispatcher not configured"))
    );
    assert_eq!(command_refusal(false, false, false, TokenVerdict::Allowed, true, false), Some((400, "trace context invalid")));
    assert_eq!(command_refusal(false, false, false, TokenVerdict::Allowed, true, true), None);
}

#[test]
fn query_outcome_audits_by_verdict_and_failure() {
    assert_eq!(query_outcome(QueryDispatch::Answered { ok: true }), (QueryAuditOutcome::Accepted, 200));
    assert_eq!(query_outcome(QueryDispatch::Answered { ok: false }), (QueryAuditOutcome::Rejected, 200));
    assert_eq!(query_outcome(QueryDispatch::Failed { status: 404 }), (QueryAuditOutcome::Error, 404));
    assert_eq!(query_outcome(QueryDispatch::Aborted), (QueryAuditOutcome::Error, 500));
}
