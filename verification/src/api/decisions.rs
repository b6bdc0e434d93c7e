use crate::api::command::CommandRequestValidationError;
use crate::api::config::CommandCapabilityPolicyError;
use crate::api::query::QueryRequestValidationError;
use crate::text::{owned, text_eq};
use vstd::prelude::*;

verus! {

/// HTTP status for a refused query request: 413 for an oversized payload, else 400.
pub open spec fn query_invalid_status(e: QueryRequestValidationError) -> u16 {
    match e {
        QueryRequestValidationError::PayloadTooLarge => 413,
        _ => 400,
    }
}

/// HTTP status for a refused query request.
pub fn query_validation_status(e: QueryRequestValidationError) -> (r: u16)
    ensures
        r == query_invalid_status(e),
{
    match e {
        QueryRequestValidationError::PayloadTooLarge => 413,
        _ => 400,
    }
}

/// The queries that the runtime answers itself.
pub open spec fn runtime_query(name: Seq<char>) -> bool {
    ||| name == "runtime.status"@
    ||| name == "runtime.sync"@
    ||| name == "runtime.idempotency"@
    ||| name == "runtime.audit"@
    ||| name == "runtime.events"@
}

/// Whether the runtime answers this query itself, without consulting application policy.
pub fn is_runtime_query(name: &str) -> (r: bool)
    ensures
        r == runtime_query(name@),
{
    text_eq(name, "runtime.status") || text_eq(name, "runtime.sync") || text_eq(name, "runtime.idempotency")
        || text_eq(name, "runtime.audit") || text_eq(name, "runtime.events")
}

/// Status and stable reason for a policy refusal.
pub open spec fn policy_refusal(e: CommandCapabilityPolicyError) -> (u16, Seq<char>) {
    match e {
        CommandCapabilityPolicyError::CapabilityNotDeclared => (403, "capability_not_declared"@),
        CommandCapabilityPolicyError::MissingIdempotencyKey => (400, "missing_idempotency_key"@),
        CommandCapabilityPolicyError::RequiresLeader => (409, "requires_leader"@),
        CommandCapabilityPolicyError::LeaseExpired => (409, "leader_lease_expired"@),
        CommandCapabilityPolicyError::StaleEpoch => (409, "leader_lease_stale_epoch"@),
        CommandCapabilityPolicyError::ReadOnly => (403, "operation_mode_read_only"@),
        CommandCapabilityPolicyError::Rejected(_) => (403, "capability_rejected"@),
    }
}

/// Status and message answering a query that application policy refused.
pub fn query_policy_refusal(e: &CommandCapabilityPolicyError) -> (r: (u16, &'static str))
    ensures
        r.0 == policy_refusal(*e).0,
        r.1@ == policy_refusal(*e).1,
{
    match e {
        CommandCapabilityPolicyError::CapabilityNotDeclared => (403, "capability_not_declared"),
        CommandCapabilityPolicyError::MissingIdempotencyKey => (400, "missing_idempotency_key"),
        CommandCapabilityPolicyError::RequiresLeader => (409, "requires_leader"),
        CommandCapabilityPolicyError::LeaseExpired => (409, "leader_lease_expired"),
        CommandCapabilityPolicyError::StaleEpoch => (409, "leader_lease_stale_epoch"),
        CommandCapabilityPolicyError::ReadOnly => (403, "operation_mode_read_only"),
        CommandCapabilityPolicyError::Rejected(_) => (403, "capability_rejected"),
    }
}

/// Status and message answering a command that application policy refused; a provider's own
/// rejection text is passed through.
pub fn command_policy_refusal(e: &CommandCapabilityPolicyError) -> (r: (u16, String))
    ensures
        r.0 == policy_refusal(*e).0,
        match e {
            CommandCapabilityPolicyError::Rejected(m) => r.1@ == m@,
            _ => r.1@ == policy_refusal(*e).1,
        },
{
    match e {
        CommandCapabilityPolicyError::Rejected(m) => (403, m.clone()),
        _ => {
            let (status, message) = query_policy_refusal(e);
            (status, owned(message))
        },
    }
}

/// Stable reason recorded when command validation fails.
pub open spec fn command_invalid_reason(e: CommandRequestValidationError) -> Seq<char> {
    match e {
        CommandRequestValidationError::EmptyCommandName => "empty_command_name"@,
        CommandRequestValidationError::EmptyCommandId => "empty_command_id"@,
        CommandRequestValidationError::PayloadTooLarge => "payload_too_large"@,
        CommandRequestValidationError::MissingIdempotencyKey => "missing_idempotency_key"@,
        CommandRequestValidationError::InvalidIdempotencyKey => "invalid_idempotency_key"@,
        CommandRequestValidationError::InvalidCommandName => "invalid_command_name"@,
        CommandRequestValidationError::InvalidCommandId => "invalid_command_id"@,
    }
}

/// Stable reason recorded when command validation fails.
pub fn command_validation_reason(e: CommandRequestValidationError) -> (r: &'static str)
    ensures
        r@ == command_invalid_reason(e),
{
    match e {
        CommandRequestValidationError::EmptyCommandName => "empty_command_name",
        CommandRequestValidationError::EmptyCommandId => "empty_command_id",
        CommandRequestValidationError::PayloadTooLarge => "payload_too_large",
        CommandRequestValidationError::MissingIdempotencyKey => "missing_idempotency_key",
        CommandRequestValidationError::InvalidIdempotencyKey => "invalid_idempotency_key",
        CommandRequestValidationError::InvalidCommandName => "invalid_command_name",
        CommandRequestValidationError::InvalidCommandId => "invalid_command_id",
    }
}

/// Whether an application answer counts as success (a 2xx status).
pub fn app_status_accepted(status_code: u16) -> (r: bool)
    ensures
        r == (200 <= status_code < 300),
{
    200 <= status_code && status_code < 300
}

/// Largest page of audit records or events that a query returns.
pub const MAX_QUERY_LIMIT: u64 = 1_000;

/// Page size of audit and event queries: 20 when absent, the requested size capped at 1000,
/// and status 400 for a value that is not a positive integer.
pub open spec fn limit_of(requested: Option<Option<u64>>) -> Result<u64, u16> {
    match requested {
        None => Ok(20),
        Some(None) => Err(400),
        Some(Some(0)) => Err(400),
        Some(Some(n)) => Ok(if n > MAX_QUERY_LIMIT { MAX_QUERY_LIMIT } else { n }),
    }
}

/// Page size from the `limit` payload field: `None` when the field is absent, `Some(None)` when
/// it is not an unsigned integer.
pub fn query_limit(requested: Option<Option<u64>>) -> (r: Result<u64, u16>)
    ensures
        r == limit_of(requested),
{
    match requested {
        None => Ok(20),
        Some(None) => Err(400),
        Some(Some(n)) => {
            if n == 0 {
                Err(400)
            } else if n > MAX_QUERY_LIMIT {
                Ok(MAX_QUERY_LIMIT)
            } else {
                Ok(n)
            }
        },
    }
}

/// What a token verifier answered.
#[derive(Debug, Clone, Copy, PartialEq, Eq, Structural)]
pub enum TokenVerdict {
    /// The token grants the operation.
    Allowed,
    /// The token is valid but does not grant the operation.
    Forbidden,
    /// The token is malformed.
    InvalidFormat,
    /// The token is not accepted.
    Unauthorized,
}

/// The token of an `authorization` header: exactly one header whose value is `Bearer ` followed
/// by a non-empty token.
pub open spec fn bearer_of(values: Seq<Seq<char>>) -> Option<Seq<char>> {
    if values.len() != 1 {
        None
    } else {
        let v = values[0];
        let prefix = "Bearer "@;
        if v.len() > prefix.len() && v.take(prefix.len() as int) == prefix {
            Some(v.skip(prefix.len() as int))
        } else {
            None
        }
    }
}

/// The view of a list of string slices.
pub open spec fn strs_view(v: Seq<&str>) -> Seq<Seq<char>> {
    v.map_values(|s: &str| s@)
}

/// The bearer token carried by the `authorization` header values, if exactly one well-formed
/// header is present.
pub fn bearer_token(values: &[&str]) -> (r: Option<String>)
    ensures
        match r {
            Some(t) => bearer_of(strs_view(values@)) == Some(t@),
            None => bearer_of(strs_view(values@)) is None,
        },
{
    if values.len() != 1 {
        return None;
    }
    let v = crate::text::chars_of(values[0]);
    let p = crate::text::chars_of("Bearer ");
    proof {
        reveal_strlit("Bearer ");
    }
    assert(strs_view(values@)[0] == values@[0]@);
    if v.len() <= p.len() {
        return None;
    }
    let mut i: usize = 0;
    while i < p.len()
        invariant
            i <= p.len(),
            p.len() < v.len(),
            values.len() == 1,
            v@ == values@[0]@,
            p@ == "Bearer "@,
            strs_view(values@)[0] == values@[0]@,
            forall|j: int| 0 <= j < i ==> v@[j] == p@[j],
        decreases p.len() - i,
    {
        if v[i] != p[i] {
            assert(v@.take(p.len() as int)[i as int] != p@[i as int]);
            return None;
        }
        i = i + 1;
    }
    assert(v@.take(p.len() as int) =~= p@);
    Some(crate::text::string_from(&v, p.len(), v.len()))
}

/// First step of command or query authorization, before any verifier is consulted.
#[derive(Debug, Clone, Copy, PartialEq, Eq, Structural)]
pub enum AuthGate {
    /// Authentication is not required.
    Open,
    /// Refused with status 401 before verification: no token, or no verifier.
    MissingToken,
    /// Refused with status 401: a token was supplied but nothing can verify it.
    NoVerifier,
    /// The verifier must judge the token.
    Verify,
}

/// The first authorization step for a command or query.
pub open spec fn gate_of(require_token: bool, token_present: bool, verifier_present: bool) -> AuthGate {
    if !require_token {
        AuthGate::Open
    } else if !token_present {
        AuthGate::MissingToken
    } else if !verifier_present {
        AuthGate::NoVerifier
    } else {
        AuthGate::Verify
    }
}

/// The first authorization step for a command or query.
pub fn auth_gate(require_token: bool, token_present: bool, verifier_present: bool) -> (r: AuthGate)
    ensures
        r == gate_of(require_token, token_present, verifier_present),
{
    if !require_token {
        AuthGate::Open
    } else if !token_present {
        AuthGate::MissingToken
    } else if !verifier_present {
        AuthGate::NoVerifier
    } else {
        AuthGate::Verify
    }
}

/// Status of a refused command or query given the verifier's answer: 403 when forbidden,
/// 401 otherwise, nothing when allowed.
pub open spec fn verdict_status(v: TokenVerdict) -> Option<u16> {
    match v {
        TokenVerdict::Allowed => None,
        TokenVerdict::Forbidden => Some(403),
        _ => Some(401),
    }
}

/// Status of a refused command or query given the verifier's answer.
pub fn verdict_refusal(v: TokenVerdict) -> (r: Option<u16>)
    ensures
        r == verdict_status(v),
{
    match v {
        TokenVerdict::Allowed => None,
        TokenVerdict::Forbidden => Some(403),
        _ => Some(401),
    }
}

/// Outcome of authorizing a status read: `Ok(true)` for the full view, `Ok(false)` for the
/// public reduced view, or an error status. `verdict` is what the verifier answered, when a
/// token and a verifier were both present.
pub open spec fn status_access(public_status: bool, token_present: bool, verifier_present: bool, verdict: TokenVerdict) -> Result<bool, u16> {
    if !public_status {
        if !token_present || !verifier_present {
            Err(401)
        } else {
            match verdict {
                TokenVerdict::Allowed => Ok(true),
                TokenVerdict::Forbidden => Err(403),
                _ => Err(401),
            }
        }
    } else if !token_present || !verifier_present {
        Ok(false)
    } else {
        Ok(verdict == TokenVerdict::Allowed)
    }
}

/// Decides access to the status route.
pub fn authorize_status(public_status: bool, token_present: bool, verifier_present: bool, verdict: TokenVerdict) -> (r: Result<bool, u16>)
    ensures
        r == status_access(public_status, token_present, verifier_present, verdict),
{
    if !public_status {
        if !token_present || !verifier_present {
            Err(401)
        } else {
            match verdict {
                TokenVerdict::Allowed => Ok(true),
                TokenVerdict::Forbidden => Err(403),
                _ => Err(401),
            }
        }
    } else if !token_present || !verifier_present {
        Ok(false)
    } else {
        Ok(match verdict {
            TokenVerdict::Allowed => true,
            _ => false,
        })
    }
}

/// The refusal of a query's bearer-token authorization, if any: 401 "missing bearer token",
/// 401 "token verifier not configured", then the verifier's answer: 403 "query not allowed for
/// token" when forbidden, 401 "invalid bearer token" when the token is refused.
pub open spec fn query_auth_refusal(
    require_token: bool,
    token_present: bool,
    verifier_present: bool,
    verdict: TokenVerdict,
) -> Option<(u16, Seq<char>)> {
    match gate_of(require_token, token_present, verifier_present) {
        AuthGate::Open => None,
        AuthGate::MissingToken => Some((401, "missing bearer token"@)),
        AuthGate::NoVerifier => Some((401, "token verifier not configured"@)),
        AuthGate::Verify => match verdict {
            TokenVerdict::Allowed => None,
            TokenVerdict::Forbidden => Some((403, "query not allowed for token"@)),
            _ => Some((401, "invalid bearer token"@)),
        },
    }
}

/// Bearer-token authorization of a query. `verdict` is what the verifier answered, when a token
/// and a verifier were both present.
pub fn authorize_query(require_token: bool, token_present: bool, verifier_present: bool, verdict: TokenVerdict) -> (r:
    Option<(u16, &'static str)>)
    ensures
        match r {
            Some((status, message)) => query_auth_refusal(require_token, token_present, verifier_present, verdict)
                == Some((status, message@)),
            None => query_auth_refusal(require_token, token_present, verifier_present, verdict) is None,
        },
{
    match auth_gate(require_token, token_present, verifier_present) {
        AuthGate::Open => None,
        AuthGate::MissingToken => Some((401, "missing bearer token")),
        AuthGate::NoVerifier => Some((401, "token verifier not configured")),
        AuthGate::Verify => match verdict {
            TokenVerdict::Allowed => None,
            TokenVerdict::Forbidden => Some((403, "query not allowed for token")),
            _ => Some((401, "invalid bearer token")),
        },
    }
}

/// The refusal of a command's bearer-token authorization, if any: as for queries, with 403
/// "command not allowed for token" when the verifier forbids the command.
pub open spec fn command_auth_refusal(
    require_token: bool,
    token_present: bool,
    verifier_present: bool,
    verdict: TokenVerdict,
) -> Option<(u16, Seq<char>)> {
    match gate_of(require_token, token_present, verifier_present) {
        AuthGate::Open => None,
        AuthGate::MissingToken => Some((401, "missing bearer token"@)),
        AuthGate::NoVerifier => Some((401, "token verifier not configured"@)),
        AuthGate::Verify => match verdict {
            TokenVerdict::Allowed => None,
            TokenVerdict::Forbidden => Some((403, "command not allowed for token"@)),
            _ => Some((401, "invalid bearer token"@)),
        },
    }
}

/// Bearer-token authorization of a command. `verdict` is what the verifier answered, when a
/// token and a verifier were both present.
pub fn authorize_command(require_token: bool, token_present: bool, verifier_present: bool, verdict: TokenVerdict) -> (r:
    Option<(u16, &'static str)>)
    ensures
        match r {
            Some((status, message)) => command_auth_refusal(require_token, token_present, verifier_present, verdict)
                == Some((status, message@)),
            None => command_auth_refusal(require_token, token_present, verifier_present, verdict) is None,
        },
{
    match auth_gate(require_token, token_present, verifier_present) {
        AuthGate::Open => None,
        AuthGate::MissingToken => Some((401, "missing bearer token")),
        AuthGate::NoVerifier => Some((401, "token verifier not configured")),
        AuthGate::Verify => match verdict {
            TokenVerdict::Allowed => None,
            TokenVerdict::Forbidden => Some((403, "command not allowed for token")),
            _ => Some((401, "invalid bearer token")),
        },
    }
}

/// Why the query route answers a query without dispatching it, checked in this order: request
/// validation, the trace context, bearer-token authorization, then (for application queries only)
/// the capability policy. `policy` is what the policy answered, or `None` when no policy is set.
pub open spec fn query_refusal_of(
    validation: Result<(), QueryRequestValidationError>,
    trace_valid: bool,
    require_token: bool,
    token_present: bool,
    verifier_present: bool,
    verdict: TokenVerdict,
    name: Seq<char>,
    policy: Option<Result<(), CommandCapabilityPolicyError>>,
) -> Option<(u16, Seq<char>)> {
    if validation is Err {
        Some((query_invalid_status(validation->Err_0), "query request invalid"@))
    } else if !trace_valid {
        Some((400, "trace context invalid"@))
    } else if query_auth_refusal(require_token, token_present, verifier_present, verdict) is Some {
        query_auth_refusal(require_token, token_present, verifier_present, verdict)
    } else if !runtime_query(name) && policy matches Some(Err(e)) {
        Some(policy_refusal(policy->Some_0->Err_0))
    } else {
        None
    }
}

/// The status and message that refuse a query before dispatch, or `None` to dispatch it.
pub fn query_refusal(
    validation: &Result<(), QueryRequestValidationError>,
    trace_valid: bool,
    require_token: bool,
    token_present: bool,
    verifier_present: bool,
    verdict: TokenVerdict,
    name: &str,
    policy: &Option<Result<(), CommandCapabilityPolicyError>>,
) -> (r: Option<(u16, &'static str)>)
    ensures
        match r {
            Some((status, message)) => query_refusal_of(
                *validation,
                trace_valid,
                require_token,
                token_present,
                verifier_present,
                verdict,
                name@,
                *policy,
            ) == Some((status, message@)),
            None => query_refusal_of(
                *validation,
                trace_valid,
                require_token,
                token_present,
                verifier_present,
                verdict,
                name@,
                *policy,
            ) is None,
        },
{
    if let Err(e) = validation {
        return Some((query_validation_status(*e), "query request invalid"));
    }
    if !trace_valid {
        return Some((400, "trace context invalid"));
    }
    if let Some(refusal) = authorize_query(require_token, token_present, verifier_present, verdict) {
        return Some(refusal);
    }
    if !is_runtime_query(name) {
        if let Some(Err(e)) = policy {
            return Some(query_policy_refusal(e));
        }
    }
    None
}

/// Status and message of a query whose dispatch failed: 500 "query dispatch failed" when the
/// dispatch task itself did not complete, else the status it failed with and "query request
/// invalid".
pub fn query_dispatch_failure(completed: bool, status: u16) -> (r: (u16, &'static str))
    ensures
        !completed ==> r.0 == 500 && r.1@ == "query dispatch failed"@,
        completed ==> r.0 == status && r.1@ == "query request invalid"@,
{
    if !completed {
        (500, "query dispatch failed")
    } else {
        (status, "query request invalid")
    }
}

/// How a dispatched query ended.
#[derive(Clone, Copy, Debug, PartialEq, Eq, Structural)]
pub enum QueryDispatch {
    /// The dispatch task did not complete.
    Aborted,
    /// The dispatcher answered; `ok` is the answer's own verdict.
    Answered { ok: bool },
    /// The dispatcher failed with this HTTP status.
    Failed { status: u16 },
}

/// What the audit log records of a query.
#[derive(Clone, Copy, Debug, PartialEq, Eq, Structural)]
pub enum QueryAuditOutcome {
    /// The query was answered successfully.
    Accepted,
    /// The query was refused or answered with a negative verdict.
    Rejected,
    /// The query could not be carried out.
    Error,
}

/// The audited outcome and HTTP status of a dispatched query: an answer is audited as accepted
/// or rejected by its own verdict and sent with 200; a failure is audited as an error and sent
/// with its status, or 500 when the dispatch task did not complete.
pub fn query_outcome(dispatch: QueryDispatch) -> (r: (QueryAuditOutcome, u16))
    ensures
        r == match dispatch {
            QueryDispatch::Aborted => (QueryAuditOutcome::Error, 500u16),
            QueryDispatch::Answered { ok } => (
                if ok { QueryAuditOutcome::Accepted } else { QueryAuditOutcome::Rejected },
                200u16,
            ),
            QueryDispatch::Failed { status } => (QueryAuditOutcome::Error, status),
        },
{
    match dispatch {
        QueryDispatch::Aborted => (QueryAuditOutcome::Error, 500),
        QueryDispatch::Answered { ok } => (if ok { QueryAuditOutcome::Accepted } else { QueryAuditOutcome::Rejected }, 200),
        QueryDispatch::Failed { status } => (QueryAuditOutcome::Error, status),
    }
}

/// Why the command route answers a command without dispatching it, checked in this order:
/// bearer-token authorization, a configured dispatcher (else 501), then the trace context.
pub open spec fn command_refusal_of(
    require_token: bool,
    token_present: bool,
    verifier_present: bool,
    verdict: TokenVerdict,
    dispatcher_configured: bool,
    trace_valid: bool,
) -> Option<(u16, Seq<char>)> {
    if command_auth_refusal(require_token, token_present, verifier_present, verdict) is Some {
        command_auth_refusal(require_token, token_present, verifier_present, verdict)
    } else if !dispatcher_configured {
        Some((501, "command dispatcher not configured"@))
    } else if !trace_valid {
        Some((400, "trace context invalid"@))
    } else {
        None
    }
}

/// The status and message that refuse a command before dispatch, or `None` to dispatch it.
pub fn command_refusal(
    require_token: bool,
    token_present: bool,
    verifier_present: bool,
    verdict: TokenVerdict,
    dispatcher_configured: bool,
    trace_valid: bool,
) -> (r: Option<(u16, &'static str)>)
    ensures
        match r {
            Some((status, message)) => command_refusal_of(
                require_token,
                token_present,
                verifier_present,
                verdict,
                dispatcher_configured,
                trace_valid,
            ) == Some((status, message@)),
            None => command_refusal_of(
                require_token,
                token_present,
                verifier_present,
                verdict,
                dispatcher_configured,
                trace_valid,
            ) is None,
        },
{
    if let Some(refusal) = authorize_command(require_token, token_present, verifier_present, verdict) {
        return Some(refusal);
    }
    if !dispatcher_configured {
        return Some((501, "command dispatcher not configured"));
    }
    if !trace_valid {
        return Some((400, "trace context invalid"));
    }
    None
}

} // verus!
