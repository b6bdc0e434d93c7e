use crate::api::command::opt_view;
use crate::api::tokens::{blank, is_blank, is_token, token_ok};
use crate::text::owned;
use vstd::prelude::*;

verus! {

#[verifier::external_type_specification]
#[verifier::external_body]
pub struct ExJsonValue(serde_json::Value);

/// `Clone` for `serde_json::Value`, which the derived `Clone` of the request and response types
/// calls: a deep copy, the same JSON value.
pub assume_specification[ <serde_json::Value as core::clone::Clone>::clone ](value: &serde_json::Value) -> (r: serde_json::Value)
    ensures
        r == *value,
;

/// The JSON encoding that `serde_json::to_vec` produces for a value, or `None` when it fails.
pub uninterp spec fn json_encoding(value: serde_json::Value) -> Option<Seq<u8>>;

/// `serde_json::to_vec`: the compact JSON encoding of `value`.
/// The contract only names the result (`json_encoding`); what the bytes are is not stated.
#[verifier::external_body]
fn json_to_vec(value: &serde_json::Value) -> (r: Option<Vec<u8>>)
    ensures
        match r {
            Some(bytes) => json_encoding(*value) == Some(bytes@),
            None => json_encoding(*value) is None,
        },
{
    match serde_json::to_vec(value) {
        Ok(bytes) => Some(bytes),
        Err(_) => None,
    }
}

/// `serde_json::Value::Object(serde_json::Map::new())`: an empty JSON object, which
/// `serde_json::to_vec` encodes as the two bytes `{}`.
#[verifier::external_body]
fn empty_json_object() -> (r: serde_json::Value)
    ensures
        json_encoding(r) == Some(seq![123u8, 125u8]),
{
    serde_json::Value::Object(serde_json::Map::new())
}

/// A query as callers submit it.
#[derive(Debug, Clone, PartialEq, Eq)]
pub struct QueryRequest {
    /// Declared application or Runtime query capability.
    pub query_name: String,
    /// Caller-assigned request identity.
    pub query_id: String,
    /// Structured application-owned query payload.
    pub payload: serde_json::Value,
}

/// The answer to a query.
#[derive(Debug, Clone, PartialEq, Eq)]
pub struct QueryResponse {
    /// Whether query execution succeeded.
    pub ok: bool,
    /// Controlled rejection detail, when present.
    pub message: Option<String>,
    /// Structured application-owned response payload.
    pub payload: serde_json::Value,
}

/// Why a query request was refused before dispatch.
#[derive(Debug, Clone, Copy, PartialEq, Eq, Structural)]
pub enum QueryRequestValidationError {
    /// The query name is empty.
    EmptyQueryName,
    /// The query identifier is empty.
    EmptyQueryId,
    /// The query name is malformed.
    InvalidQueryName,
    /// The query identifier is malformed.
    InvalidQueryId,
    /// The serialized payload exceeds the configured request bound.
    PayloadTooLarge,
}

/// Outcome of validating a query whose payload encodes to `payload_len` bytes.
pub open spec fn query_check(name: Seq<char>, id: Seq<char>, payload_len: nat, max_payload_bytes: nat) -> Result<
    (),
    QueryRequestValidationError,
> {
    if blank(name) {
        Err(QueryRequestValidationError::EmptyQueryName)
    } else if blank(id) {
        Err(QueryRequestValidationError::EmptyQueryId)
    } else if !token_ok(name) {
        Err(QueryRequestValidationError::InvalidQueryName)
    } else if !token_ok(id) {
        Err(QueryRequestValidationError::InvalidQueryId)
    } else if payload_len > max_payload_bytes {
        Err(QueryRequestValidationError::PayloadTooLarge)
    } else {
        Ok(())
    }
}

/// The bytes that `payload_bytes` yields for a payload: its encoding, or nothing on failure.
pub open spec fn payload_encoding(value: serde_json::Value) -> Seq<u8> {
    match json_encoding(value) {
        Some(b) => b,
        None => seq![],
    }
}

/// Checks a query's identifiers, given the encoded length of its payload.
pub fn check_query_fields(query_name: &str, query_id: &str, payload_len: usize, max_payload_bytes: usize) -> (r: Result<
    (),
    QueryRequestValidationError,
>)
    ensures
        r == query_check(query_name@, query_id@, payload_len as nat, max_payload_bytes as nat),
{
    if is_blank(query_name) {
        return Err(QueryRequestValidationError::EmptyQueryName);
    }
    if is_blank(query_id) {
        return Err(QueryRequestValidationError::EmptyQueryId);
    }
    if !is_token(query_name) {
        return Err(QueryRequestValidationError::InvalidQueryName);
    }
    if !is_token(query_id) {
        return Err(QueryRequestValidationError::InvalidQueryId);
    }
    if payload_len > max_payload_bytes {
        return Err(QueryRequestValidationError::PayloadTooLarge);
    }
    Ok(())
}

impl QueryRequest {
    /// Validates identifiers and the serialized payload bound.
    pub fn validate(&self, max_payload_bytes: usize) -> (r: Result<(), QueryRequestValidationError>)
        ensures
            r == query_check(
                self.query_name@,
                self.query_id@,
                payload_encoding(self.payload).len(),
                max_payload_bytes as nat,
            ),
    {
        let bytes = self.payload_bytes();
        check_query_fields(self.query_name.as_str(), self.query_id.as_str(), bytes.len(), max_payload_bytes)
    }

    /// The payload serialized as JSON bytes, empty if serialization fails.
    pub fn payload_bytes(&self) -> (r: Vec<u8>)
        ensures
            r@ == payload_encoding(self.payload),
    {
        match json_to_vec(&self.payload) {
            Some(bytes) => bytes,
            None => Vec::new(),
        }
    }
}

impl QueryResponse {
    /// A successful response carrying `payload`.
    pub fn ok(payload: serde_json::Value) -> (r: Self)
        ensures
            r.ok,
            r.message is None,
            r.payload == payload,
    {
        QueryResponse { ok: true, message: None, payload }
    }

    /// A controlled rejection carrying `message` and an empty object as payload.
    pub fn rejected(message: &str) -> (r: Self)
        ensures
            !r.ok,
            opt_view(r.message) == Some(message@),
            json_encoding(r.payload) == Some(seq![123u8, 125u8]),
    {
        QueryResponse { ok: false, message: Some(owned(message)), payload: empty_json_object() }
    }
}

} // verus!
