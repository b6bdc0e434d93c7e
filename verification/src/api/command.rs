use crate::api::tokens::{blank, is_blank, is_token, token_ok};
use crate::text::{owned, text_eq};
use vstd::prelude::*;

verus! {

/// A command as callers submit it.
#[derive(Debug, Clone, PartialEq, Eq)]
pub struct CommandRequest {
    /// Declared application or Runtime command capability.
    pub command_name: String,
    /// Caller-assigned request identity.
    pub command_id: String,
    /// Replay-safe identity required by mutating commands.
    pub idempotency_key: Option<String>,
    /// Opaque UTF-8 application payload.
    pub payload: String,
}

/// An event that an accepted command emitted.
#[derive(Debug, Clone, PartialEq, Eq)]
pub struct CommandResponseEvent {
    /// Registered event name.
    pub event_name: String,
    /// Unique emitted event identity.
    pub event_id: String,
}

/// The answer to a command.
#[derive(Debug, Clone, PartialEq, Eq)]
pub struct CommandResponse {
    /// Whether the command was accepted.
    pub accepted: bool,
    /// Controlled rejection detail, when present.
    pub message: Option<String>,
    /// Events emitted by an accepted command.
    pub events: Vec<CommandResponseEvent>,
}

/// Why a command request was refused before dispatch.
#[derive(Debug, Clone, Copy, PartialEq, Eq, Structural)]
pub enum CommandRequestValidationError {
    /// The command name is empty.
    EmptyCommandName,
    /// The command identifier is empty.
    EmptyCommandId,
    /// The payload exceeds the configured request bound.
    PayloadTooLarge,
    /// A mutating command omitted its idempotency key.
    MissingIdempotencyKey,
    /// The supplied idempotency key is malformed.
    InvalidIdempotencyKey,
    /// The command name is malformed.
    InvalidCommandName,
    /// The command identifier is malformed.
    InvalidCommandId,
}

/// The one command that needs no idempotency key.
pub open spec fn exempt_from_idempotency(name: Seq<char>) -> bool {
    name == "runtime.ping"@
}

/// The view of an optional string.
pub open spec fn opt_view(o: Option<String>) -> Option<Seq<char>> {
    match o {
        Some(s) => Some(s@),
        None => None,
    }
}

/// Outcome of validating a command, checks taken in order.
pub open spec fn command_check(
    name: Seq<char>,
    id: Seq<char>,
    key: Option<Seq<char>>,
    payload: Seq<char>,
    max_payload_bytes: nat,
) -> Result<(), CommandRequestValidationError> {
    if blank(name) {
        Err(CommandRequestValidationError::EmptyCommandName)
    } else if blank(id) {
        Err(CommandRequestValidationError::EmptyCommandId)
    } else if !token_ok(name) {
        Err(CommandRequestValidationError::InvalidCommandName)
    } else if !token_ok(id) {
        Err(CommandRequestValidationError::InvalidCommandId)
    } else if !exempt_from_idempotency(name) && key is None {
        Err(CommandRequestValidationError::MissingIdempotencyKey)
    } else if key matches Some(k) && (blank(k) || !token_ok(k)) {
        Err(CommandRequestValidationError::InvalidIdempotencyKey)
    } else if vstd::utf8::encode_utf8(payload).len() > max_payload_bytes {
        Err(CommandRequestValidationError::PayloadTooLarge)
    } else {
        Ok(())
    }
}

impl CommandRequest {
    /// Validates identifiers, idempotency and the payload bound.
    pub fn validate(&self, max_payload_bytes: usize) -> (r: Result<(), CommandRequestValidationError>)
        ensures
            r == command_check(
                self.command_name@,
                self.command_id@,
                opt_view(self.idempotency_key),
                self.payload@,
                max_payload_bytes as nat,
            ),
    {
        if is_blank(self.command_name.as_str()) {
            return Err(CommandRequestValidationError::EmptyCommandName);
        }
        if is_blank(self.command_id.as_str()) {
            return Err(CommandRequestValidationError::EmptyCommandId);
        }
        if !is_token(self.command_name.as_str()) {
            return Err(CommandRequestValidationError::InvalidCommandName);
        }
        if !is_token(self.command_id.as_str()) {
            return Err(CommandRequestValidationError::InvalidCommandId);
        }
        if !text_eq(self.command_name.as_str(), "runtime.ping") && self.idempotency_key.is_none() {
            return Err(CommandRequestValidationError::MissingIdempotencyKey);
        }
        match &self.idempotency_key {
            Some(key) => {
                if is_blank(key.as_str()) || !is_token(key.as_str()) {
                    return Err(CommandRequestValidationError::InvalidIdempotencyKey);
                }
            },
            None => {},
        }
        let bytes = self.payload.as_str().as_bytes();
        if bytes.len() > max_payload_bytes {
            return Err(CommandRequestValidationError::PayloadTooLarge);
        }
        Ok(())
    }

    /// The payload's UTF-8 bytes.
    pub fn payload_bytes(&self) -> (r: &[u8])
        ensures
            r@ == vstd::utf8::encode_utf8(self.payload@),
    {
        self.payload.as_str().as_bytes()
    }
}

impl CommandResponse {
    /// An accepted response listing the emitted events.
    pub fn accepted(events: Vec<CommandResponseEvent>) -> (r: Self)
        ensures
            r.accepted,
            r.message is None,
            r.events == events,
    {
        CommandResponse { accepted: true, message: None, events }
    }

    /// A controlled rejection carrying `message`.
    pub fn rejected(message: &str) -> (r: Self)
        ensures
            !r.accepted,
            opt_view(r.message) == Some(message@),
            r.events@.len() == 0,
    {
        CommandResponse { accepted: false, message: Some(owned(message)), events: Vec::new() }
    }
}

} // verus!
