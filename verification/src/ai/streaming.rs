use crate::ai::ids::AiError;
use vstd::prelude::*;

verus! {

/// One bounded incremental generative output event. It has no `Debug`, so that text and
/// arguments never reach diagnostics.
#[derive(Clone, PartialEq)]
pub enum AiStreamEvent {
    /// UTF-8 text appended to the response.
    TextDelta(String),
    /// Incremental fields for one tool call at a stable response index.
    ToolCallDelta {
        /// Zero-based tool-call index.
        index: usize,
        /// Backend correlation ID when first supplied.
        id: Option<String>,
        /// Declared tool name when first supplied.
        name: Option<String>,
        /// Raw UTF-8 arguments fragment; it may not be complete JSON yet.
        arguments_delta: String,
    },
}

/// Synchronous bounded stream consumer.
///
/// Returning from `event` grants the producer permission to read and decode the next chunk,
/// which provides explicit backpressure without an executor or unbounded channel dependency.
pub trait AiStreamSink {
    /// Consumes one event without retaining references into the decoder.
    fn event(&self, event: &AiStreamEvent) -> Result<(), AiError>;
}

} // verus!
