use crate::ai::ids::{BackendId, DeviceId};
use vstd::prelude::*;

verus! {

/// Bounded non-sensitive response metadata.
#[derive(Clone, Eq, PartialEq)]
pub struct AiMetadata {
    /// Validated metadata key.
    pub key: String,
    /// Redacted metadata value.
    pub value: String,
}

/// Structured reason for selecting or rejecting a route.
#[derive(Clone, Copy, Debug, Eq, PartialEq, Structural)]
pub enum RouteReason {
    /// A deterministic lightweight resolver satisfied the request.
    LightweightSatisfied,
    /// A required override selected the route.
    ForcedOverride,
    /// The route had the lowest admitted cost.
    LowestAdmittedCost,
    /// A prior bounded attempt requested escalation.
    Escalated,
    /// Local privacy policy excluded remote candidates.
    PrivacyRestricted,
    /// Resource admission excluded another candidate.
    ResourceRestricted,
    /// No compatible route was available.
    NoCompatibleRoute,
}

/// Safe description of a selected execution target.
#[derive(Clone, Debug, Eq, PartialEq)]
pub enum ExecutionTarget {
    /// Deterministic in-process resolver.
    Lightweight,
    /// Local backend and device.
    Local {
        /// Selected backend.
        backend: BackendId,
        /// Selected device.
        device: DeviceId,
    },
    /// Authenticated remote compute without exposing network coordinates.
    Remote {
        /// Bounded opaque peer class rather than a high-cardinality peer ID.
        peer_class: String,
        /// Selected backend.
        backend: BackendId,
        /// Selected device.
        device: DeviceId,
    },
}

/// One safe routing attempt in an execution decision.
#[derive(Clone, Debug, Eq, PartialEq)]
pub struct ExecutionAttempt {
    /// Attempt number starting at one.
    pub sequence: usize,
    /// Candidate target.
    pub target: ExecutionTarget,
    /// Structured selection or escalation reason.
    pub reason: RouteReason,
    /// Backend-neutral estimated cost units.
    pub estimated_cost_units: u64,
}

/// Optional redacted explanation of a completed route.
#[derive(Clone, Debug, Eq, PartialEq)]
pub struct ExecutionDecision {
    /// Selected execution target.
    pub selected: ExecutionTarget,
    /// Primary structured reason.
    pub reason: RouteReason,
    /// Bounded attempts considered or executed.
    pub attempts: Vec<ExecutionAttempt>,
}

} // verus!
