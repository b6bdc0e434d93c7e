use crate::durations::{duration_nanos, nanos};
use crate::text::{owned, push_str};
use core::time::Duration;
use vstd::prelude::*;

verus! {

/// Longest health or drain deadline a reload policy accepts, in nanoseconds (60 s).
pub const MAX_RELOAD_TIMEOUT_NANOS: u128 = 60_000_000_000;


/// Step of a reload transaction.
#[derive(Debug, Clone, Copy, PartialEq, Eq, Structural)]
pub enum HttpReloadPhase {
    /// Candidate validation and health before activation.
    Prepare,
    /// Atomic routing activation and health confirmation.
    Switch,
    /// Bounded completion of requests admitted by the old generation.
    Drain,
    /// Restoration and drain after a failed activation.
    Rollback,
}

/// Deadlines of one reload: candidate health and old-generation drain.
#[derive(Debug, Clone, Copy, PartialEq, Eq)]
pub struct HttpReloadPolicy {
    health_timeout: Duration,
    drain_timeout: Duration,
}

/// Abstract content of an [`HttpReloadPolicy`].
pub struct ReloadPolicyModel {
    pub health_timeout: Duration,
    pub drain_timeout: Duration,
}

impl View for HttpReloadPolicy {
    type V = ReloadPolicyModel;

    closed spec fn view(&self) -> ReloadPolicyModel {
        ReloadPolicyModel { health_timeout: self.health_timeout, drain_timeout: self.drain_timeout }
    }
}

/// Counters and state of the reload coordinator, without request data.
#[derive(Debug, Clone, Copy, PartialEq, Eq, Structural)]
pub struct HttpReloadSnapshot {
    /// Generation currently selected for new requests.
    pub active_generation: u64,
    /// Requests currently executing on the selected generation.
    pub active_inflight: usize,
    /// Whether one prepare/switch/drain transaction is active.
    pub reload_in_progress: bool,
    /// Reloads that switched and drained successfully.
    pub successful_reloads: u64,
    /// Failed reload attempts, including controlled rollbacks.
    pub failed_reloads: u64,
    /// Switches restored to the prior generation.
    pub rollbacks: u64,
}

/// Why a reload, or the construction of a reloadable host, was refused.
#[derive(Debug, Clone, Copy, PartialEq, Eq, Structural)]
pub enum RuntimeHttpReloadError {
    /// Reload requires an enabled listener.
    ListenerDisabled,
    /// A candidate attempted to change the listener address in-place.
    ListenerAddressChanged,
    /// A candidate attempted to change whether ingress authentication is required.
    AuthenticationPolicyChanged,
    /// Generation identifiers must increase monotonically.
    StaleGeneration,
    /// Another reload transaction already owns the coordinator.
    ReloadInProgress,
    /// A failed or cancelled generation still owns in-flight requests.
    RetiringGenerationBusy,
    /// Health or drain deadlines must be non-zero.
    InvalidPolicy,
    /// The candidate or active generation failed its health gate.
    HealthGateFailed(HttpReloadPhase),
    /// The outgoing generation did not drain before rollback.
    DrainTimedOut,
    /// The failed generation remained active past the rollback drain deadline.
    RollbackDrainTimedOut,
}

/// A deadline that a policy accepts: non-zero and at most 60 s.
pub open spec fn timeout_ok(nanos: u128) -> bool {
    0 < nanos <= MAX_RELOAD_TIMEOUT_NANOS
}

impl HttpReloadPolicy {
    /// A policy with non-zero health and drain deadlines of at most 60 s.
    pub fn new(health_timeout: Duration, drain_timeout: Duration) -> (r: Result<Self, RuntimeHttpReloadError>)
        ensures
            r is Ok <==> timeout_ok(duration_nanos(health_timeout)) && timeout_ok(duration_nanos(drain_timeout)),
            r matches Ok(p) ==> p@.health_timeout == health_timeout && p@.drain_timeout == drain_timeout,
            r matches Err(e) ==> e == RuntimeHttpReloadError::InvalidPolicy,
    {
        let h = nanos(health_timeout);
        let d = nanos(drain_timeout);
        if h == 0 || d == 0 || h > MAX_RELOAD_TIMEOUT_NANOS || d > MAX_RELOAD_TIMEOUT_NANOS {
            return Err(RuntimeHttpReloadError::InvalidPolicy);
        }
        Ok(HttpReloadPolicy { health_timeout, drain_timeout })
    }

    /// The candidate health deadline.
    pub fn health_timeout(self) -> (r: Duration)
        ensures
            r == self@.health_timeout,
    {
        self.health_timeout
    }

    /// The old-generation drain deadline.
    pub fn drain_timeout(self) -> (r: Duration)
        ensures
            r == self@.drain_timeout,
    {
        self.drain_timeout
    }
}

/// Name of a reload phase as it appears in diagnostics.
pub open spec fn phase_text(p: HttpReloadPhase) -> Seq<char> {
    match p {
        HttpReloadPhase::Prepare => "Prepare"@,
        HttpReloadPhase::Switch => "Switch"@,
        HttpReloadPhase::Drain => "Drain"@,
        HttpReloadPhase::Rollback => "Rollback"@,
    }
}

/// Diagnostic text of a reload error.
pub open spec fn reload_error_text(e: RuntimeHttpReloadError) -> Seq<char> {
    match e {
        RuntimeHttpReloadError::ListenerDisabled => "HTTP reload listener is disabled"@,
        RuntimeHttpReloadError::ListenerAddressChanged => "HTTP reload requires a prepared listener generation"@,
        RuntimeHttpReloadError::AuthenticationPolicyChanged => "HTTP reload cannot change the authentication boundary"@,
        RuntimeHttpReloadError::StaleGeneration => "HTTP routing generation must increase"@,
        RuntimeHttpReloadError::ReloadInProgress => "HTTP reload is already in progress"@,
        RuntimeHttpReloadError::RetiringGenerationBusy => "HTTP routing generation is still draining"@,
        RuntimeHttpReloadError::InvalidPolicy => "HTTP reload policy is invalid"@,
        RuntimeHttpReloadError::HealthGateFailed(p) => "HTTP reload health gate failed during "@ + phase_text(p),
        RuntimeHttpReloadError::DrainTimedOut => "HTTP routing generation drain timed out"@,
        RuntimeHttpReloadError::RollbackDrainTimedOut => "HTTP rollback generation drain timed out"@,
    }
}

impl HttpReloadPhase {
    /// Name of the phase as it appears in diagnostics.
    pub fn name(self) -> (r: &'static str)
        ensures
            r@ == phase_text(self),
    {
        match self {
            HttpReloadPhase::Prepare => "Prepare",
            HttpReloadPhase::Switch => "Switch",
            HttpReloadPhase::Drain => "Drain",
            HttpReloadPhase::Rollback => "Rollback",
        }
    }
}

impl RuntimeHttpReloadError {
    /// The diagnostic text of the error.
    pub fn message(&self) -> (r: String)
        ensures
            r@ == reload_error_text(*self),
    {
        match self {
            RuntimeHttpReloadError::ListenerDisabled => owned("HTTP reload listener is disabled"),
            RuntimeHttpReloadError::ListenerAddressChanged => owned("HTTP reload requires a prepared listener generation"),
            RuntimeHttpReloadError::AuthenticationPolicyChanged => owned("HTTP reload cannot change the authentication boundary"),
            RuntimeHttpReloadError::StaleGeneration => owned("HTTP routing generation must increase"),
            RuntimeHttpReloadError::ReloadInProgress => owned("HTTP reload is already in progress"),
            RuntimeHttpReloadError::RetiringGenerationBusy => owned("HTTP routing generation is still draining"),
            RuntimeHttpReloadError::InvalidPolicy => owned("HTTP reload policy is invalid"),
            RuntimeHttpReloadError::HealthGateFailed(p) => {
                let mut s = owned("HTTP reload health gate failed during ");
                push_str(&mut s, p.name());
                s
            },
            RuntimeHttpReloadError::DrainTimedOut => owned("HTTP routing generation drain timed out"),
            RuntimeHttpReloadError::RollbackDrainTimedOut => owned("HTTP rollback generation drain timed out"),
        }
    }
}

} // verus!
