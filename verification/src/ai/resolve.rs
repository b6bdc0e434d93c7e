use crate::ai::ids::{AiError, LimitKind};
use crate::ai::response::RouteReason;
use crate::durations::{duration_nanos, nanos};
use core::time::Duration;
use vstd::prelude::*;

verus! {

/// Where the resolution of one request stands.
#[derive(Clone, Copy, Debug, PartialEq, Eq, Structural)]
pub enum ResolvePhase {
    /// Nothing checked yet.
    Start,
    /// Waiting for the lightweight resolver's answer.
    Lightweight,
    /// Waiting for the model candidates to be gathered and a place in the execution queue.
    Preparing,
    /// Waiting for the planned routes to be executed.
    Executing,
    /// An answer or an error was decided.
    Finished,
}

/// The state of one resolution.
#[derive(Clone, Copy, Debug, PartialEq, Eq, Structural)]
pub struct ResolveState {
    /// Current phase.
    pub phase: ResolvePhase,
    /// Whether the request lets a lightweight answer escalate to a full route.
    pub allow_escalation: bool,
    /// Whether a lightweight answer is held to fall back on.
    pub fallback: bool,
    /// Whether the lightweight resolver answered, which counts as one attempt.
    pub lightweight_attempt: bool,
}

/// What the lightweight resolver answered.
#[derive(Clone, Copy, Debug, PartialEq, Eq, Structural)]
pub enum LightweightAnswer {
    /// It produced an answer; `escalate` asks for a full route as well.
    Handled { escalate: bool },
    /// It declined.
    NotHandled,
}

/// What the surrounding runtime observed.
#[derive(Clone, Copy, Debug, PartialEq, Eq)]
pub enum ResolveEvent {
    /// The request arrived: the outcome of its validation, whether it is already cancelled,
    /// whether it asks for swarm execution and a swarm is available, whether the lightweight
    /// resolver can handle it, and whether it allows escalation.
    Begin {
        validation: Result<(), AiError>,
        cancelled: bool,
        swarm_mode: bool,
        swarm_available: bool,
        lightweight_can_handle: bool,
        allow_escalation: bool,
    },
    /// The lightweight resolver answered.
    Lightweight(Result<LightweightAnswer, AiError>),
    /// Gathering the model candidates and acquiring a place in the execution queue ended.
    Prepared(Result<(), AiError>),
    /// Planning and executing the routes ended.
    Executed(Result<(), AiError>),
}

/// What the runtime is to do next.
#[derive(Clone, Copy, Debug, PartialEq, Eq)]
pub enum ResolveAction {
    /// Ask the lightweight resolver.
    ConsultLightweight,
    /// Gather the model candidates and acquire a place in the execution queue.
    Prepare,
    /// Plan and execute the model routes.
    Execute,
    /// Return the lightweight answer.
    AnswerLightweight,
    /// Return the answer of the executed route.
    AnswerRoute,
    /// Return the held lightweight answer in place of a route.
    AnswerFallback,
    /// Fail with this error.
    Fail(AiError),
    /// The event does not belong to this phase; nothing changes.
    Ignore,
}

/// The state in which a resolution starts.
pub open spec fn initial_state() -> ResolveState {
    ResolveState { phase: ResolvePhase::Start, allow_escalation: false, fallback: false, lightweight_attempt: false }
}

/// One step of the resolution of a request.
pub open spec fn resolve_step(s: ResolveState, e: ResolveEvent) -> (ResolveState, ResolveAction) {
    let finished = ResolveState { phase: ResolvePhase::Finished, ..s };
    match (s.phase, e) {
        (
            ResolvePhase::Start,
            ResolveEvent::Begin {
                validation,
                cancelled,
                swarm_mode,
                swarm_available,
                lightweight_can_handle,
                allow_escalation,
            },
        ) => {
            let s1 = ResolveState { allow_escalation, ..s };
            if validation is Err {
                (ResolveState { phase: ResolvePhase::Finished, ..s1 }, ResolveAction::Fail(validation->Err_0))
            } else if cancelled {
                (ResolveState { phase: ResolvePhase::Finished, ..s1 }, ResolveAction::Fail(AiError::Cancelled))
            } else if swarm_mode && !swarm_available {
                (ResolveState { phase: ResolvePhase::Finished, ..s1 }, ResolveAction::Fail(AiError::SwarmUnavailable))
            } else if !swarm_mode && lightweight_can_handle {
                (ResolveState { phase: ResolvePhase::Lightweight, ..s1 }, ResolveAction::ConsultLightweight)
            } else {
                (ResolveState { phase: ResolvePhase::Preparing, ..s1 }, ResolveAction::Prepare)
            }
        },
        (ResolvePhase::Lightweight, ResolveEvent::Lightweight(answer)) => match answer {
            Err(err) => (finished, ResolveAction::Fail(err)),
            Ok(LightweightAnswer::Handled { escalate }) => if escalate && s.allow_escalation {
                (
                    ResolveState { phase: ResolvePhase::Preparing, fallback: true, lightweight_attempt: true, ..s },
                    ResolveAction::Prepare,
                )
            } else {
                (
                    ResolveState { phase: ResolvePhase::Finished, lightweight_attempt: true, ..s },
                    ResolveAction::AnswerLightweight,
                )
            },
            Ok(LightweightAnswer::NotHandled) => (
                ResolveState { phase: ResolvePhase::Preparing, ..s },
                ResolveAction::Prepare,
            ),
        },
        (ResolvePhase::Preparing, ResolveEvent::Prepared(outcome)) => match outcome {
            Ok(()) => (ResolveState { phase: ResolvePhase::Executing, ..s }, ResolveAction::Execute),
            Err(err) => (finished, ResolveAction::Fail(err)),
        },
        (ResolvePhase::Executing, ResolveEvent::Executed(outcome)) => match outcome {
            Ok(()) => (finished, ResolveAction::AnswerRoute),
            Err(err) => if s.fallback && (err is NotFound || err is Capacity) {
                (finished, ResolveAction::AnswerFallback)
            } else {
                (finished, ResolveAction::Fail(err))
            },
        },
        _ => (s, ResolveAction::Ignore),
    }
}

/// The state in which a resolution starts.
pub fn resolve_start() -> (r: ResolveState)
    ensures
        r == initial_state(),
{
    ResolveState { phase: ResolvePhase::Start, allow_escalation: false, fallback: false, lightweight_attempt: false }
}

/// The next state of a resolution and what to do, given what was observed.
pub fn resolve_next(s: ResolveState, e: ResolveEvent) -> (r: (ResolveState, ResolveAction))
    ensures
        r == resolve_step(s, e),
{
    let finished = ResolveState { phase: ResolvePhase::Finished, ..s };
    match (s.phase, e) {
        (
            ResolvePhase::Start,
            ResolveEvent::Begin {
                validation,
                cancelled,
                swarm_mode,
                swarm_available,
                lightweight_can_handle,
                allow_escalation,
            },
        ) => {
            let s1 = ResolveState { allow_escalation, ..s };
            match validation {
                Err(err) => (ResolveState { phase: ResolvePhase::Finished, ..s1 }, ResolveAction::Fail(err)),
                Ok(()) => if cancelled {
                    (ResolveState { phase: ResolvePhase::Finished, ..s1 }, ResolveAction::Fail(AiError::Cancelled))
                } else if swarm_mode && !swarm_available {
                    (
                        ResolveState { phase: ResolvePhase::Finished, ..s1 },
                        ResolveAction::Fail(AiError::SwarmUnavailable),
                    )
                } else if !swarm_mode && lightweight_can_handle {
                    (ResolveState { phase: ResolvePhase::Lightweight, ..s1 }, ResolveAction::ConsultLightweight)
                } else {
                    (ResolveState { phase: ResolvePhase::Preparing, ..s1 }, ResolveAction::Prepare)
                },
            }
        },
        (ResolvePhase::Lightweight, ResolveEvent::Lightweight(answer)) => match answer {
            Err(err) => (finished, ResolveAction::Fail(err)),
            Ok(LightweightAnswer::Handled { escalate }) => if escalate && s.allow_escalation {
                (
                    ResolveState { phase: ResolvePhase::Preparing, fallback: true, lightweight_attempt: true, ..s },
                    ResolveAction::Prepare,
                )
            } else {
                (
                    ResolveState { phase: ResolvePhase::Finished, lightweight_attempt: true, ..s },
                    ResolveAction::AnswerLightweight,
                )
            },
            Ok(LightweightAnswer::NotHandled) => (
                ResolveState { phase: ResolvePhase::Preparing, ..s },
                ResolveAction::Prepare,
            ),
        },
        (ResolvePhase::Preparing, ResolveEvent::Prepared(outcome)) => match outcome {
            Ok(()) => (ResolveState { phase: ResolvePhase::Executing, ..s }, ResolveAction::Execute),
            Err(err) => (finished, ResolveAction::Fail(err)),
        },
        (ResolvePhase::Executing, ResolveEvent::Executed(outcome)) => match outcome {
            Ok(()) => (finished, ResolveAction::AnswerRoute),
            Err(err) => {
                let recoverable = match err {
                    AiError::NotFound(_) | AiError::Capacity(_) => true,
                    _ => false,
                };
                if s.fallback && recoverable {
                    (finished, ResolveAction::AnswerFallback)
                } else {
                    (finished, ResolveAction::Fail(err))
                }
            },
        },
        _ => (s, ResolveAction::Ignore),
    }
}

/// Once a resolution is finished, no event changes it or asks for more work.
pub proof fn law_finished_is_final(s: ResolveState, e: ResolveEvent)
    requires
        s.phase == ResolvePhase::Finished,
    ensures
        resolve_step(s, e) == (s, ResolveAction::Ignore),
{
}

/// A held lightweight answer is returned only after the lightweight resolver asked to escalate,
/// the request allowed it, and the routes then failed for want of a route or of capacity.
pub proof fn law_fallback_needs_escalation(s: ResolveState, e: ResolveEvent)
    requires
        s.phase == ResolvePhase::Start,
        !s.fallback,
    ensures
        resolve_step(s, e).1 != ResolveAction::AnswerFallback,
        resolve_step(s, e).0.fallback == false,
{
}

/// A lightweight answer that asked to escalate becomes the fallback exactly when the request
/// allows escalation, and either way it counts as one attempt.
pub proof fn law_escalation_keeps_fallback(s: ResolveState)
    requires
        s.phase == ResolvePhase::Lightweight,
    ensures
        ({
            let r = resolve_step(s, ResolveEvent::Lightweight(Ok(LightweightAnswer::Handled { escalate: true })));
            &&& r.0.lightweight_attempt
            &&& r.0.fallback == (s.fallback || s.allow_escalation)
            &&& (s.allow_escalation ==> r.1 == ResolveAction::Prepare)
            &&& (!s.allow_escalation ==> r.1 == ResolveAction::AnswerLightweight)
        }),
{
}

/// A failure while gathering model candidates or queueing is returned as it is, even where a
/// lightweight answer is held to fall back on: only failures of route execution fall back.
pub proof fn law_preparation_failure_is_returned(s: ResolveState, err: AiError)
    requires
        s.phase == ResolvePhase::Preparing,
    ensures
        resolve_step(s, ResolveEvent::Prepared(Err(err))) == (
            ResolveState { phase: ResolvePhase::Finished, ..s },
            ResolveAction::Fail(err),
        ),
{
}

/// The error that stops a request before its next attempt: cancellation first, then a deadline
/// that the time spent has reached.
pub open spec fn interruption(cancelled: bool, deadline: Option<Duration>, elapsed: Duration) -> Result<(), AiError> {
    if cancelled {
        Err(AiError::Cancelled)
    } else if deadline matches Some(d) && duration_nanos(elapsed) >= duration_nanos(d) {
        Err(AiError::DeadlineExceeded)
    } else {
        Ok(())
    }
}

/// Checks a request for cancellation and for a passed deadline.
pub fn check_cancel_deadline(cancelled: bool, deadline: Option<Duration>, elapsed: Duration) -> (r: Result<(), AiError>)
    ensures
        r == interruption(cancelled, deadline, elapsed),
{
    if cancelled {
        return Err(AiError::Cancelled);
    }
    match deadline {
        Some(d) => if nanos(elapsed) >= nanos(d) {
            Err(AiError::DeadlineExceeded)
        } else {
            Ok(())
        },
        None => Ok(()),
    }
}

/// Whether one more attempt fits the request's limit on attempts: `made` attempts were made
/// and at most `max_attempts` are allowed.
pub fn attempt_allowed(made: usize, max_attempts: usize) -> (r: Result<(), AiError>)
    ensures
        made < max_attempts ==> r is Ok,
        made >= max_attempts ==> r == Err::<(), AiError>(AiError::LimitExceeded {
            kind: LimitKind::Attempts,
            actual: if made + 1 > usize::MAX || made + 1 > u64::MAX { if usize::MAX > u64::MAX { u64::MAX } else { usize::MAX as u64 } } else { (made + 1) as u64 },
            limit: if max_attempts > u64::MAX { u64::MAX } else { max_attempts as u64 },
        }),
{
    if made < max_attempts {
        return Ok(());
    }
    let next = made.saturating_add(1);
    let actual: u64 = if next as u128 > u64::MAX as u128 { u64::MAX } else { next as u64 };
    let limit: u64 = if max_attempts as u128 > u64::MAX as u128 { u64::MAX } else { max_attempts as u64 };
    Err(AiError::LimitExceeded { kind: LimitKind::Attempts, actual, limit })
}

/// The error when every planned route was tried or none was planned: a swarm request that
/// capacity did not limit finds no swarm, a capacity-limited plan was denied, and otherwise no
/// compatible route exists.
pub fn routes_exhausted(swarm_mode: bool, capacity_limited: bool) -> (r: AiError)
    ensures
        r == (if swarm_mode && !capacity_limited {
            AiError::SwarmUnavailable
        } else if capacity_limited {
            AiError::Capacity("all model routes were denied")
        } else {
            AiError::NotFound("compatible AI route")
        }),
{
    if swarm_mode && !capacity_limited {
        AiError::SwarmUnavailable
    } else if capacity_limited {
        AiError::Capacity("all model routes were denied")
    } else {
        AiError::NotFound("compatible AI route")
    }
}

/// Why an attempt is made: the first at the lowest admitted cost, any later one as an
/// escalation.
pub fn attempt_reason(previous_attempts: usize) -> (r: RouteReason)
    ensures
        r == (if previous_attempts == 0 { RouteReason::LowestAdmittedCost } else { RouteReason::Escalated }),
{
    if previous_attempts == 0 {
        RouteReason::LowestAdmittedCost
    } else {
        RouteReason::Escalated
    }
}

/// The primary reason reported for a completed route: an escalation after more than one
/// attempt, else a forced override where the request pinned a backend or a model, else the
/// lowest admitted cost.
pub fn decision_reason(attempts: usize, backend_pinned: bool, model_pinned: bool) -> (r: RouteReason)
    ensures
        r == (if attempts > 1 {
            RouteReason::Escalated
        } else if backend_pinned || model_pinned {
            RouteReason::ForcedOverride
        } else {
            RouteReason::LowestAdmittedCost
        }),
{
    if attempts > 1 {
        RouteReason::Escalated
    } else if backend_pinned || model_pinned {
        RouteReason::ForcedOverride
    } else {
        RouteReason::LowestAdmittedCost
    }
}

/// What the runtime does after one route attempt.
#[derive(Clone, Copy, Debug, PartialEq, Eq)]
pub enum AttemptVerdict {
    /// The route answered and the request is still live: finish with its answer.
    Answer,
    /// The route failed in a way that allows escalating to the next planned route.
    TryNext,
    /// Stop with this error.
    Fail(AiError),
}

/// The checks before attempt number `made + 1`: the attempt limit first, then cancellation and
/// the deadline. When they pass, the reason recorded for the attempt.
pub open spec fn attempt_start(made: usize, max_attempts: usize, interruption: Result<(), AiError>) -> Result<
    RouteReason,
    AiError,
> {
    if made >= max_attempts {
        Err(AiError::LimitExceeded {
            kind: LimitKind::Attempts,
            actual: if made + 1 > usize::MAX || made + 1 > u64::MAX { if usize::MAX > u64::MAX { u64::MAX } else { usize::MAX as u64 } } else { (made + 1) as u64 },
            limit: if max_attempts > u64::MAX { u64::MAX } else { max_attempts as u64 },
        })
    } else if interruption is Err {
        Err(interruption->Err_0)
    } else if made == 0 {
        Ok(RouteReason::LowestAdmittedCost)
    } else {
        Ok(RouteReason::Escalated)
    }
}

/// Decides whether attempt number `made + 1` may start, given the outcome of the cancellation
/// and deadline check made just before it, and with which reason it is recorded.
pub fn begin_attempt(made: usize, max_attempts: usize, interruption: Result<(), AiError>) -> (r: Result<RouteReason, AiError>)
    ensures
        r == attempt_start(made, max_attempts, interruption),
{
    match attempt_allowed(made, max_attempts) {
        Err(e) => Err(e),
        Ok(()) => match interruption {
            Err(e) => Err(e),
            Ok(()) => Ok(attempt_reason(made)),
        },
    }
}

/// The verdict on one route attempt: an answer counts once cancellation and the deadline are
/// checked again; a failure moves on to the next route only where the request allows
/// escalation, the error is transient and the response mode can still escalate.
pub open spec fn attempt_end(
    outcome: Result<(), AiError>,
    interruption_after: Result<(), AiError>,
    allow_escalation: bool,
    transient: bool,
    can_escalate: bool,
) -> AttemptVerdict {
    match outcome {
        Ok(()) => match interruption_after {
            Ok(()) => AttemptVerdict::Answer,
            Err(e) => AttemptVerdict::Fail(e),
        },
        Err(e) => if allow_escalation && transient && can_escalate {
            AttemptVerdict::TryNext
        } else {
            AttemptVerdict::Fail(e)
        },
    }
}

/// Judges one route attempt; `transient` is whether its error is transient and
/// `interruption_after` the cancellation and deadline check made after an answer.
pub fn end_attempt(
    outcome: Result<(), AiError>,
    interruption_after: Result<(), AiError>,
    allow_escalation: bool,
    transient: bool,
    can_escalate: bool,
) -> (r: AttemptVerdict)
    ensures
        r == attempt_end(outcome, interruption_after, allow_escalation, transient, can_escalate),
{
    match outcome {
        Ok(()) => match interruption_after {
            Ok(()) => AttemptVerdict::Answer,
            Err(e) => AttemptVerdict::Fail(e),
        },
        Err(e) => if allow_escalation && transient && can_escalate {
            AttemptVerdict::TryNext
        } else {
            AttemptVerdict::Fail(e)
        },
    }
}

} // verus!
