use crate::api::config::HttpApiConfig;
use crate::api::reload::{HttpReloadPhase, HttpReloadSnapshot, RuntimeHttpReloadError};
use crate::text::text_eq;
use vstd::prelude::*;

verus! {

/// Where a reload transaction stands.
#[derive(Debug, Clone, Copy, PartialEq, Eq, Structural)]
pub enum ReloadStage {
    /// No transaction is running.
    Idle,
    /// The candidate's health is being probed before activation.
    PrepareHealth { candidate: u64 },
    /// The candidate is active and its health is being confirmed.
    SwitchHealth { previous: u64, candidate: u64 },
    /// The previous generation is draining its admitted requests.
    Draining { previous: u64, candidate: u64 },
    /// The failed candidate is draining after the previous generation was restored.
    RollbackDrain { failed: u64, outcome: RuntimeHttpReloadError },
}

/// What the host observed for the running transaction.
#[derive(Debug, Clone, Copy, PartialEq, Eq, Structural)]
pub enum ReloadEvent {
    /// A reload of `candidate` was requested; `retiring_drained` tells whether a retained
    /// retiring generation, if any, has no request left.
    Start { candidate: u64, retiring_drained: bool },
    /// Result of the candidate's health probe before activation.
    CandidateHealth(bool),
    /// Result of the candidate's health probe after activation.
    SwitchHealth(bool),
    /// Whether the previous generation drained before the deadline.
    Drained(bool),
    /// Whether the failed candidate drained before the deadline after rollback.
    RollbackDrained(bool),
}

/// What the host must do next.
#[derive(Debug, Clone, Copy, PartialEq, Eq)]
pub enum ReloadAction {
    /// Probe the candidate's health, then report `CandidateHealth`.
    ProbeCandidate { candidate: u64 },
    /// Stop admission on `previous`, route new requests to `candidate`, probe it, then report
    /// `SwitchHealth`.
    ActivateAndProbe { previous: u64, candidate: u64 },
    /// Wait for `generation` to drain, then report `Drained`.
    AwaitDrain { generation: u64 },
    /// Stop admission on `failed`, restore `restore` as the active generation, wait for `failed`
    /// to drain, then report `RollbackDrained`.
    RollBack { restore: u64, failed: u64 },
    /// The transaction is over with this outcome.
    Finish(Result<(), RuntimeHttpReloadError>),
    /// The event does not belong to the current stage; nothing changes.
    Ignore,
}

/// State of the reload coordinator.
#[derive(Debug, Clone, Copy, PartialEq, Eq, Structural)]
pub struct ReloadCoordinator {
    /// Generation selected for new requests.
    pub active: u64,
    /// Previous or failed generation retained until its requests finish.
    pub retiring: Option<u64>,
    /// Current transaction.
    pub stage: ReloadStage,
    /// Reloads that switched and drained successfully.
    pub successful_reloads: u64,
    /// Failed reload attempts, including controlled rollbacks.
    pub failed_reloads: u64,
    /// Switches restored to the prior generation.
    pub rollbacks: u64,
}

/// `n + 1`, saturating.
pub open spec fn bump(n: u64) -> u64 {
    if n == u64::MAX { n } else { (n + 1) as u64 }
}

fn bump_exec(n: u64) -> (r: u64)
    ensures
        r == bump(n),
{
    n.saturating_add(1)
}

/// The state after a refused attempt: one more failure, nothing else changed.
pub open spec fn refused(s: ReloadCoordinator) -> ReloadCoordinator {
    ReloadCoordinator { failed_reloads: bump(s.failed_reloads), ..s }
}

/// The state after rolling back from `candidate` to `previous`.
pub open spec fn rolled_back(s: ReloadCoordinator, previous: u64, candidate: u64, outcome: RuntimeHttpReloadError) -> ReloadCoordinator {
    ReloadCoordinator {
        active: previous,
        retiring: Some(candidate),
        stage: ReloadStage::RollbackDrain { failed: candidate, outcome },
        rollbacks: bump(s.rollbacks),
        failed_reloads: bump(s.failed_reloads),
        ..s
    }
}

/// One step of the coordinator.
pub open spec fn next(s: ReloadCoordinator, e: ReloadEvent) -> (ReloadCoordinator, ReloadAction) {
    match (s.stage, e) {
        (ReloadStage::Idle, ReloadEvent::Start { candidate, retiring_drained }) => {
            let retiring = if retiring_drained { None } else { s.retiring };
            let s1 = ReloadCoordinator { retiring, ..s };
            if retiring is Some {
                (refused(s1), ReloadAction::Finish(Err(RuntimeHttpReloadError::RetiringGenerationBusy)))
            } else if candidate <= s.active {
                (refused(s1), ReloadAction::Finish(Err(RuntimeHttpReloadError::StaleGeneration)))
            } else {
                (
                    ReloadCoordinator { stage: ReloadStage::PrepareHealth { candidate }, ..s1 },
                    ReloadAction::ProbeCandidate { candidate },
                )
            }
        },
        (_, ReloadEvent::Start { .. }) => (refused(s), ReloadAction::Finish(Err(RuntimeHttpReloadError::ReloadInProgress))),
        (ReloadStage::PrepareHealth { candidate }, ReloadEvent::CandidateHealth(healthy)) => {
            if !healthy {
                (
                    ReloadCoordinator { stage: ReloadStage::Idle, ..refused(s) },
                    ReloadAction::Finish(Err(RuntimeHttpReloadError::HealthGateFailed(HttpReloadPhase::Prepare))),
                )
            } else {
                (
                    ReloadCoordinator {
                        active: candidate,
                        retiring: Some(s.active),
                        stage: ReloadStage::SwitchHealth { previous: s.active, candidate },
                        ..s
                    },
                    ReloadAction::ActivateAndProbe { previous: s.active, candidate },
                )
            }
        },
        (ReloadStage::SwitchHealth { previous, candidate }, ReloadEvent::SwitchHealth(healthy)) => {
            if !healthy {
                (
                    rolled_back(s, previous, candidate, RuntimeHttpReloadError::HealthGateFailed(HttpReloadPhase::Switch)),
                    ReloadAction::RollBack { restore: previous, failed: candidate },
                )
            } else {
                (
                    ReloadCoordinator { stage: ReloadStage::Draining { previous, candidate }, ..s },
                    ReloadAction::AwaitDrain { generation: previous },
                )
            }
        },
        (ReloadStage::Draining { previous, candidate }, ReloadEvent::Drained(drained)) => {
            if !drained {
                (
                    rolled_back(s, previous, candidate, RuntimeHttpReloadError::DrainTimedOut),
                    ReloadAction::RollBack { restore: previous, failed: candidate },
                )
            } else {
                (
                    ReloadCoordinator {
                        retiring: None,
                        stage: ReloadStage::Idle,
                        successful_reloads: bump(s.successful_reloads),
                        ..s
                    },
                    ReloadAction::Finish(Ok(())),
                )
            }
        },
        (ReloadStage::RollbackDrain { failed, outcome }, ReloadEvent::RollbackDrained(drained)) => {
            if drained {
                (
                    ReloadCoordinator { retiring: None, stage: ReloadStage::Idle, ..s },
                    ReloadAction::Finish(Err(outcome)),
                )
            } else {
                (
                    ReloadCoordinator { stage: ReloadStage::Idle, ..s },
                    ReloadAction::Finish(Err(RuntimeHttpReloadError::RollbackDrainTimedOut)),
                )
            }
        },
        _ => (s, ReloadAction::Ignore),
    }
}

/// A consistent coordinator: the stage agrees with the active and retiring generations.
pub open spec fn coordinator_ok(s: ReloadCoordinator) -> bool {
    match s.stage {
        ReloadStage::Idle => true,
        ReloadStage::PrepareHealth { candidate } => s.active < candidate && s.retiring is None,
        ReloadStage::SwitchHealth { previous, candidate } => s.active == candidate && s.retiring
            == Some(previous) && previous < candidate,
        ReloadStage::Draining { previous, candidate } => s.active == candidate && s.retiring
            == Some(previous) && previous < candidate,
        ReloadStage::RollbackDrain { failed, .. } => s.retiring == Some(failed) && s.active < failed,
    }
}

/// The generation that was active when the running transaction started.
pub open spec fn origin(s: ReloadCoordinator) -> u64 {
    match s.stage {
        ReloadStage::SwitchHealth { previous, .. } => previous,
        ReloadStage::Draining { previous, .. } => previous,
        _ => s.active,
    }
}

impl ReloadCoordinator {
    /// A coordinator serving `initial_generation` with no transaction and zero counters.
    pub fn new(initial_generation: u64) -> (r: Self)
        ensures
            r == (ReloadCoordinator {
                active: initial_generation,
                retiring: None,
                stage: ReloadStage::Idle,
                successful_reloads: 0,
                failed_reloads: 0,
                rollbacks: 0,
            }),
    {
        ReloadCoordinator {
            active: initial_generation,
            retiring: None,
            stage: ReloadStage::Idle,
            successful_reloads: 0,
            failed_reloads: 0,
            rollbacks: 0,
        }
    }

    /// Applies one event and returns what the host must do next.
    pub fn step(&mut self, event: ReloadEvent) -> (r: ReloadAction)
        ensures
            (*final(self), r) == next(*old(self), event),
    {
        match (self.stage, event) {
            (ReloadStage::Idle, ReloadEvent::Start { candidate, retiring_drained }) => {
                if retiring_drained {
                    self.retiring = None;
                }
                if self.retiring.is_some() {
                    self.failed_reloads = bump_exec(self.failed_reloads);
                    ReloadAction::Finish(Err(RuntimeHttpReloadError::RetiringGenerationBusy))
                } else if candidate <= self.active {
                    self.failed_reloads = bump_exec(self.failed_reloads);
                    ReloadAction::Finish(Err(RuntimeHttpReloadError::StaleGeneration))
                } else {
                    self.stage = ReloadStage::PrepareHealth { candidate };
                    ReloadAction::ProbeCandidate { candidate }
                }
            },
            (_, ReloadEvent::Start { .. }) => {
                self.failed_reloads = bump_exec(self.failed_reloads);
                ReloadAction::Finish(Err(RuntimeHttpReloadError::ReloadInProgress))
            },
            (ReloadStage::PrepareHealth { candidate }, ReloadEvent::CandidateHealth(healthy)) => {
                if !healthy {
                    self.failed_reloads = bump_exec(self.failed_reloads);
                    self.stage = ReloadStage::Idle;
                    ReloadAction::Finish(Err(RuntimeHttpReloadError::HealthGateFailed(HttpReloadPhase::Prepare)))
                } else {
                    let previous = self.active;
                    self.retiring = Some(previous);
                    self.active = candidate;
                    self.stage = ReloadStage::SwitchHealth { previous, candidate };
                    ReloadAction::ActivateAndProbe { previous, candidate }
                }
            },
            (ReloadStage::SwitchHealth { previous, candidate }, ReloadEvent::SwitchHealth(healthy)) => {
                if !healthy {
                    self.roll_back(previous, candidate, RuntimeHttpReloadError::HealthGateFailed(HttpReloadPhase::Switch));
                    ReloadAction::RollBack { restore: previous, failed: candidate }
                } else {
                    self.stage = ReloadStage::Draining { previous, candidate };
                    ReloadAction::AwaitDrain { generation: previous }
                }
            },
            (ReloadStage::Draining { previous, candidate }, ReloadEvent::Drained(drained)) => {
                if !drained {
                    self.roll_back(previous, candidate, RuntimeHttpReloadError::DrainTimedOut);
                    ReloadAction::RollBack { restore: previous, failed: candidate }
                } else {
                    self.retiring = None;
                    self.stage = ReloadStage::Idle;
                    self.successful_reloads = bump_exec(self.successful_reloads);
                    ReloadAction::Finish(Ok(()))
                }
            },
            (ReloadStage::RollbackDrain { failed, outcome }, ReloadEvent::RollbackDrained(drained)) => {
                self.stage = ReloadStage::Idle;
                if drained {
                    self.retiring = None;
                    ReloadAction::Finish(Err(outcome))
                } else {
                    ReloadAction::Finish(Err(RuntimeHttpReloadError::RollbackDrainTimedOut))
                }
            },
            _ => ReloadAction::Ignore,
        }
    }

    fn roll_back(&mut self, previous: u64, candidate: u64, outcome: RuntimeHttpReloadError)
        ensures
            *final(self) == rolled_back(*old(self), previous, candidate, outcome),
    {
        self.active = previous;
        self.retiring = Some(candidate);
        self.stage = ReloadStage::RollbackDrain { failed: candidate, outcome };
        self.rollbacks = bump_exec(self.rollbacks);
        self.failed_reloads = bump_exec(self.failed_reloads);
    }

    /// Counters and state, with the in-flight count the host measured on the active generation.
    pub fn snapshot(&self, active_inflight: usize) -> (r: HttpReloadSnapshot)
        ensures
            r == (HttpReloadSnapshot {
                active_generation: self.active,
                active_inflight,
                reload_in_progress: !(self.stage is Idle),
                successful_reloads: self.successful_reloads,
                failed_reloads: self.failed_reloads,
                rollbacks: self.rollbacks,
            }),
    {
        let busy = match self.stage {
            ReloadStage::Idle => false,
            _ => true,
        };
        HttpReloadSnapshot {
            active_generation: self.active,
            active_inflight,
            reload_in_progress: busy,
            successful_reloads: self.successful_reloads,
            failed_reloads: self.failed_reloads,
            rollbacks: self.rollbacks,
        }
    }
}

/// Every step keeps the coordinator consistent.
pub proof fn step_keeps_coordinator_consistent(s: ReloadCoordinator, e: ReloadEvent)
    requires
        coordinator_ok(s),
    ensures
        coordinator_ok(next(s, e).0),
{
}

/// A transaction that ends in an error leaves the generation that was active when it started
/// (an attempt refused because another transaction runs changes nothing but the failure count).
pub proof fn failed_reload_keeps_active_generation(s: ReloadCoordinator, e: ReloadEvent)
    requires
        coordinator_ok(s),
        s.stage is Idle || !(e is Start),
        next(s, e).1 matches ReloadAction::Finish(Err(_)),
    ensures
        next(s, e).0.active == origin(s),
{
}

/// Rolling back restores the generation that was active before the switch.
pub proof fn rollback_restores_previous_generation(s: ReloadCoordinator, e: ReloadEvent)
    requires
        coordinator_ok(s),
        next(s, e).1 matches ReloadAction::RollBack { .. },
    ensures
        next(s, e).0.active == origin(s),
        next(s, e).0.rollbacks == bump(s.rollbacks),
{
}

/// A successful reload makes the candidate active, and it is newer than what it replaced.
pub proof fn successful_reload_advances_generation(s: ReloadCoordinator, e: ReloadEvent)
    requires
        coordinator_ok(s),
        next(s, e).1 == ReloadAction::Finish(Ok(())),
    ensures
        next(s, e).0.active == s.active,
        origin(s) < next(s, e).0.active,
        next(s, e).0.successful_reloads == bump(s.successful_reloads),
{
}

/// A generation that is not newer than the active one never starts a transaction.
pub proof fn stale_generation_is_refused(s: ReloadCoordinator, candidate: u64, retiring_drained: bool)
    requires
        candidate <= s.active,
    ensures
        next(s, ReloadEvent::Start { candidate, retiring_drained }).1 matches ReloadAction::Finish(Err(_)),
        next(s, ReloadEvent::Start { candidate, retiring_drained }).0.active == s.active,
        next(s, ReloadEvent::Start { candidate, retiring_drained }).0.stage == s.stage,
{
}

/// While a transaction runs, another attempt is refused and changes nothing but the failure count.
pub proof fn concurrent_reload_is_refused(s: ReloadCoordinator, candidate: u64, retiring_drained: bool)
    requires
        !(s.stage is Idle),
    ensures
        next(s, ReloadEvent::Start { candidate, retiring_drained }) == (
            refused(s),
            ReloadAction::Finish(Err(RuntimeHttpReloadError::ReloadInProgress)),
        ),
{
}

/// Counters never decrease.
pub proof fn counters_never_decrease(s: ReloadCoordinator, e: ReloadEvent)
    ensures
        next(s, e).0.successful_reloads >= s.successful_reloads,
        next(s, e).0.failed_reloads >= s.failed_reloads,
        next(s, e).0.rollbacks >= s.rollbacks,
{
}

/// Whether a reloadable host may be created: an enabled listener and a non-zero generation.
pub open spec fn initial_check(enabled: bool, initial_generation: u64) -> Result<(), RuntimeHttpReloadError> {
    if !enabled {
        Err(RuntimeHttpReloadError::ListenerDisabled)
    } else if initial_generation == 0 {
        Err(RuntimeHttpReloadError::StaleGeneration)
    } else {
        Ok(())
    }
}

/// Checks the settings of a new reloadable host.
pub fn check_initial(config: &HttpApiConfig, initial_generation: u64) -> (r: Result<(), RuntimeHttpReloadError>)
    ensures
        r == initial_check(config.enabled, initial_generation),
{
    if !config.enabled {
        return Err(RuntimeHttpReloadError::ListenerDisabled);
    }
    if initial_generation == 0 {
        return Err(RuntimeHttpReloadError::StaleGeneration);
    }
    Ok(())
}

/// Whether a candidate may be prepared: a newer generation on the same enabled listener with
/// the same authentication boundary.
pub open spec fn prepare_check(
    active: u64,
    current: HttpApiConfig,
    current_auth: bool,
    generation: u64,
    candidate: HttpApiConfig,
    candidate_auth: bool,
) -> Result<(), RuntimeHttpReloadError> {
    if generation <= active {
        Err(RuntimeHttpReloadError::StaleGeneration)
    } else if !candidate.enabled {
        Err(RuntimeHttpReloadError::ListenerDisabled)
    } else if candidate.host@ != current.host@ || candidate.port != current.port {
        Err(RuntimeHttpReloadError::ListenerAddressChanged)
    } else if candidate_auth != current_auth {
        Err(RuntimeHttpReloadError::AuthenticationPolicyChanged)
    } else {
        Ok(())
    }
}

/// Checks a candidate generation against the running host.
pub fn check_prepare(
    active: u64,
    current: &HttpApiConfig,
    current_auth: bool,
    generation: u64,
    candidate: &HttpApiConfig,
    candidate_auth: bool,
) -> (r: Result<(), RuntimeHttpReloadError>)
    ensures
        r == prepare_check(active, *current, current_auth, generation, *candidate, candidate_auth),
{
    if generation <= active {
        return Err(RuntimeHttpReloadError::StaleGeneration);
    }
    if !candidate.enabled {
        return Err(RuntimeHttpReloadError::ListenerDisabled);
    }
    if !text_eq(candidate.host.as_str(), current.host.as_str()) || candidate.port != current.port {
        return Err(RuntimeHttpReloadError::ListenerAddressChanged);
    }
    if candidate_auth != current_auth {
        return Err(RuntimeHttpReloadError::AuthenticationPolicyChanged);
    }
    Ok(())
}

} // verus!
