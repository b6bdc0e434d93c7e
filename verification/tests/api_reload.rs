use appcore::api::decisions::command_validation_reason;
use appcore::api::generations::{generations_snapshot, HttpRoutingGenerationSnapshot};
use appcore::api::reload_machine::{check_initial, check_prepare};
use appcore::{
    CommandRequestValidationError, HttpApiConfig, HttpReloadPhase, HttpReloadPolicy, ReloadAction, ReloadCoordinator,
    ReloadEvent, ReloadStage, RuntimeHttpReloadError,
};
use std::time::Duration;

fn enabled_config(port: u16) -> HttpApiConfig {
    HttpApiConfig { enabled: true, port, ..HttpApiConfig::default() }
}

#[test]
fn construction_and_prepare_reject_unsafe_boundaries() {
    assert_eq!(check_initial(&HttpApiConfig::default(), 1), Err(RuntimeHttpReloadError::ListenerDisabled));
    let current = enabled_config(39001);
    assert_eq!(check_initial(&current, 1), Ok(()));
    assert_eq!(check_initial(&current, 0), Err(RuntimeHttpReloadError::StaleGeneration));
    assert_eq!(
        check_prepare(1, &current, true, 1, &enabled_config(39001), true),
        Err(RuntimeHttpReloadError::StaleGeneration)
    );
    assert_eq!(
        check_prepare(1, &current, true, 2, &enabled_config(39002), true),
        Err(RuntimeHttpReloadError::ListenerAddressChanged)
    );
    assert_eq!(
        check_prepare(1, &current, true, 2, &enabled_config(39001), false),
        Err(RuntimeHttpReloadError::AuthenticationPolicyChanged)
    );
    assert_eq!(check_prepare(1, &current, true, 2, &enabled_config(39001), true), Ok(()));

    assert_eq!(HttpReloadPolicy::new(Duration::ZERO, Duration::from_secs(1)), Err(RuntimeHttpReloadError::InvalidPolicy));
    assert_eq!(HttpReloadPolicy::new(Duration::from_secs(61), Duration::from_secs(1)), Err(RuntimeHttpReloadError::InvalidPolicy));
    let policy = HttpReloadPolicy::new(Duration::from_secs(60), Duration::from_millis(1)).unwrap();
    assert_eq!(policy.health_timeout(), Duration::from_secs(60));
    assert_eq!(policy.drain_timeout(), Duration::from_millis(1));
}

#[test]
fn unhealthy_candidate_never_changes_active_generation() {
    let mut host = ReloadCoordinator::new(1);
    assert_eq!(host.step(ReloadEvent::Start { candidate: 2, retiring_drained: true }), ReloadAction::ProbeCandidate { candidate: 2 });
    assert_eq!(
        host.step(ReloadEvent::CandidateHealth(false)),
        ReloadAction::Finish(Err(RuntimeHttpReloadError::HealthGateFailed(HttpReloadPhase::Prepare)))
    );
    let snapshot = host.snapshot(0);
    assert_eq!(snapshot.active_generation, 1);
    assert_eq!(snapshot.failed_reloads, 1);
    assert_eq!(snapshot.rollbacks, 0);
    assert!(!snapshot.reload_in_progress);
}

#[test]
fn post_switch_health_failure_restores_previous_generation() {
    let mut host = ReloadCoordinator::new(1);
    host.step(ReloadEvent::Start { candidate: 2, retiring_drained: true });
    assert_eq!(
        host.step(ReloadEvent::CandidateHealth(true)),
        ReloadAction::ActivateAndProbe { previous: 1, candidate: 2 }
    );
    assert_eq!(host.snapshot(0).active_generation, 2);
    assert_eq!(host.step(ReloadEvent::SwitchHealth(false)), ReloadAction::RollBack { restore: 1, failed: 2 });
    assert_eq!(host.active, 1);
    assert_eq!(
        host.step(ReloadEvent::RollbackDrained(true)),
        ReloadAction::Finish(Err(RuntimeHttpReloadError::HealthGateFailed(HttpReloadPhase::Switch)))
    );
    let snapshot = host.snapshot(0);
    assert_eq!(snapshot.active_generation, 1);
    assert_eq!(snapshot.failed_reloads, 1);
    assert_eq!(snapshot.rollbacks, 1);
    assert_eq!(host.retiring, None);
}

#[test]
fn successful_reload_switches_and_drains() {
    let mut host = ReloadCoordinator::new(1);
    host.step(ReloadEvent::Start { candidate: 5, retiring_drained: true });
    host.step(ReloadEvent::CandidateHealth(true));
    assert_eq!(host.step(ReloadEvent::SwitchHealth(true)), ReloadAction::AwaitDrain { generation: 1 });
    assert_eq!(host.step(ReloadEvent::Drained(true)), ReloadAction::Finish(Ok(())));
    assert_eq!(host.active, 5);
    assert_eq!(host.successful_reloads, 1);
    assert_eq!(host.stage, ReloadStage::Idle);
    assert_eq!(
        host.step(ReloadEvent::Start { candidate: 5, retiring_drained: true }),
        ReloadAction::Finish(Err(RuntimeHttpReloadError::StaleGeneration))
    );
}

#[test]
fn drain_timeout_rolls_back_and_busy_retiring_blocks_next_reload() {
    let mut host = ReloadCoordinator::new(1);
    host.step(ReloadEvent::Start { candidate: 2, retiring_drained: true });
    host.step(ReloadEvent::CandidateHealth(true));
    host.step(ReloadEvent::SwitchHealth(true));
    assert_eq!(host.step(ReloadEvent::Drained(false)), ReloadAction::RollBack { restore: 1, failed: 2 });
    assert_eq!(
        host.step(ReloadEvent::RollbackDrained(false)),
        ReloadAction::Finish(Err(RuntimeHttpReloadError::RollbackDrainTimedOut))
    );
    assert_eq!(host.active, 1);
    assert_eq!(host.retiring, Some(2));
    assert_eq!(
        host.step(ReloadEvent::Start { candidate: 3, retiring_drained: false }),
        ReloadAction::Finish(Err(RuntimeHttpReloadError::RetiringGenerationBusy))
    );
    assert_eq!(host.step(ReloadEvent::Start { candidate: 3, retiring_drained: true }), ReloadAction::ProbeCandidate { candidate: 3 });
    assert_eq!(
        host.step(ReloadEvent::Start { candidate: 4, retiring_drained: true }),
        ReloadAction::Finish(Err(RuntimeHttpReloadError::ReloadInProgress))
    );
    assert_eq!(host.failed_reloads, 3);
    assert_eq!(host.step(ReloadEvent::Drained(true)), ReloadAction::Ignore);
}

#[test]
fn reload_error_messages() {
    assert_eq!(
        RuntimeHttpReloadError::HealthGateFailed(HttpReloadPhase::Switch).message(),
        "HTTP reload health gate failed during Switch"
    );
    assert_eq!(RuntimeHttpReloadError::InvalidPolicy.message(), "HTTP reload policy is invalid");
    assert_eq!(command_validation_reason(CommandRequestValidationError::PayloadTooLarge), "payload_too_large");
}

#[test]
fn generation_report_hides_a_retiring_copy_of_the_active_generation() {
    let active = HttpRoutingGenerationSnapshot { generation: 2, accepting: true, inflight: 1 };
    let same = HttpRoutingGenerationSnapshot { generation: 2, accepting: false, inflight: 0 };
    let old = HttpRoutingGenerationSnapshot { generation: 1, accepting: false, inflight: 3 };
    let report = generations_snapshot(active, Some(same));
    assert_eq!(report.retiring, None);
    assert_eq!(report.retained_generations, 1);
    let report = generations_snapshot(active, Some(old));
    assert_eq!(report.retiring, Some(old));
    assert_eq!(report.retained_generations, 2);
    assert_eq!(report.max_retained_generations, 2);
}
