use appcore::ai::local_route::{
    bounded_estimate, device_eligible, local_step, merge_hardware_metrics, LocalCosts, LocalRoutePlan, LocalStep,
};
use appcore::ai::resolve::{
    attempt_allowed, attempt_reason, begin_attempt, check_cancel_deadline, decision_reason, end_attempt, AttemptVerdict, resolve_next, resolve_start, routes_exhausted, LightweightAnswer,
    ResolveAction, ResolveEvent, ResolvePhase,
};
use appcore::ai::routing::{placement_context, planned_routes, swarm_candidates};
use appcore::ai::{
    AdmissionVerdict, AiError, AiLatencyClass, AiPriority, AiResourceMode, ArtifactLocation, BackendHealth, BackendId, CapabilityId,
    ComputeTarget, DeviceId, DeviceKind, LimitKind, ModelId, PeerId, PlacementKey, PlacementMetrics, PlacementPlan,
    PlacementRejection, PlacementRejectionReason, ResourceEstimate, RouteReason, ScoredPlacement, SwarmRoute,
};
use std::time::Duration;

fn route(tenant: &str, backend: &str, device: &str) -> SwarmRoute {
    SwarmRoute {
        peer: PeerId::new("peer/a").unwrap(),
        peer_class: "worker".into(),
        tenant: CapabilityId::new(tenant).unwrap(),
        backend: BackendId::new(backend).unwrap(),
        device: DeviceId::new(device).unwrap(),
        kind: DeviceKind::Gpu,
        health: BackendHealth::Healthy,
        metrics: PlacementMetrics::default(),
        resources: ResourceEstimate { cpu_percent: 10, memory_bytes: 512, workers: 1, ..ResourceEstimate::default() },
        artifact_source: Some(ArtifactLocation::LocalStorage),
        model_resident: true,
        load_time_ms: 40,
        transfer_cost_units: 3,
        inference_cost_units: 7,
        rtt_ms: 10,
        bandwidth_bytes_per_second: Some(2_000),
        failover_cost_units: 9,
        lease_remaining: Duration::from_secs(1),
    }
}

fn run(
    tenant: Option<&CapabilityId>,
    backend_pin: Option<&BackendId>,
    device_pin: Option<&DeviceId>,
    routes: Vec<SwarmRoute>,
    artifact_allowed: Vec<bool>,
    max_peers: usize,
    elapsed: Duration,
) -> Result<Vec<appcore::ai::PlacementCandidate>, AiError> {
    let model = ModelId::new("model/a").unwrap();
    let supported = vec![true; routes.len()];
    swarm_candidates(
        false,
        true,
        true,
        max_peers,
        tenant,
        backend_pin,
        device_pin,
        &model,
        routes,
        supported,
        artifact_allowed,
        elapsed,
    )
}

#[test]
fn swarm_candidates_keep_usable_routes_in_order() {
    let tenant = CapabilityId::new("tenant/a").unwrap();
    let routes = vec![
        route("tenant/a", "backend/x", "dev/1"),
        route("tenant/b", "backend/x", "dev/2"),
        route("tenant/a", "backend/y", "dev/3"),
        route("tenant/a", "backend/x", "dev/4"),
    ];
    let out = run(Some(&tenant), None, None, routes, vec![true, true, true, false], 8, Duration::ZERO).unwrap();
    assert_eq!(out.len(), 2);
    assert_eq!(out[0].key.target, ComputeTarget::RemotePeer {
        peer: PeerId::new("peer/a").unwrap(),
        device: DeviceId::new("dev/1").unwrap(),
        kind: DeviceKind::Gpu,
    });
    assert_eq!(out[0].key.backend, BackendId::new("backend/x").unwrap());
    assert_eq!(out[0].rtt_ms, Some(10));
    assert!(out[0].trusted);
    assert_eq!(out[0].load_time_ms, 40);
    assert_eq!(out[0].failover_cost_units, 9);
    assert_eq!(out[1].key.backend, BackendId::new("backend/y").unwrap());
}

#[test]
fn swarm_candidates_honor_backend_and_device_pins() {
    let tenant = CapabilityId::new("tenant/a").unwrap();
    let routes = vec![route("tenant/a", "backend/x", "dev/1"), route("tenant/a", "backend/y", "dev/2")];
    let pinned = BackendId::new("backend/y").unwrap();
    let out = run(Some(&tenant), Some(&pinned), None, routes.clone(), vec![true, true], 8, Duration::ZERO).unwrap();
    assert_eq!(out.len(), 1);
    assert_eq!(out[0].key.backend, pinned);
    let device = DeviceId::new("dev/1").unwrap();
    let out = run(Some(&tenant), None, Some(&device), routes, vec![true, true], 8, Duration::ZERO).unwrap();
    assert_eq!(out.len(), 1);
    assert_eq!(out[0].key.backend, BackendId::new("backend/x").unwrap());
}

#[test]
fn swarm_candidates_drop_routes_whose_lease_ends_too_soon() {
    let tenant = CapabilityId::new("tenant/a").unwrap();
    // Lease 1 s; rtt + load = 50 ms.
    let routes = vec![route("tenant/a", "backend/x", "dev/1")];
    assert_eq!(run(Some(&tenant), None, None, routes.clone(), vec![true], 8, Duration::from_millis(949)).unwrap().len(), 1);
    assert!(run(Some(&tenant), None, None, routes.clone(), vec![true], 8, Duration::from_millis(950)).unwrap().is_empty());
    assert!(run(Some(&tenant), None, None, routes, vec![true], 8, Duration::MAX).unwrap().is_empty());
}

#[test]
fn swarm_candidates_refuse_too_many_peers_and_invalid_routes() {
    let tenant = CapabilityId::new("tenant/a").unwrap();
    let routes = vec![route("tenant/a", "backend/x", "dev/1"), route("tenant/a", "backend/x", "dev/2")];
    assert_eq!(
        run(Some(&tenant), None, None, routes.clone(), vec![true, true], 1, Duration::ZERO),
        Err(AiError::LimitExceeded { kind: LimitKind::Peers, actual: 2, limit: 1 })
    );
    let mut bad = routes.clone();
    bad[1].rtt_ms = 0;
    assert_eq!(
        run(Some(&tenant), None, None, bad, vec![true, true], 8, Duration::ZERO),
        Err(AiError::InvalidInput("AI swarm route"))
    );
    let model = ModelId::new("model/a").unwrap();
    let unsupported = swarm_candidates(
        false,
        true,
        true,
        8,
        Some(&tenant),
        None,
        None,
        &model,
        routes.clone(),
        vec![true, false],
        vec![true, true],
        Duration::ZERO,
    );
    assert_eq!(unsupported, Err(AiError::InvalidInput("AI swarm route")));
    assert_eq!(run(None, None, None, routes.clone(), vec![true, true], 8, Duration::ZERO), Err(AiError::Unauthorized));
    let no_bridge = swarm_candidates(
        false,
        true,
        false,
        8,
        Some(&tenant),
        None,
        None,
        &model,
        routes.clone(),
        vec![true, true],
        vec![true, true],
        Duration::ZERO,
    );
    assert_eq!(no_bridge, Err(AiError::SwarmUnavailable));
    let local_only = swarm_candidates(
        true,
        true,
        false,
        0,
        None,
        None,
        None,
        &model,
        routes,
        vec![true, true],
        vec![true, true],
        Duration::ZERO,
    );
    assert_eq!(local_only, Ok(vec![]));
}

fn scored(device: &str, score: u64) -> ScoredPlacement {
    ScoredPlacement {
        key: PlacementKey {
            model: ModelId::new("model/a").unwrap(),
            backend: BackendId::new("backend/x").unwrap(),
            target: ComputeTarget::LocalCpu(DeviceId::new(device).unwrap()),
        },
        score,
        artifact_source: None,
    }
}

#[test]
fn planned_routes_apply_cost_cap_and_report_limits() {
    let plan = PlacementPlan { ordered: vec![scored("a", 5), scored("b", 20), scored("c", 10)], rejected: vec![] };
    let (routes, limited) = planned_routes(plan.clone(), Some(10), false);
    assert_eq!(routes, vec![scored("a", 5), scored("c", 10)]);
    assert!(limited);
    let (routes, limited) = planned_routes(plan.clone(), None, false);
    assert_eq!(routes.len(), 3);
    assert!(!limited);
    let (_, limited) = planned_routes(plan.clone(), None, true);
    assert!(limited);
    let rejected = PlacementPlan {
        ordered: vec![scored("a", 5)],
        rejected: vec![PlacementRejection { key: scored("z", 0).key, reason: PlacementRejectionReason::Memory }],
    };
    let (routes, limited) = planned_routes(rejected, Some(100), false);
    assert_eq!(routes, vec![scored("a", 5)]);
    assert!(limited);
}

#[test]
fn placement_context_reflects_request_options() {
    let ctx = placement_context(
        AiPriority::High,
        AiLatencyClass::Interactive,
        AiResourceMode::Eco,
        Some(Duration::from_millis(100)),
        Duration::from_millis(30),
        false,
        true,
        true,
        Duration::from_millis(250),
        true,
    );
    assert_eq!(ctx.deadline_remaining, Some(Duration::from_millis(70)));
    assert!(ctx.allow_remote);
    assert!(ctx.prefer_local);
    assert!(ctx.pressure_limited);
    let late = placement_context(
        AiPriority::Normal,
        AiLatencyClass::Balanced,
        AiResourceMode::Balanced,
        Some(Duration::from_millis(10)),
        Duration::from_millis(30),
        true,
        true,
        false,
        Duration::ZERO,
        false,
    );
    assert_eq!(late.deadline_remaining, Some(Duration::ZERO));
    assert!(!late.allow_remote);
}

#[test]
fn local_helpers_bound_and_merge() {
    let e = bounded_estimate(ResourceEstimate { memory_bytes: 10, vram_bytes: 500, ..ResourceEstimate::default() }, 100, 50);
    assert_eq!(e.memory_bytes, 100);
    assert_eq!(e.vram_bytes, 500);
    assert_eq!(e.workers, 1);
    let backend = PlacementMetrics {
        load_percent: Some(10),
        queue_depth: 4,
        available_memory_bytes: Some(1),
        available_vram_bytes: Some(2),
        latency_ema_ms: Some(30),
        throughput_ema: Some(40),
    };
    let hardware = PlacementMetrics {
        load_percent: Some(80),
        queue_depth: 99,
        available_memory_bytes: None,
        available_vram_bytes: Some(7),
        latency_ema_ms: Some(1),
        throughput_ema: None,
    };
    let m = merge_hardware_metrics(backend, Some(hardware));
    assert_eq!(m.load_percent, Some(80));
    assert_eq!(m.queue_depth, 4);
    assert_eq!(m.available_memory_bytes, Some(1));
    assert_eq!(m.available_vram_bytes, Some(7));
    assert_eq!(m.latency_ema_ms, Some(30));
    assert_eq!(m.throughput_ema, Some(40));
    assert_eq!(merge_hardware_metrics(backend, None), backend);
    let dev = DeviceId::new("cpu/0").unwrap();
    let other = DeviceId::new("cpu/1").unwrap();
    assert!(device_eligible(None, &dev, DeviceKind::Cpu, &vec![DeviceKind::Cpu]));
    assert!(!device_eligible(Some(&other), &dev, DeviceKind::Cpu, &vec![DeviceKind::Cpu]));
    assert!(!device_eligible(None, &dev, DeviceKind::Gpu, &vec![DeviceKind::Cpu]));
}

#[test]
fn local_step_reports_each_outcome() {
    let model = ModelId::new("model/a").unwrap();
    let backend = BackendId::new("backend/x").unwrap();
    let dev = DeviceId::new("cpu/0").unwrap();
    let kinds = vec![DeviceKind::Cpu];
    let costs = LocalCosts { model_load_units: u64::MAX, backend_load_units: 5, inference_units: 3 };
    let step = |admission, resident, source: Option<ArtifactLocation>, available, kind| {
        local_step(
            None,
            &model,
            &backend,
            &dev,
            kind,
            &kinds,
            BackendHealth::Degraded,
            ResourceEstimate::default(),
            admission,
            resident,
            source,
            available,
            PlacementMetrics::default(),
            None,
            costs,
        )
    };
    assert_eq!(step(AdmissionVerdict::Reject, false, None, false, DeviceKind::Gpu), LocalStep::Skipped);
    assert_eq!(step(AdmissionVerdict::Defer, false, None, false, DeviceKind::Cpu), LocalStep::Restricted);
    assert_eq!(
        step(AdmissionVerdict::Admit { pressure_limited: true }, false, None, true, DeviceKind::Cpu),
        LocalStep::Unsourced { pressure_limited: true }
    );
    match step(AdmissionVerdict::Admit { pressure_limited: false }, false, None, false, DeviceKind::Cpu) {
        LocalStep::Candidate { candidate, pressure_limited } => {
            assert!(!pressure_limited);
            assert_eq!(candidate.key.target, ComputeTarget::LocalCpu(dev.clone()));
            assert_eq!(candidate.load_time_ms, u64::MAX);
            assert_eq!(candidate.transfer_cost_units, u64::MAX);
            assert_eq!(candidate.inference_cost_units, 3);
            assert_eq!(candidate.failover_cost_units, 5);
            assert_eq!(candidate.rtt_ms, None);
            assert_eq!(candidate.health, BackendHealth::Degraded);
        },
        other => panic!("unexpected {other:?}"),
    }
    match step(AdmissionVerdict::Admit { pressure_limited: false }, true, Some(ArtifactLocation::LocalStorage), true, DeviceKind::Cpu) {
        LocalStep::Candidate { candidate, .. } => {
            assert_eq!(candidate.transfer_cost_units, 0);
            assert_eq!(candidate.artifact_source, Some(ArtifactLocation::LocalStorage));
        },
        other => panic!("unexpected {other:?}"),
    }
}

fn begin(validation: Result<(), AiError>, cancelled: bool, swarm: bool, available: bool, light: bool, escalate: bool) -> ResolveEvent {
    ResolveEvent::Begin {
        validation,
        cancelled,
        swarm_mode: swarm,
        swarm_available: available,
        lightweight_can_handle: light,
        allow_escalation: escalate,
    }
}

#[test]
fn resolve_machine_refuses_before_any_work() {
    let s = resolve_start();
    let bad = Err(AiError::InvalidInput("AI request"));
    assert_eq!(resolve_next(s, begin(bad, false, false, false, false, false)).1, ResolveAction::Fail(AiError::InvalidInput("AI request")));
    assert_eq!(resolve_next(s, begin(Ok(()), true, false, false, false, false)).1, ResolveAction::Fail(AiError::Cancelled));
    let (done, action) = resolve_next(s, begin(Ok(()), false, true, false, true, false));
    assert_eq!(action, ResolveAction::Fail(AiError::SwarmUnavailable));
    assert_eq!(done.phase, ResolvePhase::Finished);
    assert_eq!(resolve_next(done, ResolveEvent::Executed(Ok(()))), (done, ResolveAction::Ignore));
    assert_eq!(resolve_next(s, begin(Ok(()), false, true, true, true, false)).1, ResolveAction::Prepare);
}

#[test]
fn resolve_machine_answers_lightweight_and_falls_back() {
    let s = resolve_start();
    let (s1, a1) = resolve_next(s, begin(Ok(()), false, false, false, true, true));
    assert_eq!(a1, ResolveAction::ConsultLightweight);
    let (p2, a2) = resolve_next(s1, ResolveEvent::Lightweight(Ok(LightweightAnswer::Handled { escalate: true })));
    assert_eq!(a2, ResolveAction::Prepare);
    assert!(p2.fallback && p2.lightweight_attempt);
    // A missing pinned model or a full queue is returned as it is, even with a fallback held.
    assert_eq!(
        resolve_next(p2, ResolveEvent::Prepared(Err(AiError::NotFound("AI model")))).1,
        ResolveAction::Fail(AiError::NotFound("AI model"))
    );
    assert_eq!(
        resolve_next(p2, ResolveEvent::Prepared(Err(AiError::Capacity("AI execution queue")))).1,
        ResolveAction::Fail(AiError::Capacity("AI execution queue"))
    );
    assert_eq!(resolve_next(p2, ResolveEvent::Executed(Ok(()))).1, ResolveAction::Ignore);
    let (s2, a3) = resolve_next(p2, ResolveEvent::Prepared(Ok(())));
    assert_eq!(a3, ResolveAction::Execute);
    assert!(s2.fallback);
    assert_eq!(resolve_next(s2, ResolveEvent::Executed(Err(AiError::Capacity("x")))).1, ResolveAction::AnswerFallback);
    assert_eq!(resolve_next(s2, ResolveEvent::Executed(Err(AiError::NotFound("x")))).1, ResolveAction::AnswerFallback);
    assert_eq!(resolve_next(s2, ResolveEvent::Executed(Err(AiError::Cancelled))).1, ResolveAction::Fail(AiError::Cancelled));
    assert_eq!(resolve_next(s2, ResolveEvent::Executed(Ok(()))).1, ResolveAction::AnswerRoute);

    let (n1, _) = resolve_next(s, begin(Ok(()), false, false, false, true, false));
    let (n2, a) = resolve_next(n1, ResolveEvent::Lightweight(Ok(LightweightAnswer::Handled { escalate: true })));
    assert_eq!(a, ResolveAction::AnswerLightweight);
    assert!(n2.lightweight_attempt);
    let (n2b, a) = resolve_next(n1, ResolveEvent::Lightweight(Ok(LightweightAnswer::NotHandled)));
    assert_eq!(a, ResolveAction::Prepare);
    let (n3, a) = resolve_next(n2b, ResolveEvent::Prepared(Ok(())));
    assert_eq!(a, ResolveAction::Execute);
    assert!(!n3.fallback);
    assert_eq!(resolve_next(n3, ResolveEvent::Executed(Err(AiError::NotFound("x")))).1, ResolveAction::Fail(AiError::NotFound("x")));
    assert_eq!(
        resolve_next(n1, ResolveEvent::Lightweight(Err(AiError::Unauthorized))).1,
        ResolveAction::Fail(AiError::Unauthorized)
    );
}

#[test]
fn execution_checks_cancel_deadline_attempts_and_exhaustion() {
    assert_eq!(check_cancel_deadline(true, None, Duration::ZERO), Err(AiError::Cancelled));
    assert_eq!(check_cancel_deadline(false, Some(Duration::from_millis(5)), Duration::from_millis(5)), Err(AiError::DeadlineExceeded));
    assert_eq!(check_cancel_deadline(false, Some(Duration::from_millis(5)), Duration::from_millis(4)), Ok(()));
    assert_eq!(check_cancel_deadline(false, None, Duration::MAX), Ok(()));
    assert_eq!(attempt_allowed(2, 3), Ok(()));
    assert_eq!(attempt_allowed(3, 3), Err(AiError::LimitExceeded { kind: LimitKind::Attempts, actual: 4, limit: 3 }));
    assert_eq!(routes_exhausted(true, false), AiError::SwarmUnavailable);
    assert_eq!(routes_exhausted(true, true), AiError::Capacity("all model routes were denied"));
    assert_eq!(routes_exhausted(false, false), AiError::NotFound("compatible AI route"));
}

#[test]
fn route_reasons_follow_attempts_and_overrides() {
    assert_eq!(attempt_reason(0), RouteReason::LowestAdmittedCost);
    assert_eq!(attempt_reason(1), RouteReason::Escalated);
    assert_eq!(decision_reason(2, true, true), RouteReason::Escalated);
    assert_eq!(decision_reason(1, false, true), RouteReason::ForcedOverride);
    assert_eq!(decision_reason(1, true, false), RouteReason::ForcedOverride);
    assert_eq!(decision_reason(1, false, false), RouteReason::LowestAdmittedCost);
}

#[test]
fn planned_routes_try_a_repeated_key_once() {
    let plan = PlacementPlan { ordered: vec![scored("a", 5), scored("a", 7), scored("b", 8)], rejected: vec![] };
    let (routes, limited) = planned_routes(plan, None, false);
    assert_eq!(routes, vec![scored("a", 5), scored("b", 8)]);
    assert!(!limited);
    let capped_first = PlacementPlan { ordered: vec![scored("a", 20), scored("a", 5)], rejected: vec![] };
    let (routes, limited) = planned_routes(capped_first, Some(10), false);
    assert_eq!(routes, vec![scored("a", 5)]);
    assert!(limited);
}

#[test]
fn attempts_start_and_end_as_the_loop_decides() {
    assert_eq!(begin_attempt(0, 2, Ok(())), Ok(RouteReason::LowestAdmittedCost));
    assert_eq!(begin_attempt(1, 2, Ok(())), Ok(RouteReason::Escalated));
    assert_eq!(
        begin_attempt(2, 2, Err(AiError::Cancelled)),
        Err(AiError::LimitExceeded { kind: LimitKind::Attempts, actual: 3, limit: 2 })
    );
    assert_eq!(begin_attempt(1, 2, Err(AiError::DeadlineExceeded)), Err(AiError::DeadlineExceeded));
    assert_eq!(end_attempt(Ok(()), Ok(()), false, false, false), AttemptVerdict::Answer);
    assert_eq!(end_attempt(Ok(()), Err(AiError::Cancelled), true, true, true), AttemptVerdict::Fail(AiError::Cancelled));
    let err = AiError::Capacity("backend busy");
    assert_eq!(end_attempt(Err(err), Ok(()), true, true, true), AttemptVerdict::TryNext);
    assert_eq!(end_attempt(Err(err), Ok(()), false, true, true), AttemptVerdict::Fail(err));
    assert_eq!(end_attempt(Err(err), Ok(()), true, false, true), AttemptVerdict::Fail(err));
    assert_eq!(end_attempt(Err(err), Ok(()), true, true, false), AttemptVerdict::Fail(err));
}

#[test]
fn local_plan_folds_device_outcomes() {
    let tenant = CapabilityId::new("tenant/a").unwrap();
    let remote = run(Some(&tenant), None, None, vec![route("tenant/a", "backend/x", "dev/1")], vec![true], 8, Duration::ZERO)
        .unwrap();
    let model = ModelId::new("model/a").unwrap();
    let backend = BackendId::new("backend/x").unwrap();
    let dev = DeviceId::new("cpu/0").unwrap();
    let costs = LocalCosts { model_load_units: 1, backend_load_units: 2, inference_units: 3 };
    let candidate = local_step(
        None,
        &model,
        &backend,
        &dev,
        DeviceKind::Cpu,
        &vec![DeviceKind::Cpu],
        BackendHealth::Healthy,
        ResourceEstimate::default(),
        AdmissionVerdict::Admit { pressure_limited: false },
        true,
        None,
        false,
        PlacementMetrics::default(),
        None,
        costs,
    );
    let mut plan = LocalRoutePlan::new();
    plan.absorb(LocalStep::Skipped);
    assert_eq!(plan, LocalRoutePlan::new());
    plan.absorb(candidate);
    assert_eq!(plan.candidates.len(), 1);
    assert!(!plan.capacity_limited && !plan.pressure_limited);
    plan.absorb(LocalStep::Unsourced { pressure_limited: true });
    assert!(plan.pressure_limited);
    plan.absorb(LocalStep::Restricted);
    assert!(plan.capacity_limited);
    assert_eq!(plan.candidates.len(), 1);
    plan.append_remote(remote);
    assert_eq!(plan.candidates.len(), 2);
    assert_eq!(plan.candidates[0].key.target, ComputeTarget::LocalCpu(dev));
    assert!(plan.candidates[1].key.target.is_remote());
}
