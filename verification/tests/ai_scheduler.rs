use appcore::ai::scheduler::MAX_LEARNED_ROUTES;
use appcore::ai::{
    AiAuthorizationContext, AiError, AiLatencyClass, AiPriority, AiResourceMode, ArtifactLocation, BackendHealth,
    BackendId, CapabilityId, ComputeTarget, CostScheduler, DeviceId, DeviceKind, ModelId, PeerId, PlacementCandidate,
    PlacementContext, PlacementKey, PlacementMetrics, PlacementPlanner, PlacementRejectionReason, ResourceEstimate,
    SchedulerWeights, REMOTE_COMPUTE_GRANT,
};
use std::time::Duration;

fn placement_candidate(backend: &str, target: ComputeTarget, resident: bool) -> PlacementCandidate {
    PlacementCandidate {
        key: PlacementKey {
            model: ModelId::new("model/scheduler").unwrap(),
            backend: BackendId::new(backend).unwrap(),
            target,
        },
        health: BackendHealth::Healthy,
        resources: ResourceEstimate { memory_bytes: 1_024, vram_bytes: 1_024, workers: 1, ..ResourceEstimate::default() },
        metrics: PlacementMetrics {
            load_percent: Some(10),
            queue_depth: 0,
            available_memory_bytes: Some(8_192),
            available_vram_bytes: Some(8_192),
            latency_ema_ms: Some(10),
            throughput_ema: Some(10),
        },
        model_resident: resident,
        artifact_source: Some(ArtifactLocation::LocalStorage),
        load_time_ms: 100,
        transfer_cost_units: 10,
        inference_cost_units: 10,
        rtt_ms: None,
        bandwidth_bytes_per_second: None,
        trusted: true,
        failover_cost_units: 5,
    }
}

fn placement_context(mode: AiResourceMode) -> PlacementContext {
    PlacementContext {
        priority: AiPriority::Normal,
        latency_class: AiLatencyClass::Balanced,
        resource_mode: mode,
        deadline_remaining: Some(Duration::from_secs(10)),
        allow_remote: false,
        prefer_local: true,
        max_remote_latency: Duration::from_millis(250),
        pressure_limited: false,
    }
}

#[test]
fn identifiers_are_bounded_and_reject_unsafe_characters() {
    assert!(ModelId::new("vendor/model:v1").is_ok());
    assert_eq!(ModelId::new("../model").unwrap_err(), AiError::InvalidInput("identifier characters"));
    assert!(BackendId::new(&"x".repeat(97)).is_err());
}

#[test]
fn identifier_edges() {
    assert!(DeviceId::new(&"x".repeat(96)).is_ok());
    assert_eq!(PeerId::new("").unwrap_err(), AiError::InvalidInput("identifier length"));
    assert_eq!(PeerId::new("/peer").unwrap_err(), AiError::InvalidInput("identifier characters"));
    assert_eq!(PeerId::new("peer//a").unwrap_err(), AiError::InvalidInput("identifier characters"));
    assert_eq!(PeerId::new("peer a").unwrap_err(), AiError::InvalidInput("identifier characters"));
    assert_eq!(CapabilityId::new("tenant/test").unwrap().as_str(), "tenant/test");
}

#[test]
fn scheduler_prefers_hot_model_over_idle_cold_gpu_when_total_cost_is_lower() {
    let scheduler = CostScheduler::default();
    let mut hot = placement_candidate("backend/hot", ComputeTarget::LocalGpu(DeviceId::new("gpu/hot").unwrap()), true);
    hot.metrics.load_percent = Some(70);
    hot.metrics.queue_depth = 2;
    let mut cold = placement_candidate("backend/cold", ComputeTarget::LocalGpu(DeviceId::new("gpu/cold").unwrap()), false);
    cold.metrics.load_percent = Some(0);
    cold.load_time_ms = 1_000;
    cold.transfer_cost_units = 500;

    let plan = scheduler.plan(placement_context(AiResourceMode::Balanced), &[cold, hot.clone()]);
    assert_eq!(plan.ordered[0].key, hot.key);
}

#[test]
fn scheduler_rejects_vram_shortage_and_pressure_except_unrestricted() {
    let scheduler = CostScheduler::default();
    let mut gpu = placement_candidate("backend/gpu", ComputeTarget::LocalGpu(DeviceId::new("gpu/0").unwrap()), true);
    gpu.metrics.available_vram_bytes = Some(512);
    let plan = scheduler.plan(placement_context(AiResourceMode::Performance), &[gpu.clone()]);
    assert_eq!(plan.rejected[0].reason, PlacementRejectionReason::Vram);

    gpu.metrics.available_vram_bytes = Some(8_192);
    gpu.metrics.load_percent = Some(95);
    let mut balanced = placement_context(AiResourceMode::Balanced);
    balanced.pressure_limited = true;
    assert_eq!(scheduler.plan(balanced, &[gpu.clone()]).rejected[0].reason, PlacementRejectionReason::Pressure);
    let mut unrestricted = placement_context(AiResourceMode::Unrestricted);
    unrestricted.pressure_limited = true;
    assert_eq!(scheduler.plan(unrestricted, &[gpu]).ordered.len(), 1);
}

#[test]
fn scheduler_can_choose_cheaper_cpu_and_priority_reduces_queue_penalty() {
    let scheduler = CostScheduler::default();
    let mut cpu = placement_candidate("backend/cpu", ComputeTarget::LocalCpu(DeviceId::new("cpu/0").unwrap()), false);
    cpu.resources.vram_bytes = 0;
    cpu.inference_cost_units = 1;
    let mut gpu = placement_candidate("backend/gpu", ComputeTarget::LocalGpu(DeviceId::new("gpu/0").unwrap()), false);
    gpu.inference_cost_units = 100;
    let plan = scheduler.plan(placement_context(AiResourceMode::Balanced), &[gpu, cpu.clone()]);
    assert_eq!(plan.ordered[0].key, cpu.key);

    cpu.metrics.queue_depth = 16;
    let normal = scheduler.plan(placement_context(AiResourceMode::Balanced), &[cpu.clone()]);
    let mut high_context = placement_context(AiResourceMode::Balanced);
    high_context.priority = AiPriority::High;
    let high = scheduler.plan(high_context, &[cpu]);
    assert!(high.ordered[0].score < normal.ordered[0].score);
}

#[test]
fn scheduler_adapts_between_interactive_latency_and_aggregate_throughput() {
    let scheduler = CostScheduler::default();
    let mut fast = placement_candidate("backend/fast", ComputeTarget::LocalGpu(DeviceId::new("gpu/fast").unwrap()), false);
    fast.metrics.latency_ema_ms = Some(5);
    fast.metrics.throughput_ema = Some(1);
    let mut batched =
        placement_candidate("backend/batched", ComputeTarget::LocalGpu(DeviceId::new("gpu/batched").unwrap()), false);
    batched.metrics.latency_ema_ms = Some(50);
    batched.metrics.throughput_ema = Some(100);

    let mut interactive = placement_context(AiResourceMode::Balanced);
    interactive.latency_class = AiLatencyClass::Interactive;
    assert_eq!(scheduler.plan(interactive, &[batched.clone(), fast.clone()]).ordered[0].key, fast.key);

    let mut throughput = placement_context(AiResourceMode::Balanced);
    throughput.latency_class = AiLatencyClass::Throughput;
    assert_eq!(scheduler.plan(throughput, &[fast, batched.clone()]).ordered[0].key, batched.key);
}

#[test]
fn scheduler_honors_local_preference_for_otherwise_equal_routes() {
    let scheduler = CostScheduler::default();
    let local = placement_candidate("backend/local", ComputeTarget::LocalGpu(DeviceId::new("gpu/local").unwrap()), true);
    let mut remote = placement_candidate(
        "backend/remote",
        ComputeTarget::RemotePeer {
            peer: PeerId::new("peer/remote").unwrap(),
            device: DeviceId::new("gpu/remote").unwrap(),
            kind: DeviceKind::Gpu,
        },
        true,
    );
    remote.rtt_ms = Some(0);
    let mut context = placement_context(AiResourceMode::Balanced);
    context.allow_remote = true;
    context.prefer_local = true;
    assert_eq!(scheduler.plan(context, &[remote, local.clone()]).ordered[0].key, local.key);
}

#[test]
fn scheduler_ema_is_fixed_point_and_deterministic() {
    let mut scheduler = CostScheduler::new(SchedulerWeights::default(), 5_000).unwrap();
    let candidate = placement_candidate("backend/ema", ComputeTarget::LocalCpu(DeviceId::new("cpu/ema").unwrap()), false);
    scheduler
        .observe(
            candidate.key.clone(),
            PlacementMetrics { latency_ema_ms: Some(100), throughput_ema: Some(20), ..PlacementMetrics::default() },
        )
        .unwrap();
    scheduler
        .observe(
            candidate.key.clone(),
            PlacementMetrics { latency_ema_ms: Some(200), throughput_ema: Some(40), ..PlacementMetrics::default() },
        )
        .unwrap();
    let first = scheduler.plan(placement_context(AiResourceMode::Balanced), std::slice::from_ref(&candidate));
    let second = scheduler.plan(placement_context(AiResourceMode::Balanced), &[candidate]);
    assert_eq!(first, second);
}

#[test]
fn score_of_a_default_candidate_is_exact() {
    // load 10*4 + queue 0 + latency 10*2*2/2 + cold 100*3/2 + transfer 10*2 + inference 10*5
    // + failover 5*2 - throughput 10*1*2
    let scheduler = CostScheduler::default();
    let cpu = placement_candidate("backend/cpu", ComputeTarget::LocalCpu(DeviceId::new("cpu/0").unwrap()), false);
    let plan = scheduler.plan(placement_context(AiResourceMode::Balanced), &[cpu]);
    assert_eq!(plan.ordered[0].score, 40 + 20 + 150 + 20 + 50 + 10 - 20);
}

#[test]
fn learned_averages_change_scores_and_blend_in_fixed_point() {
    let mut scheduler = CostScheduler::new(SchedulerWeights::default(), 5_000).unwrap();
    let mut cpu = placement_candidate("backend/cpu", ComputeTarget::LocalCpu(DeviceId::new("cpu/0").unwrap()), false);
    cpu.metrics.throughput_ema = None;
    let before = scheduler.plan(placement_context(AiResourceMode::Balanced), &[cpu.clone()]).ordered[0].score;
    scheduler
        .observe(cpu.key.clone(), PlacementMetrics { latency_ema_ms: Some(100), ..PlacementMetrics::default() })
        .unwrap();
    scheduler
        .observe(cpu.key.clone(), PlacementMetrics { latency_ema_ms: Some(200), ..PlacementMetrics::default() })
        .unwrap();
    let after = scheduler.plan(placement_context(AiResourceMode::Balanced), &[cpu]).ordered[0].score;
    // the learned latency average is (100 * 5000 + 200 * 5000) / 10000 = 150 instead of 10
    assert_eq!(after - before, (150 - 10) * 2 * 2 / 2);
}

#[test]
fn scheduler_alpha_must_be_in_range() {
    assert_eq!(
        CostScheduler::new(SchedulerWeights::default(), 0).unwrap_err(),
        AiError::InvalidInput("scheduler EMA alpha")
    );
    assert!(CostScheduler::new(SchedulerWeights::default(), 10_001).is_err());
    assert!(CostScheduler::new(SchedulerWeights::default(), 10_000).is_ok());
}

#[test]
fn scheduler_learned_routes_are_bounded() {
    let mut scheduler = CostScheduler::default();
    for index in 0..MAX_LEARNED_ROUTES {
        let key = PlacementKey {
            model: ModelId::new("model/m").unwrap(),
            backend: BackendId::new(&format!("backend/learned-{index}")).unwrap(),
            target: ComputeTarget::LocalCpu(DeviceId::new("cpu/learned").unwrap()),
        };
        scheduler.observe(key, PlacementMetrics::default()).unwrap();
    }
    let overflow = PlacementKey {
        model: ModelId::new("model/m").unwrap(),
        backend: BackendId::new("backend/learned-overflow").unwrap(),
        target: ComputeTarget::LocalCpu(DeviceId::new("cpu/learned").unwrap()),
    };
    assert_eq!(
        scheduler.observe(overflow, PlacementMetrics::default()),
        Err(AiError::Capacity("scheduler learned routes"))
    );
    let existing = PlacementKey {
        model: ModelId::new("model/m").unwrap(),
        backend: BackendId::new("backend/learned-7").unwrap(),
        target: ComputeTarget::LocalCpu(DeviceId::new("cpu/learned").unwrap()),
    };
    assert!(scheduler.observe(existing, PlacementMetrics::default()).is_ok());
}

#[test]
fn plan_orders_equal_costs_by_key_and_rejections_by_key() {
    let scheduler = CostScheduler::default();
    let b = placement_candidate("backend/b", ComputeTarget::LocalCpu(DeviceId::new("cpu/0").unwrap()), false);
    let a = placement_candidate("backend/a", ComputeTarget::LocalCpu(DeviceId::new("cpu/0").unwrap()), false);
    let mut dead_z = placement_candidate("backend/z", ComputeTarget::LocalCpu(DeviceId::new("cpu/0").unwrap()), false);
    dead_z.health = BackendHealth::Unavailable;
    let mut dead_c = placement_candidate("backend/c", ComputeTarget::LocalCpu(DeviceId::new("cpu/0").unwrap()), false);
    dead_c.health = BackendHealth::Unavailable;
    let plan = scheduler.plan(placement_context(AiResourceMode::Balanced), &[dead_z, b.clone(), dead_c, a.clone()]);
    assert_eq!(plan.ordered.len(), 2);
    assert_eq!(plan.ordered[0].key, a.key);
    assert_eq!(plan.ordered[1].key, b.key);
    assert_eq!(plan.rejected.len(), 2);
    assert_eq!(plan.rejected[0].key.backend.as_str(), "backend/c");
    assert_eq!(plan.rejected[0].reason, PlacementRejectionReason::Unavailable);
}

#[test]
fn remote_routes_need_policy_trust_and_bounded_latency() {
    let scheduler = CostScheduler::default();
    let mut remote = placement_candidate(
        "backend/remote",
        ComputeTarget::RemotePeer {
            peer: PeerId::new("peer/r").unwrap(),
            device: DeviceId::new("gpu/r").unwrap(),
            kind: DeviceKind::Gpu,
        },
        true,
    );
    remote.rtt_ms = Some(300);
    let mut context = placement_context(AiResourceMode::Balanced);
    context.allow_remote = true;
    assert_eq!(scheduler.plan(context, &[remote.clone()]).rejected[0].reason, PlacementRejectionReason::Policy);
    remote.rtt_ms = Some(200);
    assert_eq!(scheduler.plan(context, &[remote.clone()]).ordered.len(), 1);
    context.deadline_remaining = Some(Duration::from_millis(100));
    assert_eq!(scheduler.plan(context, &[remote]).rejected[0].reason, PlacementRejectionReason::Deadline);
}

#[test]
fn authorization_grants_are_bounded_and_unique() {
    let tenant = CapabilityId::new("tenant/a").unwrap();
    let subject = CapabilityId::new("user/a").unwrap();
    let grant = CapabilityId::new(REMOTE_COMPUTE_GRANT).unwrap();
    let context = AiAuthorizationContext { tenant: tenant.clone(), subject: subject.clone(), grants: vec![grant.clone()] };
    assert!(context.validate().is_ok());
    assert!(context.allows("ai.remote.compute"));
    assert!(!context.allows("ai.remote.storage"));
    let duplicate = AiAuthorizationContext { tenant: tenant.clone(), subject: subject.clone(), grants: vec![grant.clone(), grant] };
    assert_eq!(duplicate.validate(), Err(AiError::Unauthorized));
    let empty = AiAuthorizationContext { tenant, subject, grants: Vec::new() };
    assert_eq!(empty.validate(), Err(AiError::Unauthorized));
}

#[test]
fn model_backend_and_scheduler_maps_fail_at_fixed_capacity() {
    let mut scheduler = CostScheduler::default();
    for index in 0..4_096 {
        let key = placement_candidate(
            &format!("backend/learned-{index}"),
            ComputeTarget::LocalCpu(DeviceId::new("cpu/learned").unwrap()),
            true,
        )
        .key;
        scheduler.observe(key, PlacementMetrics::default()).unwrap();
    }
    let overflow = placement_candidate(
        "backend/learned-overflow",
        ComputeTarget::LocalCpu(DeviceId::new("cpu/learned").unwrap()),
        true,
    )
    .key;
    assert_eq!(
        scheduler.observe(overflow, PlacementMetrics::default()),
        Err(AiError::Capacity("scheduler learned routes"))
    );
}
