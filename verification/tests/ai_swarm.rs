use appcore::ai::{
    AdvertisedCompute, AdvertisedStorage, AiContributionPolicy, AiError, AiNodeCapabilities, ArtifactDigest,
    ArtifactLocation, BackendHealth, BackendId, CapabilityId, DeviceCapabilities, DeviceClass, DeviceId, DeviceKind,
    DeviceMemoryKind, DeviceSnapshot, PeerAuthorization, PeerCapabilityAuthorizer, PeerCapabilityDirectory,
    PeerDirectoryConfig, PeerDirectoryMetrics, PeerId, PlacementMetrics, ResourceBudget, ResourceEstimate, SwarmRoute,
};
use appcore::ai::directory::AuthModel;
use appcore::ai::swarm::NodeModel;
use std::time::Duration;

struct AllowPeer {
    allow: bool,
}

impl PeerCapabilityAuthorizer for AllowPeer {
    fn answers(&self, _capabilities: NodeModel, _answer: Result<AuthModel, AiError>) -> bool {
        true
    }

    fn authorize(&self, capabilities: &AiNodeCapabilities) -> Result<PeerAuthorization, AiError> {
        Ok(PeerAuthorization {
            authenticated: self.allow,
            tenants: vec![capabilities.tenant.clone()],
            allow_compute: self.allow,
            allow_storage: self.allow,
        })
    }
}

struct FailingAuthorizer;

impl PeerCapabilityAuthorizer for FailingAuthorizer {
    fn answers(&self, _capabilities: NodeModel, _answer: Result<AuthModel, AiError>) -> bool {
        true
    }

    fn authorize(&self, _capabilities: &AiNodeCapabilities) -> Result<PeerAuthorization, AiError> {
        Err(AiError::Integrity("replayed advertisement"))
    }
}

fn dedicated_gpu(id: &str, total_gib: u64, available_gib: u64, load: u8, healthy: bool) -> DeviceSnapshot {
    let gib = 1024u64 * 1024 * 1024;
    DeviceSnapshot {
        id: DeviceId::new(id).unwrap(),
        kind: DeviceKind::Gpu,
        capabilities: DeviceCapabilities {
            class: DeviceClass::DiscreteGpu,
            memory_kind: DeviceMemoryKind::Dedicated,
            compatible_apis: Vec::new(),
        },
        total_memory_bytes: Some(total_gib * gib),
        available_memory_bytes: Some(available_gib * gib),
        used_memory_bytes: Some(total_gib.saturating_sub(available_gib) * gib),
        utilization_percent: Some(load),
        healthy,
    }
}

fn unified_gpu(id: &str, total_gib: u64, available_gib: u64, healthy: bool) -> DeviceSnapshot {
    let mut device = dedicated_gpu(id, total_gib, available_gib, 10, healthy);
    device.capabilities.class = DeviceClass::IntegratedGpu;
    device.capabilities.memory_kind = DeviceMemoryKind::Unified;
    device
}

fn donated_budget(cpu: u8, storage: u64) -> ResourceBudget {
    ResourceBudget {
        cpu_percent: cpu,
        gpu_percent: 0,
        memory_bytes: Some(1_024),
        vram_bytes: Some(0),
        storage_bytes: storage,
        workers: usize::from(cpu > 0),
        concurrent_jobs: usize::from(cpu > 0),
        pressure_limited: false,
    }
}

fn contribution_policy(compute: bool, storage: bool) -> AiContributionPolicy {
    AiContributionPolicy {
        contribute_compute: compute,
        contribute_storage: storage,
        max_cpu_percent: if compute { 25 } else { 0 },
        max_gpu_percent: 0,
        max_memory_bytes: 1_024,
        max_vram_bytes: 0,
        max_storage_bytes: if storage { 4_096 } else { 0 },
        max_workers: usize::from(compute),
        max_concurrent_jobs: usize::from(compute),
    }
}

fn peer_model_digest() -> ArtifactDigest {
    ArtifactDigest::from_digest([0x5a; 32])
}

fn peer_capabilities(peer: &str, compute: bool, storage: bool, digest: ArtifactDigest) -> AiNodeCapabilities {
    let compute_devices = if compute {
        vec![AdvertisedCompute {
            backend: BackendId::new("remote/linear").unwrap(),
            device: DeviceId::new(&format!("{peer}/cpu")).unwrap(),
            kind: DeviceKind::Cpu,
            metrics: PlacementMetrics {
                load_percent: Some(10),
                queue_depth: 0,
                available_memory_bytes: Some(1_024),
                available_vram_bytes: Some(0),
                latency_ema_ms: Some(10),
                throughput_ema: Some(10),
            },
        }]
    } else {
        Vec::new()
    };
    let storage_budget = if storage { 4_096 } else { 0 };
    AiNodeCapabilities::from_contribution(
        PeerId::new(peer).unwrap(),
        CapabilityId::new("tenant/test").unwrap(),
        0,
        1_000,
        compute_devices,
        storage.then_some(AdvertisedStorage { available_bytes: storage_budget, max_transfers: 1 }),
        storage.then_some(digest).into_iter().collect(),
        donated_budget(if compute { 25 } else { 0 }, storage_budget),
        contribution_policy(compute, storage),
    )
    .unwrap()
}

#[test]
fn swarm_advertisement_clamps_physical_device_to_donated_budget() {
    let device = dedicated_gpu("local/gpu/donated", 24, 20, 10, true);
    let advertised = AdvertisedCompute::from_device(
        BackendId::new("backend/donated").unwrap(),
        &device,
        ResourceBudget {
            cpu_percent: 25,
            gpu_percent: 25,
            memory_bytes: Some(2 * 1024 * 1024 * 1024),
            vram_bytes: Some(5 * 1024 * 1024 * 1024),
            storage_bytes: 0,
            workers: 1,
            concurrent_jobs: 1,
            pressure_limited: false,
        },
    );
    assert_eq!(advertised.metrics.available_vram_bytes, Some(5 * 1024 * 1024 * 1024));
    assert_eq!(advertised.metrics.available_memory_bytes, None);
}

#[test]
fn peer_directory_supports_three_independent_contribution_profiles() {
    let digest = peer_model_digest();
    let mut directory = PeerCapabilityDirectory::new(PeerDirectoryConfig {
        max_ttl: Duration::from_secs(1),
        ..PeerDirectoryConfig::default()
    })
    .unwrap();
    let authorizer = AllowPeer { allow: true };
    for capabilities in [
        peer_capabilities("peer/storage", false, true, digest),
        peer_capabilities("peer/compute", true, false, digest),
        peer_capabilities("peer/combined", true, true, digest),
    ] {
        directory.update(capabilities, &authorizer, 1).unwrap();
    }
    let live = directory.live(&CapabilityId::new("tenant/test").unwrap(), 2, 3).unwrap();
    assert_eq!(live.len(), 3);
    assert!(live.iter().any(|peer| peer.compute.is_empty()));
    assert!(live.iter().any(|peer| peer.storage.is_none()));
    assert!(live.iter().any(|peer| !peer.compute.is_empty() && peer.storage.is_some()));

    let unauthorized = peer_capabilities("peer/unauthorized", true, false, digest);
    assert_eq!(directory.update(unauthorized, &AllowPeer { allow: false }, 1), Err(AiError::Unauthorized));
    assert_eq!(
        directory.metrics().unwrap(),
        PeerDirectoryMetrics {
            current_peers: 3,
            compute_devices: 2,
            storage_peers: 2,
            donated_workers: 2,
            donated_storage_bytes: 8_192,
            accepted_updates: 3,
            rejected_updates: 1,
            expired_peers: 0,
        }
    );
    assert!(AiNodeCapabilities::from_contribution(
        PeerId::new("peer/disabled").unwrap(),
        CapabilityId::new("tenant/test").unwrap(),
        0,
        100,
        vec![AdvertisedCompute {
            backend: BackendId::new("remote/linear").unwrap(),
            device: DeviceId::new("peer/disabled/cpu").unwrap(),
            kind: DeviceKind::Cpu,
            metrics: PlacementMetrics::default(),
        }],
        None,
        Vec::new(),
        donated_budget(25, 0),
        contribution_policy(false, false),
    )
    .is_err());
    assert!(directory.live(&CapabilityId::new("tenant/test").unwrap(), 1_000, 3).unwrap().is_empty());
    assert_eq!(directory.metrics().unwrap().expired_peers, 3);
}

#[test]
fn peer_directory_rejects_stale_and_internally_inconsistent_claims() {
    let digest = peer_model_digest();
    let mut directory = PeerCapabilityDirectory::new(PeerDirectoryConfig::default()).unwrap();
    let authorizer = AllowPeer { allow: true };
    let current = peer_capabilities("peer/stale", true, true, digest);
    directory.update(current.clone(), &authorizer, 1).unwrap();
    assert_eq!(
        directory.update(current.clone(), &authorizer, 1),
        Err(AiError::Conflict("stale AI peer advertisement"))
    );

    let mut duplicate = peer_capabilities("peer/duplicate", true, false, digest);
    duplicate.compute.push(duplicate.compute[0].clone());
    assert_eq!(directory.update(duplicate, &authorizer, 1), Err(AiError::InvalidInput("AI peer advertisement")));

    let mut oversized_storage = peer_capabilities("peer/storage-claim", false, true, digest);
    oversized_storage.storage.as_mut().unwrap().available_bytes = 4_097;
    assert_eq!(
        directory.update(oversized_storage, &authorizer, 1),
        Err(AiError::InvalidInput("AI peer advertisement"))
    );
}

#[test]
fn peer_directory_handles_one_thousand_peer_churn_with_bounded_pruning() {
    let digest = peer_model_digest();
    let mut directory = PeerCapabilityDirectory::new(PeerDirectoryConfig {
        max_peers: 1_000,
        max_devices_per_peer: 1,
        max_artifacts_per_peer: 1,
        max_ttl: Duration::from_secs(1),
    })
    .unwrap();
    let authorizer = AllowPeer { allow: true };
    for index in 0..1_000 {
        directory
            .update(peer_capabilities(&format!("peer/churn-{index}"), true, false, digest), &authorizer, 1)
            .unwrap();
    }
    let tenant = CapabilityId::new("tenant/test").unwrap();
    assert_eq!(directory.live(&tenant, 2, 1_000).unwrap().len(), 1_000);
    assert!(directory.live(&tenant, 1_001, 1_000).unwrap().is_empty());
    let metrics = directory.metrics().unwrap();
    assert_eq!(metrics.current_peers, 0);
    assert_eq!(metrics.accepted_updates, 1_000);
    assert_eq!(metrics.expired_peers, 1_000);
}

#[test]
fn unified_device_advertises_system_memory_clamped_to_budget() {
    let device = unified_gpu("local/gpu/unified", 16, 6, true);
    let budget = ResourceBudget {
        cpu_percent: 10,
        gpu_percent: 10,
        memory_bytes: Some(1024),
        vram_bytes: None,
        storage_bytes: 0,
        workers: 1,
        concurrent_jobs: 1,
        pressure_limited: false,
    };
    let advertised = AdvertisedCompute::from_device(BackendId::new("backend/u").unwrap(), &device, budget);
    assert_eq!(advertised.metrics.available_memory_bytes, Some(1024));
    assert_eq!(advertised.metrics.available_vram_bytes, None);
    assert_eq!(advertised.metrics.load_percent, Some(10));
    assert_eq!(advertised.metrics.queue_depth, 0);
    assert_eq!(advertised.device.as_str(), "local/gpu/unified");
}

#[test]
fn unobserved_device_memory_advertises_the_whole_cap() {
    let mut device = dedicated_gpu("local/gpu/blind", 8, 4, 5, true);
    device.available_memory_bytes = None;
    let budget = ResourceBudget {
        cpu_percent: 10,
        gpu_percent: 10,
        memory_bytes: None,
        vram_bytes: Some(777),
        storage_bytes: 0,
        workers: 1,
        concurrent_jobs: 1,
        pressure_limited: false,
    };
    let advertised = AdvertisedCompute::from_device(BackendId::new("backend/b").unwrap(), &device, budget);
    assert_eq!(advertised.metrics.available_vram_bytes, Some(777));
}

#[test]
fn contribution_refuses_budget_over_policy_and_inconsistent_claims() {
    let digest = peer_model_digest();
    let over_budget = AiNodeCapabilities::from_contribution(
        PeerId::new("peer/greedy").unwrap(),
        CapabilityId::new("tenant/test").unwrap(),
        0,
        100,
        Vec::new(),
        None,
        Vec::new(),
        donated_budget(26, 0),
        contribution_policy(true, false),
    );
    assert_eq!(over_budget.unwrap_err(), AiError::Unauthorized);
    let backwards = AiNodeCapabilities::from_contribution(
        PeerId::new("peer/backwards").unwrap(),
        CapabilityId::new("tenant/test").unwrap(),
        100,
        100,
        Vec::new(),
        None,
        Vec::new(),
        donated_budget(0, 0),
        contribution_policy(true, false),
    );
    assert_eq!(backwards.unwrap_err(), AiError::InvalidInput("AI peer advertisement"));
    let repeated = AiNodeCapabilities::from_contribution(
        PeerId::new("peer/repeated").unwrap(),
        CapabilityId::new("tenant/test").unwrap(),
        0,
        100,
        Vec::new(),
        Some(AdvertisedStorage { available_bytes: 4_096, max_transfers: 1 }),
        vec![digest, digest],
        donated_budget(0, 4_096),
        contribution_policy(false, true),
    );
    assert_eq!(repeated.unwrap_err(), AiError::InvalidInput("AI peer advertisement"));
}

#[test]
fn directory_configuration_is_bounded() {
    assert!(PeerCapabilityDirectory::new(PeerDirectoryConfig { max_peers: 0, ..PeerDirectoryConfig::default() })
        .is_err());
    assert!(PeerCapabilityDirectory::new(PeerDirectoryConfig { max_peers: 4_097, ..PeerDirectoryConfig::default() })
        .is_err());
    assert!(PeerCapabilityDirectory::new(PeerDirectoryConfig {
        max_devices_per_peer: 65,
        ..PeerDirectoryConfig::default()
    })
    .is_err());
    assert!(PeerCapabilityDirectory::new(PeerDirectoryConfig {
        max_ttl: Duration::from_secs(0),
        ..PeerDirectoryConfig::default()
    })
    .is_err());
    assert_eq!(
        PeerCapabilityDirectory::new(PeerDirectoryConfig {
            max_ttl: Duration::from_secs(24 * 60 * 60 + 1),
            ..PeerDirectoryConfig::default()
        })
        .err(),
        Some(AiError::InvalidInput("AI peer directory"))
    );
    assert!(PeerCapabilityDirectory::new(PeerDirectoryConfig {
        max_ttl: Duration::from_secs(24 * 60 * 60),
        ..PeerDirectoryConfig::default()
    })
    .is_ok());
    let defaults = PeerDirectoryConfig::default();
    assert_eq!(defaults.max_peers, 64);
    assert_eq!(defaults.max_devices_per_peer, 16);
    assert_eq!(defaults.max_artifacts_per_peer, 256);
    assert_eq!(defaults.max_ttl, Duration::from_secs(30));
}

#[test]
fn directory_refuses_stale_future_and_overlong_advertisements() {
    let digest = peer_model_digest();
    let mut directory = PeerCapabilityDirectory::new(PeerDirectoryConfig {
        max_ttl: Duration::from_secs(1),
        ..PeerDirectoryConfig::default()
    })
    .unwrap();
    let authorizer = AllowPeer { allow: true };
    let ad = peer_capabilities("peer/time", true, false, digest);
    assert_eq!(directory.update(ad.clone(), &authorizer, 1_000), Err(AiError::Unauthorized));
    let mut future = ad.clone();
    future.captured_at_ms = 50;
    assert_eq!(directory.update(future, &authorizer, 10), Err(AiError::Unauthorized));
    let mut overlong = ad.clone();
    overlong.expires_at_ms = 5_000;
    assert_eq!(directory.update(overlong, &authorizer, 10), Err(AiError::Unauthorized));
    assert_eq!(directory.update(ad.clone(), &FailingAuthorizer, 10), Err(AiError::Integrity("replayed advertisement")));
    assert_eq!(directory.metrics().unwrap().rejected_updates, 4);
    assert_eq!(directory.metrics().unwrap().current_peers, 0);
}

#[test]
fn newer_advertisement_replaces_the_peer_entry() {
    let digest = peer_model_digest();
    let mut directory = PeerCapabilityDirectory::new(PeerDirectoryConfig::default()).unwrap();
    let authorizer = AllowPeer { allow: true };
    let first = peer_capabilities("peer/renew", true, false, digest);
    directory.update(first.clone(), &authorizer, 1).unwrap();
    let mut renewed = first.clone();
    renewed.expires_at_ms = 20_000;
    renewed.captured_at_ms = 10_000;
    directory.update(renewed, &authorizer, 10_000).unwrap();
    let tenant = CapabilityId::new("tenant/test").unwrap();
    let live = directory.live(&tenant, 15_000, 10).unwrap();
    assert_eq!(live.len(), 1);
    assert_eq!(live[0].expires_at_ms, 20_000);
    assert_eq!(directory.metrics().unwrap().current_peers, 1);
}

#[test]
fn live_returns_peers_in_identity_order_up_to_the_limit() {
    let digest = peer_model_digest();
    let mut directory = PeerCapabilityDirectory::new(PeerDirectoryConfig::default()).unwrap();
    let authorizer = AllowPeer { allow: true };
    for name in ["peer/c", "peer/a", "peer/b"] {
        directory.update(peer_capabilities(name, true, false, digest), &authorizer, 1).unwrap();
    }
    let tenant = CapabilityId::new("tenant/test").unwrap();
    let two = directory.live(&tenant, 1, 2).unwrap();
    let names: Vec<&str> = two.iter().map(|c| c.peer.as_str()).collect();
    assert_eq!(names, vec!["peer/a", "peer/b"]);
    assert_eq!(directory.live(&tenant, 1, 0).unwrap_err(), AiError::InvalidInput("AI peer query limit"));
    assert_eq!(directory.live(&tenant, 1, 65).unwrap_err(), AiError::InvalidInput("AI peer query limit"));
    let other = CapabilityId::new("tenant/other").unwrap();
    assert!(directory.live(&other, 1, 3).unwrap().is_empty());
}

#[test]
fn directory_capacity_refuses_new_peers_but_accepts_renewals() {
    let digest = peer_model_digest();
    let mut directory =
        PeerCapabilityDirectory::new(PeerDirectoryConfig { max_peers: 1, ..PeerDirectoryConfig::default() }).unwrap();
    let authorizer = AllowPeer { allow: true };
    directory.update(peer_capabilities("peer/one", true, false, digest), &authorizer, 1).unwrap();
    assert_eq!(
        directory.update(peer_capabilities("peer/two", true, false, digest), &authorizer, 1),
        Err(AiError::Capacity("AI peer directory"))
    );
}

#[test]
fn swarm_route_claims_are_validated() {
    let route = SwarmRoute {
        peer: PeerId::new("peer/route").unwrap(),
        peer_class: "trusted-worker".into(),
        tenant: CapabilityId::new("tenant/test").unwrap(),
        backend: BackendId::new("remote/linear").unwrap(),
        device: DeviceId::new("peer/route/cpu").unwrap(),
        kind: DeviceKind::Cpu,
        health: BackendHealth::Healthy,
        metrics: PlacementMetrics::default(),
        resources: ResourceEstimate { cpu_percent: 20, memory_bytes: 1_024, workers: 1, ..ResourceEstimate::default() },
        artifact_source: Some(ArtifactLocation::Peer(PeerId::new("peer/store").unwrap())),
        model_resident: false,
        load_time_ms: 10,
        transfer_cost_units: 20,
        inference_cost_units: 10,
        rtt_ms: 5,
        bandwidth_bytes_per_second: Some(1_000_000),
        failover_cost_units: 5,
        lease_remaining: Duration::from_secs(5),
    };
    assert_eq!(route.validate(true), Ok(()));
    assert_eq!(route.validate(false), Err(AiError::InvalidInput("AI swarm route")));
    let mut bad_class = route.clone();
    bad_class.peer_class = "no spaces".into();
    assert_eq!(bad_class.validate(true), Err(AiError::InvalidInput("AI swarm route")));
    let mut long_class = route.clone();
    long_class.peer_class = "x".repeat(33);
    assert!(long_class.validate(true).is_err());
    let mut no_lease = route.clone();
    no_lease.lease_remaining = Duration::ZERO;
    assert!(no_lease.validate(true).is_err());
    let mut no_rtt = route;
    no_rtt.rtt_ms = 0;
    assert!(no_rtt.validate(true).is_err());
}
