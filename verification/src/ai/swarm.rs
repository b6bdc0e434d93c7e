use crate::ai::ids::{AiError, BackendId, CapabilityId, DeviceId, PeerId};
use crate::ai::kinds::{ArtifactLocation, BackendHealth, DeviceKind, ResourceBudget, ResourceEstimate};
use crate::durations::{duration_nanos, nanos};
use core::time::Duration;
use crate::ai::placement::PlacementMetrics;
use crate::ai::resources::{AiContributionPolicy, ArtifactDigest, DeviceMemoryKind, DeviceSnapshot};
use vstd::prelude::*;

verus! {

/// Most devices in one advertisement built from a contribution.
pub const MAX_ADVERTISED_DEVICES: usize = 64;

/// Most artifact digests in one advertisement built from a contribution.
pub const MAX_ADVERTISED_ARTIFACTS: usize = 1024;

/// Most simultaneous artifact transfers a peer may advertise.
pub const MAX_ADVERTISED_TRANSFERS: usize = 1024;

/// One compute device in an authenticated, expiring peer advertisement.
#[derive(Clone, Debug, Eq, PartialEq)]
pub struct AdvertisedCompute {
    /// Backend offered by the remote Runtime.
    pub backend: BackendId,
    /// Peer-owned device.
    pub device: DeviceId,
    /// Backend-neutral device kind.
    pub kind: DeviceKind,
    /// Current bounded observations, never total physical capacity.
    pub metrics: PlacementMetrics,
}

/// Abstract content of an [`AdvertisedCompute`].
pub struct ComputeModel {
    pub backend: Seq<char>,
    pub device: Seq<char>,
    pub kind: DeviceKind,
    pub metrics: PlacementMetrics,
}

impl View for AdvertisedCompute {
    type V = ComputeModel;

    open spec fn view(&self) -> ComputeModel {
        ComputeModel { backend: self.backend@, device: self.device@, kind: self.kind, metrics: self.metrics }
    }
}

/// The value of an optional bound, zero when absent.
pub open spec fn or_zero(v: Option<u64>) -> u64 {
    match v {
        Some(x) => x,
        None => 0,
    }
}

/// The smaller of two numbers.
pub open spec fn min_u64(a: u64, b: u64) -> u64 {
    if a <= b { a } else { b }
}

/// Available memory as donated: the observation, or the cap when unobserved, never above the cap.
pub open spec fn donated_amount(observed: Option<u64>, cap: Option<u64>) -> u64 {
    match observed {
        Some(x) => min_u64(x, or_zero(cap)),
        None => or_zero(cap),
    }
}

/// What a device advertises under a donated budget: its load, and its memory clamped to the budget,
/// counted as system memory when unified and as device memory otherwise.
pub open spec fn donated_metrics(device: DeviceSnapshot, budget: ResourceBudget) -> PlacementMetrics {
    let unified = device.capabilities.memory_kind == DeviceMemoryKind::Unified;
    PlacementMetrics {
        load_percent: device.utilization_percent,
        queue_depth: 0,
        available_memory_bytes: if unified {
            Some(donated_amount(device.available_memory_bytes, budget.memory_bytes))
        } else {
            None
        },
        available_vram_bytes: if unified {
            None
        } else {
            Some(donated_amount(device.available_memory_bytes, budget.vram_bytes))
        },
        latency_ema_ms: None,
        throughput_ema: None,
    }
}

fn unwrap_zero(v: Option<u64>) -> (r: u64)
    ensures
        r == or_zero(v),
{
    match v {
        Some(x) => x,
        None => 0,
    }
}

fn donated(observed: Option<u64>, cap: Option<u64>) -> (r: u64)
    ensures
        r == donated_amount(observed, cap),
{
    let c = unwrap_zero(cap);
    let x = match observed {
        Some(x) => x,
        None => c,
    };
    if x <= c { x } else { c }
}

impl AdvertisedCompute {
    /// Clamps one physical snapshot to the budget the local node chose to donate.
    pub fn from_device(backend: BackendId, device: &DeviceSnapshot, budget: ResourceBudget) -> (r: Self)
        ensures
            r@ == (ComputeModel {
                backend: backend@,
                device: device.id@,
                kind: device.kind,
                metrics: donated_metrics(*device, budget),
            }),
    {
        let unified = device.capabilities.memory_kind == DeviceMemoryKind::Unified;
        let memory = if unified {
            Some(donated(device.available_memory_bytes, budget.memory_bytes))
        } else {
            None
        };
        let vram = if unified {
            None
        } else {
            Some(donated(device.available_memory_bytes, budget.vram_bytes))
        };
        AdvertisedCompute {
            backend,
            device: device.id.duplicate(),
            kind: device.kind,
            metrics: PlacementMetrics {
                load_percent: device.utilization_percent,
                queue_depth: 0,
                available_memory_bytes: memory,
                available_vram_bytes: vram,
                latency_ema_ms: None,
                throughput_ema: None,
            },
        }
    }

    /// A copy with the same content.
    pub(crate) fn duplicate(&self) -> (r: Self)
        ensures
            r@ == self@,
    {
        AdvertisedCompute {
            backend: self.backend.duplicate(),
            device: self.device.duplicate(),
            kind: self.kind,
            metrics: self.metrics,
        }
    }
}

/// Donated artifact-storage budget independent from compute contribution.
#[derive(Clone, Copy, Debug, Eq, PartialEq, Structural)]
pub struct AdvertisedStorage {
    /// Maximum bytes exposed by current contribution policy.
    pub available_bytes: u64,
    /// Maximum simultaneous artifact transfers.
    pub max_transfers: usize,
}

/// Signed-by-infrastructure peer resource view consumed after authorization.
#[derive(Clone, Debug, Eq, PartialEq)]
pub struct AiNodeCapabilities {
    /// Advertising peer.
    pub peer: PeerId,
    /// Authorized tenant scope.
    pub tenant: CapabilityId,
    /// Capture timestamp in the control-plane monotonic time domain.
    pub captured_at_ms: u64,
    /// Expiration from the control-plane monotonic time domain.
    pub expires_at_ms: u64,
    /// Independently donated compute devices.
    pub compute: Vec<AdvertisedCompute>,
    /// Independently donated artifact storage.
    pub storage: Option<AdvertisedStorage>,
    /// Exact artifact digests currently advertised; a set, so no digest may occur twice.
    pub model_artifacts: Vec<ArtifactDigest>,
    /// Current donated budget after local contribution policy.
    pub current_budget: ResourceBudget,
}

/// Abstract content of an [`AiNodeCapabilities`].
pub struct NodeModel {
    pub peer: Seq<char>,
    pub tenant: Seq<char>,
    pub captured_at_ms: u64,
    pub expires_at_ms: u64,
    pub compute: Seq<ComputeModel>,
    pub storage: Option<AdvertisedStorage>,
    pub model_artifacts: Seq<Seq<u8>>,
    pub current_budget: ResourceBudget,
}

/// The views of a list of compute devices.
pub open spec fn computes_view(v: Seq<AdvertisedCompute>) -> Seq<ComputeModel> {
    v.map_values(|c: AdvertisedCompute| c@)
}

/// The views of a list of digests.
pub open spec fn digests_view(v: Seq<ArtifactDigest>) -> Seq<Seq<u8>> {
    v.map_values(|d: ArtifactDigest| d@)
}

impl View for AiNodeCapabilities {
    type V = NodeModel;

    open spec fn view(&self) -> NodeModel {
        NodeModel {
            peer: self.peer@,
            tenant: self.tenant@,
            captured_at_ms: self.captured_at_ms,
            expires_at_ms: self.expires_at_ms,
            compute: computes_view(self.compute@),
            storage: self.storage,
            model_artifacts: digests_view(self.model_artifacts@),
            current_budget: self.current_budget,
        }
    }
}

/// The device's observations stay within the donated budget.
pub open spec fn compute_within(c: ComputeModel, b: ResourceBudget) -> bool {
    &&& (c.metrics.load_percent matches Some(load) ==> load <= 100)
    &&& (c.metrics.available_memory_bytes matches Some(m) ==> m <= or_zero(b.memory_bytes))
    &&& (c.metrics.available_vram_bytes matches Some(m) ==> m <= or_zero(b.vram_bytes))
}

/// Two advertised devices with the same backend and device identity.
pub open spec fn same_device(a: ComputeModel, b: ComputeModel) -> bool {
    a.backend == b.backend && a.device == b.device
}

/// Donated storage is non-empty, within the budget, and allows between one and the maximum of transfers.
pub open spec fn storage_within(s: Option<AdvertisedStorage>, b: ResourceBudget) -> bool {
    match s {
        Some(st) => st.available_bytes != 0 && st.available_bytes <= b.storage_bytes && st.max_transfers != 0
            && st.max_transfers <= MAX_ADVERTISED_TRANSFERS,
        None => true,
    }
}

/// No digest occurs twice.
pub open spec fn digests_distinct(d: Seq<Seq<u8>>) -> bool {
    forall|i: int, j: int| 0 <= i < j < d.len() ==> #[trigger] d[i] != #[trigger] d[j]
}

/// An advertisement that is internally consistent and within the given size bounds.
pub open spec fn ad_ok(m: NodeModel, max_devices: usize, max_artifacts: usize) -> bool {
    &&& m.captured_at_ms < m.expires_at_ms
    &&& m.compute.len() <= max_devices
    &&& m.model_artifacts.len() <= max_artifacts
    &&& digests_distinct(m.model_artifacts)
    &&& m.current_budget.cpu_percent <= 100
    &&& m.current_budget.gpu_percent <= 100
    &&& (m.compute.len() == 0 || (m.current_budget.workers != 0 && m.current_budget.concurrent_jobs != 0))
    &&& forall|i: int| 0 <= i < m.compute.len() ==> compute_within(#[trigger] m.compute[i], m.current_budget)
    &&& forall|i: int, j: int|
        0 <= i < j < m.compute.len() ==> !same_device(#[trigger] m.compute[i], #[trigger] m.compute[j])
    &&& storage_within(m.storage, m.current_budget)
    &&& (m.model_artifacts.len() == 0 || m.storage is Some)
}

/// The advertisement stays within what the local contribution policy donates.
pub open spec fn within_policy(m: NodeModel, p: AiContributionPolicy) -> bool {
    &&& (p.contribute_compute || m.compute.len() == 0)
    &&& (p.contribute_storage || (m.storage is None && m.model_artifacts.len() == 0))
    &&& m.current_budget.cpu_percent <= p.max_cpu_percent
    &&& m.current_budget.gpu_percent <= p.max_gpu_percent
    &&& or_zero(m.current_budget.memory_bytes) <= p.max_memory_bytes
    &&& or_zero(m.current_budget.vram_bytes) <= p.max_vram_bytes
    &&& m.current_budget.storage_bytes <= p.max_storage_bytes
    &&& m.current_budget.workers <= p.max_workers
    &&& m.current_budget.concurrent_jobs <= p.max_concurrent_jobs
}

/// The refusal of an inconsistent advertisement.
pub open spec fn invalid_advertisement() -> AiError {
    AiError::InvalidInput("AI peer advertisement")
}

fn compute_ok(c: &AdvertisedCompute, b: &ResourceBudget) -> (r: bool)
    ensures
        r == compute_within(c@, *b),
{
    let load_ok = match c.metrics.load_percent {
        Some(load) => load <= 100,
        None => true,
    };
    let memory_ok = match c.metrics.available_memory_bytes {
        Some(m) => m <= unwrap_zero(b.memory_bytes),
        None => true,
    };
    let vram_ok = match c.metrics.available_vram_bytes {
        Some(m) => m <= unwrap_zero(b.vram_bytes),
        None => true,
    };
    load_ok && memory_ok && vram_ok
}

fn storage_ok(s: &Option<AdvertisedStorage>, b: &ResourceBudget) -> (r: bool)
    ensures
        r == storage_within(*s, *b),
{
    match s {
        Some(st) => st.available_bytes != 0 && st.available_bytes <= b.storage_bytes && st.max_transfers != 0
            && st.max_transfers <= MAX_ADVERTISED_TRANSFERS,
        None => true,
    }
}

impl AiNodeCapabilities {
    /// Checks internal consistency against the given size bounds.
    pub(crate) fn validate(&self, max_devices: usize, max_artifacts: usize) -> (r: Result<(), AiError>)
        ensures
            r is Ok <==> ad_ok(self@, max_devices, max_artifacts),
            r matches Err(e) ==> e == invalid_advertisement(),
    {
        let ghost m = self@;
        let b = &self.current_budget;
        if self.expires_at_ms <= self.captured_at_ms || self.compute.len() > max_devices
            || self.model_artifacts.len() > max_artifacts || b.cpu_percent > 100 || b.gpu_percent > 100
            || (self.compute.len() != 0 && (b.workers == 0 || b.concurrent_jobs == 0))
            || !storage_ok(&self.storage, b) || (self.model_artifacts.len() != 0 && self.storage.is_none()) {
            return Err(invalid_advertisement_error());
        }
        let n = self.compute.len();
        let mut i: usize = 0;
        while i < n
            invariant
                i <= n,
                n == self.compute.len(),
                m == self@,
                *b == m.current_budget,
                forall|a: int| 0 <= a < i ==> compute_within(#[trigger] m.compute[a], m.current_budget),
                forall|a: int, c: int| 0 <= a < c < n && a < i ==> !same_device(#[trigger] m.compute[a], #[trigger] m.compute[c]),
            decreases n - i,
        {
            let ci = &self.compute[i];
            assert(m.compute[i as int] == ci@);
            if !compute_ok(ci, b) {
                return Err(invalid_advertisement_error());
            }
            let mut j: usize = i + 1;
            while j < n
                invariant
                    i < n,
                    i + 1 <= j <= n,
                    n == self.compute.len(),
                    m == self@,
                    ci@ == m.compute[i as int],
                    forall|c: int| i < c < j ==> !same_device(m.compute[i as int], #[trigger] m.compute[c]),
                decreases n - j,
            {
                let cj = &self.compute[j];
                assert(m.compute[j as int] == cj@);
                if ci.backend.same(&cj.backend) && ci.device.same(&cj.device) {
                    return Err(invalid_advertisement_error());
                }
                j = j + 1;
            }
            i = i + 1;
        }
        let k = self.model_artifacts.len();
        let mut x: usize = 0;
        while x < k
            invariant
                x <= k,
                k == self.model_artifacts.len(),
                m == self@,
                forall|a: int, c: int| 0 <= a < c < k && a < x ==> #[trigger] m.model_artifacts[a] != #[trigger] m.model_artifacts[c],
            decreases k - x,
        {
            let mut y: usize = x + 1;
            while y < k
                invariant
                    x < k,
                    x + 1 <= y <= k,
                    k == self.model_artifacts.len(),
                    m == self@,
                    forall|c: int| x < c < y ==> m.model_artifacts[x as int] != #[trigger] m.model_artifacts[c],
                decreases k - y,
            {
                assert(m.model_artifacts[x as int] == self.model_artifacts@[x as int]@);
                assert(m.model_artifacts[y as int] == self.model_artifacts@[y as int]@);
                if self.model_artifacts[x].same(&self.model_artifacts[y]) {
                    return Err(invalid_advertisement_error());
                }
                y = y + 1;
            }
            x = x + 1;
        }
        Ok(())
    }

    /// Creates a bounded advertisement and enforces local contribution ceilings.
    pub fn from_contribution(
        peer: PeerId,
        tenant: CapabilityId,
        captured_at_ms: u64,
        expires_at_ms: u64,
        compute: Vec<AdvertisedCompute>,
        storage: Option<AdvertisedStorage>,
        model_artifacts: Vec<ArtifactDigest>,
        current_budget: ResourceBudget,
        policy: AiContributionPolicy,
    ) -> (r: Result<Self, AiError>)
        ensures
            ({
                let m = NodeModel {
                    peer: peer@,
                    tenant: tenant@,
                    captured_at_ms: captured_at_ms,
                    expires_at_ms: expires_at_ms,
                    compute: computes_view(compute@),
                    storage: storage,
                    model_artifacts: digests_view(model_artifacts@),
                    current_budget: current_budget,
                };
                match r {
                    Ok(c) => within_policy(m, policy) && ad_ok(m, MAX_ADVERTISED_DEVICES, MAX_ADVERTISED_ARTIFACTS)
                        && c@ == m,
                    Err(e) => if !within_policy(m, policy) {
                        e == AiError::Unauthorized
                    } else {
                        !ad_ok(m, MAX_ADVERTISED_DEVICES, MAX_ADVERTISED_ARTIFACTS) && e == invalid_advertisement()
                    },
                }
            }),
    {
        let b = current_budget;
        if (!policy.contribute_compute && compute.len() != 0) || (!policy.contribute_storage && (storage.is_some()
            || model_artifacts.len() != 0)) || b.cpu_percent > policy.max_cpu_percent || b.gpu_percent
            > policy.max_gpu_percent || unwrap_zero(b.memory_bytes) > policy.max_memory_bytes || unwrap_zero(
            b.vram_bytes,
        ) > policy.max_vram_bytes || b.storage_bytes > policy.max_storage_bytes || b.workers > policy.max_workers
            || b.concurrent_jobs > policy.max_concurrent_jobs {
            return Err(AiError::Unauthorized);
        }
        let capabilities = AiNodeCapabilities {
            peer,
            tenant,
            captured_at_ms,
            expires_at_ms,
            compute,
            storage,
            model_artifacts,
            current_budget,
        };
        match capabilities.validate(MAX_ADVERTISED_DEVICES, MAX_ADVERTISED_ARTIFACTS) {
            Ok(()) => Ok(capabilities),
            Err(e) => Err(e),
        }
    }

    /// A copy with the same content.
    pub(crate) fn duplicate(&self) -> (r: Self)
        ensures
            r@ == self@,
    {
        let mut compute: Vec<AdvertisedCompute> = Vec::new();
        let mut i: usize = 0;
        while i < self.compute.len()
            invariant
                i <= self.compute.len(),
                computes_view(compute@) == computes_view(self.compute@).take(i as int),
            decreases self.compute.len() - i,
        {
            let c = self.compute[i].duplicate();
            let ghost before = compute@;
            compute.push(c);
            assert(computes_view(compute@) =~= computes_view(before).push(c@));
            assert(computes_view(self.compute@).take(i + 1) =~= computes_view(self.compute@).take(i as int).push(
                self.compute@[i as int]@,
            ));
            i = i + 1;
        }
        assert(computes_view(self.compute@).take(self.compute.len() as int) =~= computes_view(self.compute@));
        let mut digests: Vec<ArtifactDigest> = Vec::new();
        let mut k: usize = 0;
        while k < self.model_artifacts.len()
            invariant
                k <= self.model_artifacts.len(),
                digests_view(digests@) == digests_view(self.model_artifacts@).take(k as int),
            decreases self.model_artifacts.len() - k,
        {
            let d = self.model_artifacts[k];
            let ghost before = digests@;
            digests.push(d);
            assert(digests_view(digests@) =~= digests_view(before).push(d@));
            assert(digests_view(self.model_artifacts@).take(k + 1) =~= digests_view(self.model_artifacts@).take(
                k as int,
            ).push(self.model_artifacts@[k as int]@));
            k = k + 1;
        }
        assert(digests_view(self.model_artifacts@).take(self.model_artifacts.len() as int) =~= digests_view(
            self.model_artifacts@,
        ));
        AiNodeCapabilities {
            peer: self.peer.duplicate(),
            tenant: self.tenant.duplicate(),
            captured_at_ms: self.captured_at_ms,
            expires_at_ms: self.expires_at_ms,
            compute,
            storage: self.storage,
            model_artifacts: digests,
            current_budget: self.current_budget,
        }
    }
}

fn invalid_advertisement_error() -> (r: AiError)
    ensures
        r == invalid_advertisement(),
{
    AiError::InvalidInput("AI peer advertisement")
}

/// Longest diagnostic peer class, in bytes.
pub const MAX_PEER_CLASS_BYTES: usize = 32;

/// One authorized remote compute placement returned to the shared scheduler.
#[derive(Clone, Debug, Eq, PartialEq)]
pub struct SwarmRoute {
    /// Internal peer identity.
    pub peer: PeerId,
    /// Low-cardinality class safe for returned diagnostics.
    pub peer_class: String,
    /// Authorized tenant.
    pub tenant: CapabilityId,
    /// Backend offered by the peer.
    pub backend: BackendId,
    /// Remote device.
    pub device: DeviceId,
    /// Remote device kind.
    pub kind: DeviceKind,
    /// Remote backend health.
    pub health: BackendHealth,
    /// Current remote observations.
    pub metrics: PlacementMetrics,
    /// Peak resource estimate already checked against advertised budget.
    pub resources: ResourceEstimate,
    /// Artifact source selected independently from compute.
    pub artifact_source: Option<ArtifactLocation>,
    /// Whether the model is already hot on this compute target.
    pub model_resident: bool,
    /// Cold activation estimate.
    pub load_time_ms: u64,
    /// Artifact-transfer cost.
    pub transfer_cost_units: u64,
    /// Inference cost.
    pub inference_cost_units: u64,
    /// Recent RTT.
    pub rtt_ms: u64,
    /// Recent bandwidth.
    pub bandwidth_bytes_per_second: Option<u64>,
    /// Failover cost.
    pub failover_cost_units: u64,
    /// Remaining authenticated route lease.
    pub lease_remaining: Duration,
}

/// A byte allowed in a peer class: ASCII letter or digit, `.`, `-` or `_`.
pub open spec fn class_byte(b: u8) -> bool {
    ||| 48 <= b <= 57
    ||| 65 <= b <= 90
    ||| 97 <= b <= 122
    ||| b == 46
    ||| b == 45
    ||| b == 95
}

/// A peer class of 1 to 32 allowed bytes.
pub open spec fn peer_class_ok(class: Seq<char>) -> bool {
    let b = vstd::utf8::encode_utf8(class);
    &&& 1 <= b.len() <= MAX_PEER_CLASS_BYTES
    &&& forall|i: int| 0 <= i < b.len() ==> #[trigger] class_byte(b[i])
}

impl SwarmRoute {
    /// Validates bounded, policy-neutral route claims before scheduler use; `route_supported` is
    /// whether the model declares support for this backend on this kind of device.
    pub fn validate(&self, route_supported: bool) -> (r: Result<(), AiError>)
        ensures
            r is Ok <==> peer_class_ok(self.peer_class@) && duration_nanos(self.lease_remaining) != 0
                && self.rtt_ms != 0 && route_supported,
            r matches Err(e) ==> e == AiError::InvalidInput("AI swarm route"),
    {
        let b = self.peer_class.as_str().as_bytes();
        assert(b@ == vstd::utf8::encode_utf8(self.peer_class@));
        let mut ok = b.len() != 0 && b.len() <= MAX_PEER_CLASS_BYTES;
        let mut i: usize = 0;
        while i < b.len()
            invariant
                i <= b.len(),
                b@ == vstd::utf8::encode_utf8(self.peer_class@),
                ok ==> 1 <= b@.len() <= MAX_PEER_CLASS_BYTES,
                ok ==> forall|k: int| 0 <= k < i ==> #[trigger] class_byte(b@[k]),
                !ok ==> !(1 <= b@.len() <= MAX_PEER_CLASS_BYTES && forall|k: int| 0 <= k < b@.len() ==> #[trigger] class_byte(b@[k])),
            decreases b.len() - i,
        {
            let c = b[i];
            if !((48 <= c && c <= 57) || (65 <= c && c <= 90) || (97 <= c && c <= 122) || c == 46 || c == 45
                || c == 95) {
                assert(!class_byte(b@[i as int]));
                ok = false;
            }
            i = i + 1;
        }
        if !ok || nanos(self.lease_remaining) == 0 || self.rtt_ms == 0 || !route_supported {
            return Err(AiError::InvalidInput("AI swarm route"));
        }
        Ok(())
    }
}

} // verus!
