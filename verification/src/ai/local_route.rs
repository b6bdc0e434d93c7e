use crate::ai::ids::{BackendId, DeviceId, ModelId};
use crate::ai::kinds::{location_view, AdmissionVerdict, ArtifactLocation, BackendHealth, DeviceKind, ResourceEstimate};
use crate::ai::placement::{
    local_target, ComputeTarget, KeyModel, PlacementCandidate, PlacementKey, PlacementMetrics,
};
use crate::ai::routing::{candidate_view, candidates_view, RouteCandidateModel};
use crate::ai::score::sadd;
use vstd::prelude::*;

verus! {

/// Whether a backend device may serve the request: it is the pinned device, if one is pinned,
/// and the model supports its kind.
pub open spec fn eligible(device_pin: Option<Seq<char>>, device: Seq<char>, kind: DeviceKind, supported: Seq<DeviceKind>) -> bool {
    (device_pin matches Some(d) ==> d == device) && supported.contains(kind)
}

/// Whether `device` may serve a request pinned to `device_pin` for a model that supports the
/// device kinds in `supported_kinds`.
pub fn device_eligible(
    device_pin: Option<&DeviceId>,
    device: &DeviceId,
    kind: DeviceKind,
    supported_kinds: &Vec<DeviceKind>,
) -> (r: bool)
    ensures
        r == eligible(
            match device_pin {
                Some(d) => Some(d@),
                None => None,
            },
            device@,
            kind,
            supported_kinds@,
        ),
{
    let pinned_ok = match device_pin {
        Some(d) => d.same(device),
        None => true,
    };
    if !pinned_ok {
        return false;
    }
    let mut i: usize = 0;
    while i < supported_kinds.len()
        invariant
            i <= supported_kinds.len(),
            device_pin matches Some(d) ==> d@ == device@,
            forall|k: int| 0 <= k < i ==> supported_kinds@[k] != kind,
        decreases supported_kinds.len() - i,
    {
        if supported_kinds[i] == kind {
            assert(supported_kinds@[i as int] == kind);
            return true;
        }
        i = i + 1;
    }
    false
}

/// The larger of two values.
pub open spec fn larger(a: u64, b: u64) -> u64 {
    if a >= b { a } else { b }
}

/// A backend's estimate raised to the model's own memory needs, with at least one worker.
pub open spec fn bounded(estimate: ResourceEstimate, model_memory: u64, model_vram: u64) -> ResourceEstimate {
    ResourceEstimate {
        memory_bytes: larger(estimate.memory_bytes, model_memory),
        vram_bytes: larger(estimate.vram_bytes, model_vram),
        workers: if estimate.workers == 0 { 1 } else { estimate.workers },
        ..estimate
    }
}

/// Raises a backend's resource estimate to what the model itself declares it needs in system
/// and device memory, and to at least one worker.
pub fn bounded_estimate(estimate: ResourceEstimate, model_memory_bytes: u64, model_vram_bytes: u64) -> (r: ResourceEstimate)
    ensures
        r == bounded(estimate, model_memory_bytes, model_vram_bytes),
{
    let mut e = estimate;
    if e.memory_bytes < model_memory_bytes {
        e.memory_bytes = model_memory_bytes;
    }
    if e.vram_bytes < model_vram_bytes {
        e.vram_bytes = model_vram_bytes;
    }
    if e.workers == 0 {
        e.workers = 1;
    }
    e
}

/// The first of two optional values that is present.
pub open spec fn first_known<T>(a: Option<T>, b: Option<T>) -> Option<T> {
    if a is Some { a } else { b }
}

/// A backend's metrics with the host's hardware sample, where there is one, taking precedence
/// for load and available memory; queue depth and the latency and throughput averages stay the
/// backend's.
pub open spec fn merged(backend: PlacementMetrics, hardware: Option<PlacementMetrics>) -> PlacementMetrics {
    match hardware {
        None => backend,
        Some(h) => PlacementMetrics {
            load_percent: first_known(h.load_percent, backend.load_percent),
            queue_depth: backend.queue_depth,
            available_memory_bytes: first_known(h.available_memory_bytes, backend.available_memory_bytes),
            available_vram_bytes: first_known(h.available_vram_bytes, backend.available_vram_bytes),
            latency_ema_ms: backend.latency_ema_ms,
            throughput_ema: backend.throughput_ema,
        },
    }
}

fn first_of<T: Copy>(a: Option<T>, b: Option<T>) -> (r: Option<T>)
    ensures
        r == first_known(a, b),
{
    match a {
        Some(x) => Some(x),
        None => b,
    }
}

/// Combines a backend's placement metrics with the host's hardware sample for the device.
pub fn merge_hardware_metrics(backend: PlacementMetrics, hardware: Option<PlacementMetrics>) -> (r: PlacementMetrics)
    ensures
        r == merged(backend, hardware),
{
    match hardware {
        None => backend,
        Some(h) => PlacementMetrics {
            load_percent: first_of(h.load_percent, backend.load_percent),
            queue_depth: backend.queue_depth,
            available_memory_bytes: first_of(h.available_memory_bytes, backend.available_memory_bytes),
            available_vram_bytes: first_of(h.available_vram_bytes, backend.available_vram_bytes),
            latency_ema_ms: backend.latency_ema_ms,
            throughput_ema: backend.throughput_ema,
        },
    }
}

/// The outcome of considering one local device for one model and backend.
#[derive(Clone, Debug, PartialEq, Eq)]
pub enum LocalStep {
    /// The device is not the pinned one, or the model does not support its kind.
    Skipped,
    /// Admission deferred or rejected the work: the plan is capacity limited.
    Restricted,
    /// Admitted, but the model is only available and no artifact source reaches this device.
    Unsourced { pressure_limited: bool },
    /// A placement candidate.
    Candidate { candidate: PlacementCandidate, pressure_limited: bool },
}

/// Costs that a local candidate is priced with.
#[derive(Clone, Copy, Debug, PartialEq, Eq, Structural)]
pub struct LocalCosts {
    /// The model's own load cost.
    pub model_load_units: u64,
    /// The backend's load cost.
    pub backend_load_units: u64,
    /// The backend's inference cost.
    pub inference_units: u64,
}

/// The placement candidate of a local device.
pub open spec fn local_candidate(
    model: Seq<char>,
    backend: Seq<char>,
    device: Seq<char>,
    kind: DeviceKind,
    health: BackendHealth,
    estimate: ResourceEstimate,
    resident: bool,
    source: Option<ArtifactLocation>,
    metrics: PlacementMetrics,
    costs: LocalCosts,
) -> RouteCandidateModel {
    RouteCandidateModel {
        key: KeyModel { model: model, backend: backend, target: local_target(kind, device) },
        health: health,
        resources: estimate,
        metrics: metrics,
        model_resident: resident,
        artifact_source: location_view(source),
        load_time_ms: sadd(costs.model_load_units, costs.backend_load_units),
        transfer_cost_units: if resident { 0 } else { costs.model_load_units },
        inference_cost_units: costs.inference_units,
        rtt_ms: None,
        bandwidth_bytes_per_second: None,
        trusted: true,
        failover_cost_units: costs.backend_load_units,
    }
}

/// Considers one backend device for one model. `estimate` is the bounded estimate that
/// admission was asked about, `admission` its answer, `resident` whether the model is already
/// loaded there, `source` the artifact source chosen for the device, `model_available` whether
/// the model is registered but not loaded anywhere, and `backend_metrics` and `hardware` the
/// backend's and the host's metrics for the device.
pub fn local_step(
    device_pin: Option<&DeviceId>,
    model: &ModelId,
    backend: &BackendId,
    device: &DeviceId,
    kind: DeviceKind,
    supported_kinds: &Vec<DeviceKind>,
    health: BackendHealth,
    estimate: ResourceEstimate,
    admission: AdmissionVerdict,
    resident: bool,
    source: Option<ArtifactLocation>,
    model_available: bool,
    backend_metrics: PlacementMetrics,
    hardware: Option<PlacementMetrics>,
    costs: LocalCosts,
) -> (r: LocalStep)
    ensures
        !eligible(
            match device_pin {
                Some(d) => Some(d@),
                None => None,
            },
            device@,
            kind,
            supported_kinds@,
        ) ==> r == LocalStep::Skipped,
        eligible(
            match device_pin {
                Some(d) => Some(d@),
                None => None,
            },
            device@,
            kind,
            supported_kinds@,
        ) ==> match admission {
            AdmissionVerdict::Defer | AdmissionVerdict::Reject => r == LocalStep::Restricted,
            AdmissionVerdict::Admit { pressure_limited } => if model_available && source is None {
                r == LocalStep::Unsourced { pressure_limited }
            } else {
                r matches LocalStep::Candidate { candidate, pressure_limited: p } && p == pressure_limited
                    && candidate_view(candidate) == local_candidate(
                    model@,
                    backend@,
                    device@,
                    kind,
                    health,
                    estimate,
                    resident,
                    source,
                    merged(backend_metrics, hardware),
                    costs,
                )
            },
        },
{
    if !device_eligible(device_pin, device, kind, supported_kinds) {
        return LocalStep::Skipped;
    }
    let pressure_limited = match admission {
        AdmissionVerdict::Defer | AdmissionVerdict::Reject => {
            return LocalStep::Restricted;
        },
        AdmissionVerdict::Admit { pressure_limited } => pressure_limited,
    };
    if model_available && source.is_none() {
        return LocalStep::Unsourced { pressure_limited };
    }
    let candidate = PlacementCandidate {
        key: PlacementKey {
            model: model.duplicate(),
            backend: backend.duplicate(),
            target: ComputeTarget::local(kind, device.duplicate()),
        },
        health,
        resources: estimate,
        metrics: merge_hardware_metrics(backend_metrics, hardware),
        model_resident: resident,
        artifact_source: source,
        load_time_ms: costs.model_load_units.saturating_add(costs.backend_load_units),
        transfer_cost_units: if resident { 0 } else { costs.model_load_units },
        inference_cost_units: costs.inference_units,
        rtt_ms: None,
        bandwidth_bytes_per_second: None,
        trusted: true,
        failover_cost_units: costs.backend_load_units,
    };
    LocalStep::Candidate { candidate, pressure_limited }
}

/// Local candidates gathered so far, and whether admission restricted or host pressure narrowed
/// any device.
#[derive(Clone, Debug, PartialEq, Eq)]
pub struct LocalRoutePlan {
    /// Candidates in the order the devices were considered.
    pub candidates: Vec<PlacementCandidate>,
    /// Some device was deferred or rejected by admission.
    pub capacity_limited: bool,
    /// Some admitted device had its budget narrowed by host pressure.
    pub pressure_limited: bool,
}

/// Abstract content of a [`LocalRoutePlan`].
pub struct LocalPlanModel {
    pub candidates: Seq<RouteCandidateModel>,
    pub capacity_limited: bool,
    pub pressure_limited: bool,
}

impl View for LocalRoutePlan {
    type V = LocalPlanModel;

    open spec fn view(&self) -> LocalPlanModel {
        LocalPlanModel {
            candidates: candidates_view(self.candidates@),
            capacity_limited: self.capacity_limited,
            pressure_limited: self.pressure_limited,
        }
    }
}

/// The plan after one more device was considered: a restricted device marks the plan capacity
/// limited; an admitted one adds its pressure flag, and its candidate where it has one.
pub open spec fn absorbed(p: LocalPlanModel, step: LocalStep) -> LocalPlanModel {
    match step {
        LocalStep::Skipped => p,
        LocalStep::Restricted => LocalPlanModel { capacity_limited: true, ..p },
        LocalStep::Unsourced { pressure_limited } => LocalPlanModel {
            pressure_limited: p.pressure_limited || pressure_limited,
            ..p
        },
        LocalStep::Candidate { candidate, pressure_limited } => LocalPlanModel {
            candidates: p.candidates.push(candidate_view(candidate)),
            pressure_limited: p.pressure_limited || pressure_limited,
            ..p
        },
    }
}

impl LocalRoutePlan {
    /// A plan with no candidate and no limit.
    pub fn new() -> (r: Self)
        ensures
            r@ == (LocalPlanModel { candidates: seq![], capacity_limited: false, pressure_limited: false }),
    {
        let r = LocalRoutePlan { candidates: Vec::new(), capacity_limited: false, pressure_limited: false };
        assert(candidates_view(r.candidates@) =~= seq![]);
        r
    }

    /// Takes in the outcome of considering one more device.
    pub fn absorb(&mut self, step: LocalStep)
        ensures
            final(self)@ == absorbed(old(self)@, step),
    {
        match step {
            LocalStep::Skipped => {},
            LocalStep::Restricted => {
                self.capacity_limited = true;
            },
            LocalStep::Unsourced { pressure_limited } => {
                self.pressure_limited = self.pressure_limited || pressure_limited;
            },
            LocalStep::Candidate { candidate, pressure_limited } => {
                let ghost before = self.candidates@;
                let ghost c = candidate;
                self.candidates.push(candidate);
                assert(candidates_view(self.candidates@) =~= candidates_view(before).push(candidate_view(c)));
                self.pressure_limited = self.pressure_limited || pressure_limited;
            },
        }
    }
    /// Appends the remote candidates of one model after those gathered so far.
    pub fn append_remote(&mut self, remote: Vec<PlacementCandidate>)
        ensures
            final(self)@ == (LocalPlanModel { candidates: old(self)@.candidates + candidates_view(remote@), ..old(self)@ }),
    {
        let mut remote = remote;
        let ghost before = self.candidates@;
        let ghost r = remote@;
        self.candidates.append(&mut remote);
        assert(candidates_view(self.candidates@) =~= candidates_view(before) + candidates_view(r));
    }
}

} // verus!
