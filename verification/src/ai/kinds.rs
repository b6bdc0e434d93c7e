use crate::ai::ids::PeerId;
use vstd::prelude::*;

verus! {

/// What resource admission answered for a piece of work.
#[derive(Clone, Copy, Debug, PartialEq, Eq, Structural)]
pub enum AdmissionVerdict {
    /// Admitted, possibly with a budget narrowed by host pressure.
    Admit { pressure_limited: bool },
    /// Not now: resources may free up later.
    Defer,
    /// Refused.
    Reject,
}

/// Backend-neutral hardware class.
#[derive(Clone, Copy, Debug, PartialEq, Eq, PartialOrd, Ord, Hash, Structural)]
pub enum DeviceKind {
    /// General-purpose processor.
    Cpu,
    /// Graphics processor.
    Gpu,
    /// Neural accelerator.
    Npu,
}

/// Health of a backend adapter.
#[derive(Clone, Copy, Debug, PartialEq, Eq, Structural)]
pub enum BackendHealth {
    /// Fully operational.
    Healthy,
    /// Operational with reduced quality or capacity.
    Degraded,
    /// Not usable.
    Unavailable,
}

/// Request priority, lowest first.
#[derive(Clone, Copy, Debug, PartialEq, Eq, PartialOrd, Ord, Structural)]
pub enum AiPriority {
    /// Deferred work.
    Background,
    /// Ordinary requests.
    Normal,
    /// Elevated requests.
    High,
    /// Requests that bypass pressure shedding.
    Critical,
}

/// Latency-versus-throughput profile of a request.
#[derive(Clone, Copy, Debug, PartialEq, Eq, Structural)]
pub enum AiLatencyClass {
    /// A person is waiting on the answer.
    Interactive,
    /// No strong preference.
    Balanced,
    /// Aggregate throughput matters most.
    Throughput,
    /// Latency is irrelevant.
    Background,
}

/// Resources that a node chooses to make available.
#[derive(Clone, Copy, Debug, PartialEq, Eq, Structural)]
pub struct ResourceBudget {
    /// CPU share in percent.
    pub cpu_percent: u8,
    /// GPU share in percent.
    pub gpu_percent: u8,
    /// System memory, when bounded.
    pub memory_bytes: Option<u64>,
    /// Device memory, when bounded.
    pub vram_bytes: Option<u64>,
    /// Artifact storage bytes.
    pub storage_bytes: u64,
    /// Worker slots.
    pub workers: usize,
    /// Simultaneous jobs.
    pub concurrent_jobs: usize,
    /// Whether the governor currently reports host pressure.
    pub pressure_limited: bool,
}

/// Resource profile of a request.
#[derive(Clone, Copy, Debug, PartialEq, Eq, Structural)]
pub enum AiResourceMode {
    /// Lowest footprint.
    Eco,
    /// Default trade-off.
    Balanced,
    /// Favour speed.
    Performance,
    /// No resource ceiling beyond declared capacity.
    Unrestricted,
    /// An explicit budget.
    Custom(ResourceBudget),
}

/// Peak resources that one execution is expected to need.
#[derive(Clone, Copy, Debug, PartialEq, Eq, Structural)]
pub struct ResourceEstimate {
    /// CPU share in percent.
    pub cpu_percent: u8,
    /// GPU share in percent.
    pub gpu_percent: u8,
    /// System memory bytes.
    pub memory_bytes: u64,
    /// Device memory bytes.
    pub vram_bytes: u64,
    /// Worker slots.
    pub workers: usize,
}

impl Default for ResourceEstimate {
    /// No resources.
    fn default() -> (r: Self)
        ensures
            r == (ResourceEstimate { cpu_percent: 0, gpu_percent: 0, memory_bytes: 0, vram_bytes: 0, workers: 0 }),
    {
        ResourceEstimate { cpu_percent: 0, gpu_percent: 0, memory_bytes: 0, vram_bytes: 0, workers: 0 }
    }
}

/// Where model artifact bytes come from.
#[derive(Clone, Debug, PartialEq, Eq)]
pub enum ArtifactLocation {
    /// Local artifact storage.
    LocalStorage,
    /// Already in memory.
    Memory,
    /// A peer that stores the artifact.
    Peer(PeerId),
}

/// Abstract content of an [`ArtifactLocation`].
pub enum LocationModel {
    LocalStorage,
    Memory,
    Peer(Seq<char>),
}

impl View for ArtifactLocation {
    type V = LocationModel;

    open spec fn view(&self) -> LocationModel {
        match self {
            ArtifactLocation::LocalStorage => LocationModel::LocalStorage,
            ArtifactLocation::Memory => LocationModel::Memory,
            ArtifactLocation::Peer(p) => LocationModel::Peer(p@),
        }
    }
}

/// The view of an optional artifact location.
pub open spec fn location_view(l: Option<ArtifactLocation>) -> Option<LocationModel> {
    match l {
        Some(x) => Some(x@),
        None => None,
    }
}

/// A copy of an optional location with the same content.
pub(crate) fn copy_location(l: &Option<ArtifactLocation>) -> (r: Option<ArtifactLocation>)
    ensures
        location_view(r) == location_view(*l),
{
    match l {
        Some(ArtifactLocation::LocalStorage) => Some(ArtifactLocation::LocalStorage),
        Some(ArtifactLocation::Memory) => Some(ArtifactLocation::Memory),
        Some(ArtifactLocation::Peer(p)) => Some(ArtifactLocation::Peer(p.duplicate())),
        None => None,
    }
}

} // verus!
