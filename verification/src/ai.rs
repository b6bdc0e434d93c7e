pub mod directory;
pub mod directory_laws;
pub mod health;
pub mod ids;
pub mod kinds;
pub mod local_route;
pub mod ordering;
pub mod placement;
pub mod provenance;
pub mod resolve;
pub mod resources;
pub mod routing;
pub mod response;
pub mod scheduler;
pub mod scheduler_laws;
pub mod score;
pub mod security;
pub mod streaming;
pub mod swarm;
pub mod training;

pub use ids::{AiError, BackendId, CapabilityId, DeviceId, LimitKind, ModelId, PeerId};
pub use kinds::{
    AdmissionVerdict, AiLatencyClass, AiPriority, AiResourceMode, ArtifactLocation, BackendHealth, DeviceKind, ResourceBudget,
    ResourceEstimate,
};
pub use placement::{
    ComputeTarget, PlacementCandidate, PlacementContext, PlacementKey, PlacementMetrics, PlacementPlan,
    PlacementPlanner, PlacementRejection, PlacementRejectionReason, ScoredPlacement, SchedulerWeights,
};
pub use scheduler::CostScheduler;
pub use security::{AiAuthorizationContext, AiSecretReference, REMOTE_COMPUTE_GRANT, REMOTE_STORAGE_GRANT};
pub use directory::{
    PeerAuthorization, PeerCapabilityAuthorizer, PeerCapabilityDirectory, PeerDirectoryConfig, PeerDirectoryMetrics,
};
pub use resources::{
    AiContributionPolicy, ArtifactDigest, ArtifactIdentity, ArtifactProvenance, ArtifactProvenanceVerifier,
    DeviceCapabilities, DeviceClass, DeviceMemoryKind, DeviceSnapshot,
};
pub use swarm::{AdvertisedCompute, AdvertisedStorage, AiNodeCapabilities, SwarmRoute};
pub use training::{IgnoreTrainingProgress, InMemoryTrainingDataset, TrainingCheckpointPolicy, TrainingDataset, TrainingExample};
pub use response::{AiMetadata, ExecutionAttempt, ExecutionDecision, ExecutionTarget, RouteReason};
pub use streaming::{AiStreamEvent, AiStreamSink};
