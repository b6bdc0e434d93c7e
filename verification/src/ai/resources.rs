use crate::ai::ids::{AiError, CapabilityId, DeviceId};
use crate::ai::kinds::DeviceKind;
use vstd::prelude::*;

verus! {

/// How a device reaches its working memory.
#[derive(Clone, Copy, Debug, PartialEq, Eq, Structural)]
pub enum DeviceMemoryKind {
    /// Memory of its own, separate from system memory.
    Dedicated,
    /// One pool shared with the host processor.
    Unified,
}

/// Finer hardware class of a device.
#[derive(Clone, Copy, Debug, PartialEq, Eq, Structural)]
pub enum DeviceClass {
    /// General-purpose processor.
    Cpu,
    /// Graphics processor with memory of its own.
    DiscreteGpu,
    /// Graphics processor sharing host memory.
    IntegratedGpu,
    /// Neural accelerator.
    Npu,
}

/// Static traits of a device.
#[derive(Clone, Debug, PartialEq, Eq)]
pub struct DeviceCapabilities {
    /// Hardware class.
    pub class: DeviceClass,
    /// Memory arrangement.
    pub memory_kind: DeviceMemoryKind,
    /// Compute interfaces the device supports.
    pub compatible_apis: Vec<String>,
}

/// One sampled device.
#[derive(Clone, Debug, PartialEq, Eq)]
pub struct DeviceSnapshot {
    /// Device identity.
    pub id: DeviceId,
    /// Backend-neutral kind.
    pub kind: DeviceKind,
    /// Static traits.
    pub capabilities: DeviceCapabilities,
    /// Total memory, when known.
    pub total_memory_bytes: Option<u64>,
    /// Available memory, when known.
    pub available_memory_bytes: Option<u64>,
    /// Used memory, when known.
    pub used_memory_bytes: Option<u64>,
    /// Utilization percentage, when known.
    pub utilization_percent: Option<u8>,
    /// Whether the device answered its last health check.
    pub healthy: bool,
}

/// Ceilings on what this node donates to its peers.
#[derive(Clone, Copy, Debug, PartialEq, Eq, Structural)]
pub struct AiContributionPolicy {
    /// Whether compute is donated at all.
    pub contribute_compute: bool,
    /// Whether artifact storage is donated at all.
    pub contribute_storage: bool,
    /// Largest donated CPU share in percent.
    pub max_cpu_percent: u8,
    /// Largest donated GPU share in percent.
    pub max_gpu_percent: u8,
    /// Largest donated system memory.
    pub max_memory_bytes: u64,
    /// Largest donated device memory.
    pub max_vram_bytes: u64,
    /// Largest donated artifact storage.
    pub max_storage_bytes: u64,
    /// Most donated worker slots.
    pub max_workers: usize,
    /// Most donated simultaneous jobs.
    pub max_concurrent_jobs: usize,
}

/// Content digest of an artifact.
#[derive(Clone, Copy, Debug, PartialEq, Eq, PartialOrd, Ord, Hash)]
pub struct ArtifactDigest([u8; 32]);

impl View for ArtifactDigest {
    type V = Seq<u8>;

    closed spec fn view(&self) -> Seq<u8> {
        self.0@
    }
}

impl ArtifactDigest {
    /// The digest with these bytes.
    pub fn from_digest(bytes: [u8; 32]) -> (r: Self)
        ensures
            r@ == bytes@,
    {
        ArtifactDigest(bytes)
    }

    /// The digest bytes.
    pub fn as_bytes(&self) -> (r: &[u8; 32])
        ensures
            r@ == self@,
    {
        &self.0
    }

    /// Whether two digests are equal.
    pub fn same(&self, other: &Self) -> (r: bool)
        ensures
            r == (self@ == other@),
    {
        let mut i: usize = 0;
        while i < 32
            invariant
                i <= 32,
                self@.len() == 32,
                other@.len() == 32,
                forall|k: int| 0 <= k < i ==> self@[k] == other@[k],
            decreases 32 - i,
        {
            if self.0[i] != other.0[i] {
                return false;
            }
            i = i + 1;
        }
        assert(self@ =~= other@);
        true
    }
}

/// Content identity of an artifact and what its activation requires.
#[derive(Clone, Debug, PartialEq, Eq)]
pub struct ArtifactIdentity {
    /// Content digest.
    pub digest: ArtifactDigest,
    /// Exact size in bytes.
    pub size_bytes: u64,
    /// Declared publisher, when any.
    pub publisher: Option<CapabilityId>,
    /// Whether activation requires verified provenance.
    pub signature_required: bool,
}

/// Signed artifact provenance metadata with no private key or raw credential. It has no
/// `Debug`, so that signature bytes never reach diagnostics.
#[derive(Clone, Eq, PartialEq)]
pub struct ArtifactProvenance {
    /// Publisher that must match artifact identity metadata.
    pub publisher: CapabilityId,
    /// Opaque signature verified by an AppCore security adapter.
    pub signature: Vec<u8>,
    /// Signing time in the verifier's time domain.
    pub signed_at_ms: u64,
    /// Expiration in the verifier's time domain.
    pub expires_at_ms: u64,
}

/// Provenance that names the identity's publisher, carries 1 to `max_signature_bytes` signature
/// bytes, and is signed no later than `now` and valid after it, expiring after it was signed.
pub open spec fn provenance_ok(
    p: ArtifactProvenance,
    identity: ArtifactIdentity,
    now_ms: u64,
    max_signature_bytes: usize,
) -> bool {
    &&& identity.publisher matches Some(publisher) && publisher@ == p.publisher@
    &&& 1 <= p.signature@.len() <= max_signature_bytes
    &&& p.signed_at_ms <= now_ms
    &&& now_ms < p.expires_at_ms
    &&& p.signed_at_ms < p.expires_at_ms
}

impl ArtifactProvenance {
    /// Checks the metadata of this provenance against an identity at time `now_ms`.
    pub fn validate(&self, identity: &ArtifactIdentity, now_ms: u64, max_signature_bytes: usize) -> (r: Result<
        (),
        AiError,
    >)
        ensures
            r is Ok <==> provenance_ok(*self, *identity, now_ms, max_signature_bytes),
            r matches Err(e) ==> e == AiError::Integrity("artifact provenance"),
    {
        let publisher_matches = match &identity.publisher {
            Some(p) => p.same(&self.publisher),
            None => false,
        };
        if !publisher_matches || self.signature.len() == 0 || self.signature.len() > max_signature_bytes
            || self.signed_at_ms > now_ms || self.expires_at_ms <= now_ms || self.expires_at_ms
            <= self.signed_at_ms {
            return Err(AiError::Integrity("artifact provenance"));
        }
        Ok(())
    }
}

/// Cryptographic verification boundary implemented with AppCore security contracts.
pub trait ArtifactProvenanceVerifier {
    /// Whether `answer` is what this verifier gives for `provenance` of `identity`.
    spec fn answers(&self, identity: ArtifactIdentity, provenance: ArtifactProvenance, answer: Result<(), AiError>) -> bool;

    /// Verifies a signature over exact digest, size, publisher and validity metadata.
    fn verify(&self, identity: &ArtifactIdentity, provenance: &ArtifactProvenance) -> (r: Result<(), AiError>)
        ensures
            self.answers(*identity, *provenance, r),
    ;
}

} // verus!
