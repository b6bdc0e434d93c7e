use appcore::ai::health::{AiRuntimeHealth, BackendRegistrySnapshot, ModelRegistrySnapshot};
use appcore::ai::provenance::ProvenanceArtifactStore;
use appcore::ai::security::{ArtifactFormat, ModelSecurityPolicy};
use appcore::ai::training::batch_limit;
use appcore::ai::{
    AdmissionVerdict, AiError, ArtifactDigest, ArtifactIdentity, ArtifactProvenance, ArtifactProvenanceVerifier,
    CapabilityId,
};

struct FakeProvenanceVerifier;

impl ArtifactProvenanceVerifier for FakeProvenanceVerifier {
    fn answers(&self, _identity: ArtifactIdentity, _provenance: ArtifactProvenance, _answer: Result<(), AiError>) -> bool {
        true
    }

    fn verify(&self, _identity: &ArtifactIdentity, provenance: &ArtifactProvenance) -> Result<(), AiError> {
        if provenance.signature == b"valid-signature".to_vec() {
            Ok(())
        } else {
            Err(AiError::Integrity("artifact signature"))
        }
    }
}

fn identity(publisher: &CapabilityId) -> ArtifactIdentity {
    ArtifactIdentity {
        digest: ArtifactDigest::from_digest([7; 32]),
        size_bytes: u64::try_from(b"signed-model".len()).unwrap(),
        publisher: Some(publisher.clone()),
        signature_required: true,
    }
}

fn provenance(publisher: &CapabilityId, signature: &[u8]) -> ArtifactProvenance {
    ArtifactProvenance { publisher: publisher.clone(), signature: signature.to_vec(), signed_at_ms: 50, expires_at_ms: 200 }
}

#[test]
fn signed_artifact_requires_valid_unexpired_provenance() {
    let publisher = CapabilityId::new("publisher/signed").unwrap();
    let identity = identity(&publisher);
    let mut store = ProvenanceArtifactStore::new(4, 128).unwrap();
    store.register(&identity, provenance(&publisher, b"valid-signature"), 100, &FakeProvenanceVerifier).unwrap();
    assert_eq!(store.verify_registered(&identity, 100, &FakeProvenanceVerifier), Ok(true));
    assert_eq!(
        store.verify_registered(&identity, 201, &FakeProvenanceVerifier),
        Err(AiError::Integrity("artifact provenance"))
    );
}

#[test]
fn provenance_store_bounds_and_conflicts() {
    assert_eq!(ProvenanceArtifactStore::new(0, 128).err(), Some(AiError::InvalidInput("artifact provenance store")));
    assert!(ProvenanceArtifactStore::new(1, 0).is_err());
    assert!(ProvenanceArtifactStore::new(1, 65_537).is_err());
    assert!(ProvenanceArtifactStore::new(1, 65_536).is_ok());
    let publisher = CapabilityId::new("publisher/signed").unwrap();
    let first = identity(&publisher);
    let mut second = identity(&publisher);
    second.digest = ArtifactDigest::from_digest([8; 32]);
    let mut store = ProvenanceArtifactStore::new(1, 128).unwrap();
    assert_eq!(
        store.register(&first, provenance(&publisher, b"forged"), 100, &FakeProvenanceVerifier),
        Err(AiError::Integrity("artifact signature"))
    );
    assert_eq!(store.len(), 0);
    let mut long = provenance(&publisher, b"valid-signature");
    long.signature = vec![1; 129];
    assert_eq!(store.register(&first, long, 100, &FakeProvenanceVerifier), Err(AiError::Integrity("artifact provenance")));
    store.register(&first, provenance(&publisher, b"valid-signature"), 100, &FakeProvenanceVerifier).unwrap();
    assert_eq!(
        store.register(&second, provenance(&publisher, b"valid-signature"), 100, &FakeProvenanceVerifier),
        Err(AiError::Capacity("artifact provenance records"))
    );
    assert_eq!(
        store.register(&first, provenance(&publisher, b"valid-signature"), 100, &FakeProvenanceVerifier),
        Err(AiError::Conflict("artifact provenance"))
    );
    assert_eq!(store.len(), 1);
    assert_eq!(
        store.verify_registered(&second, 100, &FakeProvenanceVerifier),
        Err(AiError::Integrity("artifact provenance missing"))
    );
    let mut unsigned = second.clone();
    unsigned.signature_required = false;
    assert_eq!(store.verify_registered(&unsigned, 100, &FakeProvenanceVerifier), Ok(true));
}

#[test]
fn security_policy_rejects_provider_formats_and_debug_redacts_content() {
    let artifact = ArtifactIdentity {
        digest: ArtifactDigest::from_digest([1; 32]),
        size_bytes: u64::try_from(b"unsafe".len()).unwrap(),
        publisher: None,
        signature_required: false,
    };
    let format = ArtifactFormat::Other(CapabilityId::new("provider/custom-op").unwrap());
    assert_eq!(ModelSecurityPolicy::default().validate_model(&format, 1024, 0, &artifact), Err(AiError::Unauthorized));
}

#[test]
fn security_policy_checks_formats_ceilings_and_publisher() {
    let mut artifact = ArtifactIdentity {
        digest: ArtifactDigest::from_digest([1; 32]),
        size_bytes: 6,
        publisher: None,
        signature_required: false,
    };
    let policy = ModelSecurityPolicy::default();
    assert_eq!(policy.validate_model(&ArtifactFormat::Gguf, 1024, 0, &artifact), Ok(()));
    assert_eq!(policy.validate_model(&ArtifactFormat::Gguf, 68_719_476_737, 0, &artifact), Err(AiError::Unauthorized));
    assert_eq!(policy.validate_model(&ArtifactFormat::Gguf, 0, 68_719_476_737, &artifact), Err(AiError::Unauthorized));
    let provider = ArtifactFormat::Other(CapabilityId::new("provider/custom-op").unwrap());
    let open = ModelSecurityPolicy { allow_provider_formats: true, ..ModelSecurityPolicy::default() };
    assert_eq!(open.validate_model(&provider, 0, 0, &artifact), Ok(()));
    artifact.signature_required = true;
    assert_eq!(policy.validate_model(&ArtifactFormat::Onnx, 0, 0, &artifact), Err(AiError::Unauthorized));
    artifact.publisher = Some(CapabilityId::new("publisher/a").unwrap());
    assert_eq!(policy.validate_model(&ArtifactFormat::Onnx, 0, 0, &artifact), Ok(()));
    artifact.size_bytes = 17_179_869_185;
    assert_eq!(policy.validate_model(&ArtifactFormat::Onnx, 0, 0, &artifact), Err(AiError::Unauthorized));
}

#[test]
fn deferred_training_never_runs_a_blind_minimum_batch() {
    assert_eq!(batch_limit(AdmissionVerdict::Defer, 8), Err(AiError::Capacity("training resources deferred")));
}

#[test]
fn training_batch_limit_halves_under_pressure() {
    assert_eq!(batch_limit(AdmissionVerdict::Admit { pressure_limited: true }, 7), Ok(4));
    assert_eq!(batch_limit(AdmissionVerdict::Admit { pressure_limited: true }, 0), Ok(1));
    assert_eq!(batch_limit(AdmissionVerdict::Admit { pressure_limited: true }, usize::MAX), Ok(usize::MAX / 2 + 1));
    assert_eq!(batch_limit(AdmissionVerdict::Admit { pressure_limited: false }, 0), Ok(1));
    assert_eq!(batch_limit(AdmissionVerdict::Admit { pressure_limited: false }, 9), Ok(9));
    assert_eq!(batch_limit(AdmissionVerdict::Reject, 9), Err(AiError::Capacity("training resources")));
}

#[test]
fn runtime_health_needs_a_backend_and_a_model() {
    let mut health = AiRuntimeHealth {
        backends: BackendRegistrySnapshot { healthy: 0, degraded: 1 },
        models: ModelRegistrySnapshot { available: 0, ready: 1 },
    };
    assert!(health.is_available());
    health.backends.degraded = 0;
    assert!(!health.is_available());
    health.backends.healthy = usize::MAX;
    health.backends.degraded = usize::MAX;
    assert!(health.is_available());
    health.models.ready = 0;
    assert!(!health.is_available());
}
