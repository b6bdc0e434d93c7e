use appcore::ai::{
    AiError, ArtifactDigest, ArtifactIdentity, ArtifactProvenance, CapabilityId, InMemoryTrainingDataset,
    TrainingCheckpointPolicy, TrainingDataset, TrainingExample,
};

fn example(text: &str, label: usize) -> TrainingExample {
    TrainingExample { text: text.to_string(), label }
}

#[test]
fn in_memory_dataset_is_bounded_and_indexed() {
    let dataset = InMemoryTrainingDataset::new(vec![example("good", 0), example("bad", 1)], 2, 8).unwrap();
    assert_eq!(dataset.len(), 2);
    assert!(!dataset.is_empty());
    assert_eq!(dataset.example(1), Ok(example("bad", 1)));
    assert_eq!(dataset.example(2), Err(AiError::NotFound("training example")));
}

#[test]
fn in_memory_dataset_refuses_empty_oversized_and_blank_input() {
    let refused = Err(AiError::InvalidInput("training dataset"));
    assert_eq!(InMemoryTrainingDataset::new(Vec::new(), 2, 8).map(|_| ()), refused);
    assert_eq!(
        InMemoryTrainingDataset::new(vec![example("a", 0), example("b", 0), example("c", 0)], 2, 8).map(|_| ()),
        refused
    );
    assert_eq!(InMemoryTrainingDataset::new(vec![example("", 0)], 2, 8).map(|_| ()), refused);
    assert_eq!(InMemoryTrainingDataset::new(vec![example("ninebytes", 0)], 2, 8).map(|_| ()), refused);
    assert_eq!(InMemoryTrainingDataset::new(vec![example("éé", 0)], 1, 3).map(|_| ()), refused);
    assert!(InMemoryTrainingDataset::new(vec![example("éé", 0)], 1, 4).is_ok());
}

#[test]
fn checkpoint_policy_defaults_to_every_epoch_and_three_checkpoints() {
    assert_eq!(TrainingCheckpointPolicy::default(), TrainingCheckpointPolicy { every_epochs: 1, max_checkpoints: 3 });
}

fn identity(publisher: Option<&str>) -> ArtifactIdentity {
    ArtifactIdentity {
        digest: ArtifactDigest::from_digest([1; 32]),
        size_bytes: 12,
        publisher: publisher.map(|p| CapabilityId::new(p).unwrap()),
        signature_required: true,
    }
}

fn provenance(signed: u64, expires: u64, signature: &[u8]) -> ArtifactProvenance {
    ArtifactProvenance {
        publisher: CapabilityId::new("publisher/signed").unwrap(),
        signature: signature.to_vec(),
        signed_at_ms: signed,
        expires_at_ms: expires,
    }
}

#[test]
fn provenance_must_match_publisher_and_be_current() {
    let refused = Err(AiError::Integrity("artifact provenance"));
    let id = identity(Some("publisher/signed"));
    let valid = provenance(50, 200, b"valid-signature");
    assert_eq!(valid.validate(&id, 100, 128), Ok(()));
    assert_eq!(valid.validate(&id, 200, 128), refused);
    assert_eq!(valid.validate(&id, 201, 128), refused);
    assert_eq!(valid.validate(&id, 49, 128), refused);
    assert_eq!(valid.validate(&id, 100, 4), refused);
    assert_eq!(valid.validate(&identity(None), 100, 128), refused);
    assert_eq!(valid.validate(&identity(Some("publisher/other")), 100, 128), refused);
    assert_eq!(provenance(50, 200, b"").validate(&id, 100, 128), refused);
    assert_eq!(provenance(50, 50, b"sig").validate(&id, 50, 128), refused);
}

#[test]
fn digests_compare_by_bytes() {
    let a = ArtifactDigest::from_digest([3; 32]);
    let b = ArtifactDigest::from_digest([3; 32]);
    let mut raw = [3; 32];
    raw[31] = 4;
    let c = ArtifactDigest::from_digest(raw);
    assert!(a.same(&b));
    assert!(!a.same(&c));
    assert_eq!(c.as_bytes()[31], 4);
}
