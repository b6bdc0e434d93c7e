use crate::ai::ids::AiError;
use crate::ai::resources::{provenance_ok, ArtifactDigest, ArtifactIdentity, ArtifactProvenance, ArtifactProvenanceVerifier};
use vstd::prelude::*;

verus! {

/// Largest signature a provenance store may be configured to accept, in bytes.
pub const MAX_SIGNATURE_LIMIT: usize = 65536;

/// A bounded catalog of verified artifact provenance, keyed by artifact digest. Signed artifacts
/// are activated only once their provenance is registered here and checks out again.
pub struct ProvenanceArtifactStore {
    max_records: usize,
    max_signature_bytes: usize,
    records: Vec<(ArtifactDigest, ArtifactProvenance)>,
}

/// Whether a record for digest `d` is in `records`.
pub open spec fn has_record(records: Seq<(Seq<u8>, ArtifactProvenance)>, d: Seq<u8>) -> bool {
    exists|i: int| 0 <= i < records.len() && (#[trigger] records[i]).0 == d
}

/// No digest occurs twice.
pub open spec fn distinct_digests(records: Seq<(Seq<u8>, ArtifactProvenance)>) -> bool {
    forall|i: int, j: int| 0 <= i < j < records.len() ==> (#[trigger] records[i]).0 != (#[trigger] records[j]).0
}

/// The catalog after registering `p` under digest `d`, and the answer: a new digest is added
/// while there is room; a known digest has its record replaced and is reported as a conflict.
pub open spec fn insert_outcome(
    records: Seq<(Seq<u8>, ArtifactProvenance)>,
    max_records: usize,
    d: Seq<u8>,
    p: ArtifactProvenance,
) -> (Seq<(Seq<u8>, ArtifactProvenance)>, Result<(), AiError>) {
    if has_record(records, d) {
        let i = choose|i: int| 0 <= i < records.len() && (#[trigger] records[i]).0 == d;
        (records.update(i, (d, p)), Err(AiError::Conflict("artifact provenance")))
    } else if records.len() >= max_records {
        (records, Err(AiError::Capacity("artifact provenance records")))
    } else {
        (records.push((d, p)), Ok(()))
    }
}

impl ProvenanceArtifactStore {
    /// The records, in registration order.
    pub closed spec fn records(&self) -> Seq<(Seq<u8>, ArtifactProvenance)> {
        self.records@.map_values(|r: (ArtifactDigest, ArtifactProvenance)| (r.0@, r.1))
    }

    /// Most records kept.
    pub closed spec fn max_records(&self) -> usize {
        self.max_records
    }

    /// Largest accepted signature, in bytes.
    pub closed spec fn max_signature_bytes(&self) -> usize {
        self.max_signature_bytes
    }

    /// At most `max_records` records, none for the same digest.
    pub open spec fn wf(&self) -> bool {
        &&& self.records().len() <= self.max_records()
        &&& distinct_digests(self.records())
    }

    /// An empty catalog of at most `max_records` records with signatures of at most
    /// `max_signature_bytes` bytes; both must be positive and the latter at most 64 KiB.
    pub fn new(max_records: usize, max_signature_bytes: usize) -> (r: Result<Self, AiError>)
        ensures
            r is Ok <==> (max_records != 0 && max_signature_bytes != 0 && max_signature_bytes <= MAX_SIGNATURE_LIMIT),
            r matches Err(e) ==> e == AiError::InvalidInput("artifact provenance store"),
            r matches Ok(s) ==> s.wf() && s.records().len() == 0 && s.max_records() == max_records
                && s.max_signature_bytes() == max_signature_bytes,
    {
        if max_records == 0 || max_signature_bytes == 0 || max_signature_bytes > MAX_SIGNATURE_LIMIT {
            return Err(AiError::InvalidInput("artifact provenance store"));
        }
        let s = ProvenanceArtifactStore { max_records, max_signature_bytes, records: Vec::new() };
        assert(s.records() =~= Seq::<(Seq<u8>, ArtifactProvenance)>::empty());
        Ok(s)
    }

    /// The number of registered records.
    pub fn len(&self) -> (r: usize)
        ensures
            r == self.records().len(),
    {
        self.records.len()
    }

    fn find(&self, digest: &ArtifactDigest) -> (r: Option<usize>)
        ensures
            r matches Some(i) ==> i < self.records().len() && self.records()[i as int].0 == digest@,
            r is None ==> !has_record(self.records(), digest@),
    {
        let mut i: usize = 0;
        while i < self.records.len()
            invariant
                i <= self.records.len(),
                forall|k: int| 0 <= k < i ==> self.records()[k].0 != digest@,
            decreases self.records.len() - i,
        {
            if self.records[i].0.same(digest) {
                return Some(i);
            }
            i = i + 1;
        }
        None
    }

    /// Stores `provenance` under `digest` after it passed its checks.
    fn insert(&mut self, digest: ArtifactDigest, provenance: ArtifactProvenance) -> (r: Result<(), AiError>)
        requires
            old(self).wf(),
        ensures
            final(self).wf(),
            final(self).max_records() == old(self).max_records(),
            final(self).max_signature_bytes() == old(self).max_signature_bytes(),
            (final(self).records(), r) == insert_outcome(old(self).records(), old(self).max_records(), digest@, provenance),
    {
        let ghost before = self.records();
        match self.find(&digest) {
            Some(i) => {
                proof {
                    let j = choose|j: int| 0 <= j < before.len() && (#[trigger] before[j]).0 == digest@;
                    assert(j == i as int);
                }
                self.records.set(i, (digest, provenance));
                assert(self.records() =~= before.update(i as int, (digest@, provenance)));
                Err(AiError::Conflict("artifact provenance"))
            },
            None => {
                if self.records.len() >= self.max_records {
                    return Err(AiError::Capacity("artifact provenance records"));
                }
                self.records.push((digest, provenance));
                assert(self.records() =~= before.push((digest@, provenance)));
                Ok(())
            },
        }
    }

    /// Registers provenance for an artifact once its metadata checks out at `now_ms` and the
    /// verifier accepts its signature. A digest registered before has its record replaced and
    /// the call answers with a conflict.
    pub fn register<V: ArtifactProvenanceVerifier>(
        &mut self,
        identity: &ArtifactIdentity,
        provenance: ArtifactProvenance,
        now_ms: u64,
        verifier: &V,
    ) -> (r: Result<(), AiError>)
        requires
            old(self).wf(),
        ensures
            final(self).wf(),
            final(self).max_records() == old(self).max_records(),
            final(self).max_signature_bytes() == old(self).max_signature_bytes(),
            !provenance_ok(provenance, *identity, now_ms, old(self).max_signature_bytes()) ==> r == Err::<(), AiError>(
                AiError::Integrity("artifact provenance"),
            ) && final(self).records() == old(self).records(),
            provenance_ok(provenance, *identity, now_ms, old(self).max_signature_bytes()) ==> exists|v: Result<(), AiError>|
                #![trigger verifier.answers(*identity, provenance, v)]
                verifier.answers(*identity, provenance, v) && match v {
                    Err(e) => r == Err::<(), AiError>(e) && final(self).records() == old(self).records(),
                    Ok(()) => (final(self).records(), r) == insert_outcome(
                        old(self).records(),
                        old(self).max_records(),
                        identity.digest@,
                        provenance,
                    ),
                },
    {
        match provenance.validate(identity, now_ms, self.max_signature_bytes) {
            Err(e) => return Err(e),
            Ok(()) => {},
        }
        let v = verifier.verify(identity, &provenance);
        match v {
            Err(e) => Err(e),
            Ok(()) => self.insert(identity.digest, provenance),
        }
    }

    /// Whether an artifact may be activated now: an artifact that needs no signature may; one
    /// that does needs registered provenance that still checks out at `now_ms` and that the
    /// verifier accepts again.
    pub fn verify_registered<V: ArtifactProvenanceVerifier>(
        &self,
        identity: &ArtifactIdentity,
        now_ms: u64,
        verifier: &V,
    ) -> (r: Result<bool, AiError>)
        ensures
            !identity.signature_required ==> r == Ok::<bool, AiError>(true),
            identity.signature_required && !has_record(self.records(), identity.digest@) ==> r == Err::<bool, AiError>(
                AiError::Integrity("artifact provenance missing"),
            ),
            identity.signature_required && has_record(self.records(), identity.digest@) ==> exists|i: int|
                0 <= i < self.records().len() && (#[trigger] self.records()[i]).0 == identity.digest@ && ({
                    let p = self.records()[i].1;
                    if !provenance_ok(p, *identity, now_ms, self.max_signature_bytes()) {
                        r == Err::<bool, AiError>(AiError::Integrity("artifact provenance"))
                    } else {
                        exists|v: Result<(), AiError>|
                            #![trigger verifier.answers(*identity, p, v)]
                            verifier.answers(*identity, p, v) && match v {
                                Err(e) => r == Err::<bool, AiError>(e),
                                Ok(()) => r == Ok::<bool, AiError>(true),
                            }
                    }
                }),
    {
        if !identity.signature_required {
            return Ok(true);
        }
        let i = match self.find(&identity.digest) {
            Some(i) => i,
            None => {
                return Err(AiError::Integrity("artifact provenance missing"));
            },
        };
        let p = &self.records[i].1;
        assert(self.records()[i as int].1 == *p);
        match p.validate(identity, now_ms, self.max_signature_bytes) {
            Err(e) => return Err(e),
            Ok(()) => {},
        }
        match verifier.verify(identity, p) {
            Err(e) => Err(e),
            Ok(()) => Ok(true),
        }
    }
}

/// A store with no record refuses every artifact that needs a signature as having no
/// provenance: there is no record for any digest.
pub proof fn empty_store_has_no_record(s: ProvenanceArtifactStore, d: Seq<u8>)
    requires
        s.records().len() == 0,
    ensures
        !has_record(s.records(), d),
{
}

} // verus!
