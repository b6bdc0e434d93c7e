use crate::ai::ids::{AiError, CapabilityId};
use crate::ai::resources::ArtifactIdentity;
use crate::text::text_eq;
use vstd::prelude::*;

verus! {

/// Grant that permits remote AI compute.
pub const REMOTE_COMPUTE_GRANT: &'static str = "ai.remote.compute";

/// Grant that permits remote artifact storage.
pub const REMOTE_STORAGE_GRANT: &'static str = "ai.remote.storage";

/// Most grants an authorization context may carry.
pub const MAX_GRANTS: usize = 32;

/// Tenant, subject and grants resolved by the security layer for one request.
#[derive(Clone, Debug, Eq, PartialEq)]
pub struct AiAuthorizationContext {
    /// Authorized tenant scope.
    pub tenant: CapabilityId,
    /// Authenticated subject identity.
    pub subject: CapabilityId,
    /// Bounded grants resolved by AppCore security.
    pub grants: Vec<CapabilityId>,
}

/// A reference to a secret that only the composition layer resolves.
#[derive(Clone, Debug, Eq, PartialEq)]
pub struct AiSecretReference {
    /// Explicit remote provider identity.
    pub provider: CapabilityId,
    /// AppCore security reference resolved only by the composition adapter.
    pub reference: CapabilityId,
}

/// The texts of a list of identifiers.
pub open spec fn ids_view(v: Seq<CapabilityId>) -> Seq<Seq<char>> {
    v.map_values(|c: CapabilityId| c@)
}

/// Between one and 32 grants, none repeated.
pub open spec fn grants_ok(grants: Seq<Seq<char>>) -> bool {
    &&& 1 <= grants.len() <= MAX_GRANTS
    &&& forall|i: int, j: int| 0 <= i < j < grants.len() ==> #[trigger] grants[i] != #[trigger] grants[j]
}

impl AiAuthorizationContext {
    /// Checks that the grants are bounded and free of duplicates.
    pub fn validate(&self) -> (r: Result<(), AiError>)
        ensures
            r is Ok <==> grants_ok(ids_view(self.grants@)),
            r matches Err(e) ==> e == AiError::Unauthorized,
    {
        let ghost g = ids_view(self.grants@);
        let n = self.grants.len();
        if n == 0 || n > MAX_GRANTS {
            return Err(AiError::Unauthorized);
        }
        let mut i: usize = 0;
        while i < n
            invariant
                i <= n,
                n == self.grants.len(),
                g == ids_view(self.grants@),
                forall|a: int, b: int| 0 <= a < b < n && a < i ==> #[trigger] g[a] != #[trigger] g[b],
            decreases n - i,
        {
            let mut j: usize = i + 1;
            while j < n
                invariant
                    i < n,
                    i + 1 <= j <= n,
                    n == self.grants.len(),
                    g == ids_view(self.grants@),
                    forall|a: int, b: int| 0 <= a < b < n && a < i ==> #[trigger] g[a] != #[trigger] g[b],
                    forall|b: int| i < b < j ==> g[i as int] != #[trigger] g[b],
                decreases n - j,
            {
                if self.grants[i].same(&self.grants[j]) {
                    assert(g[i as int] == g[j as int]);
                    return Err(AiError::Unauthorized);
                }
                j = j + 1;
            }
            i = i + 1;
        }
        Ok(())
    }

    /// Whether exactly this grant was supplied.
    pub fn allows(&self, grant: &str) -> (r: bool)
        ensures
            r == ids_view(self.grants@).contains(grant@),
    {
        let ghost g = ids_view(self.grants@);
        let mut i: usize = 0;
        while i < self.grants.len()
            invariant
                i <= self.grants.len(),
                g == ids_view(self.grants@),
                forall|k: int| 0 <= k < i ==> g[k] != grant@,
            decreases self.grants.len() - i,
        {
            if text_eq(self.grants[i].as_str(), grant) {
                assert(g[i as int] == grant@);
                return true;
            }
            i = i + 1;
        }
        false
    }
}

/// Serialized form of a model artifact.
#[derive(Clone, Debug, PartialEq, Eq)]
pub enum ArtifactFormat {
    /// The built-in linear model format.
    NativeLinearV1,
    /// GGUF tensors.
    Gguf,
    /// ONNX graph.
    Onnx,
    /// SafeTensors tensors.
    SafeTensors,
    /// A provider-owned format, which may imply custom code.
    Other(CapabilityId),
}

/// Whether two formats are the same.
pub open spec fn same_format(a: ArtifactFormat, b: ArtifactFormat) -> bool {
    match (a, b) {
        (ArtifactFormat::NativeLinearV1, ArtifactFormat::NativeLinearV1) => true,
        (ArtifactFormat::Gguf, ArtifactFormat::Gguf) => true,
        (ArtifactFormat::Onnx, ArtifactFormat::Onnx) => true,
        (ArtifactFormat::SafeTensors, ArtifactFormat::SafeTensors) => true,
        (ArtifactFormat::Other(x), ArtifactFormat::Other(y)) => x@ == y@,
        _ => false,
    }
}

fn format_matches(a: &ArtifactFormat, b: &ArtifactFormat) -> (r: bool)
    ensures
        r == same_format(*a, *b),
{
    match (a, b) {
        (ArtifactFormat::NativeLinearV1, ArtifactFormat::NativeLinearV1) => true,
        (ArtifactFormat::Gguf, ArtifactFormat::Gguf) => true,
        (ArtifactFormat::Onnx, ArtifactFormat::Onnx) => true,
        (ArtifactFormat::SafeTensors, ArtifactFormat::SafeTensors) => true,
        (ArtifactFormat::Other(x), ArtifactFormat::Other(y)) => x.same(y),
        _ => false,
    }
}

/// Explicit allowlist and resource ceilings for activating model metadata.
#[derive(Clone, Debug, PartialEq, Eq)]
pub struct ModelSecurityPolicy {
    /// Data-only artifact formats accepted by this deployment.
    pub allowed_formats: Vec<ArtifactFormat>,
    /// Whether provider-owned formats, which may imply custom code, are accepted.
    pub allow_provider_formats: bool,
    /// Largest artifact, in bytes.
    pub max_artifact_bytes: u64,
    /// Largest declared system memory, in bytes.
    pub max_memory_bytes: u64,
    /// Largest declared device memory, in bytes.
    pub max_vram_bytes: u64,
    /// Whether every model needs provenance, even where its metadata does not ask for it.
    pub require_provenance: bool,
}

/// The largest artifact the default policy accepts: 16 GiB.
pub const DEFAULT_MAX_ARTIFACT_BYTES: u64 = 17_179_869_184;

/// The most memory, and device memory, the default policy accepts: 64 GiB.
pub const DEFAULT_MAX_MEMORY_BYTES: u64 = 68_719_476_736;

impl Default for ModelSecurityPolicy {
    /// The four data-only formats, no provider formats, 16 GiB artifacts, 64 GiB of memory and
    /// of device memory, and provenance only where the model asks for it.
    fn default() -> (r: Self)
        ensures
            r.allowed_formats@ == seq![
                ArtifactFormat::NativeLinearV1,
                ArtifactFormat::Gguf,
                ArtifactFormat::Onnx,
                ArtifactFormat::SafeTensors,
            ],
            !r.allow_provider_formats,
            r.max_artifact_bytes == DEFAULT_MAX_ARTIFACT_BYTES,
            r.max_memory_bytes == DEFAULT_MAX_MEMORY_BYTES,
            r.max_vram_bytes == DEFAULT_MAX_MEMORY_BYTES,
            !r.require_provenance,
    {
        ModelSecurityPolicy {
            allowed_formats: vec![
                ArtifactFormat::NativeLinearV1,
                ArtifactFormat::Gguf,
                ArtifactFormat::Onnx,
                ArtifactFormat::SafeTensors,
            ],
            allow_provider_formats: false,
            max_artifact_bytes: DEFAULT_MAX_ARTIFACT_BYTES,
            max_memory_bytes: DEFAULT_MAX_MEMORY_BYTES,
            max_vram_bytes: DEFAULT_MAX_MEMORY_BYTES,
            require_provenance: false,
        }
    }
}

/// Whether a policy admits a model of this format, declared memory and device memory, and
/// artifact: an allowed format (or a provider format where those are allowed), sizes within the
/// ceilings, and a publisher wherever provenance is needed.
pub open spec fn model_admitted(
    policy: ModelSecurityPolicy,
    format: ArtifactFormat,
    memory_bytes: u64,
    vram_bytes: u64,
    artifact: ArtifactIdentity,
) -> bool {
    &&& (exists|i: int| 0 <= i < policy.allowed_formats@.len() && same_format(#[trigger] policy.allowed_formats@[i], format))
        || (policy.allow_provider_formats && format is Other)
    &&& artifact.size_bytes <= policy.max_artifact_bytes
    &&& memory_bytes <= policy.max_memory_bytes
    &&& vram_bytes <= policy.max_vram_bytes
    &&& (policy.require_provenance || artifact.signature_required) ==> artifact.publisher is Some
}

impl ModelSecurityPolicy {
    /// Checks model metadata against the policy without executing, decompressing or parsing the
    /// artifact.
    pub fn validate_model(
        &self,
        format: &ArtifactFormat,
        estimated_memory_bytes: u64,
        estimated_vram_bytes: u64,
        artifact: &ArtifactIdentity,
    ) -> (r: Result<(), AiError>)
        ensures
            r is Ok <==> model_admitted(*self, *format, estimated_memory_bytes, estimated_vram_bytes, *artifact),
            r matches Err(e) ==> e == AiError::Unauthorized,
    {
        let mut listed = false;
        let mut i: usize = 0;
        while i < self.allowed_formats.len()
            invariant
                i <= self.allowed_formats.len(),
                listed <==> exists|k: int| 0 <= k < i && same_format(#[trigger] self.allowed_formats@[k], *format),
            decreases self.allowed_formats.len() - i,
        {
            if format_matches(&self.allowed_formats[i], format) {
                listed = true;
            }
            i = i + 1;
        }
        let provider = match format {
            ArtifactFormat::Other(_) => true,
            _ => false,
        };
        let format_allowed = listed || (self.allow_provider_formats && provider);
        if !format_allowed || artifact.size_bytes > self.max_artifact_bytes
            || estimated_memory_bytes > self.max_memory_bytes || estimated_vram_bytes > self.max_vram_bytes
            || ((self.require_provenance || artifact.signature_required) && artifact.publisher.is_none()) {
            return Err(AiError::Unauthorized);
        }
        Ok(())
    }
}

} // verus!
