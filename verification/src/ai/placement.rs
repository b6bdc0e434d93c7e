use crate::ai::ids::{BackendId, DeviceId, ModelId, PeerId};
use crate::ai::kinds::{location_view, AiLatencyClass, AiPriority, AiResourceMode, ArtifactLocation, BackendHealth, DeviceKind, LocationModel, ResourceEstimate};
use crate::text::chars_of;
use core::time::Duration;
use vstd::prelude::*;

verus! {

/// Where a request runs.
#[derive(Clone, Debug, Eq, Ord, PartialEq, PartialOrd)]
pub enum ComputeTarget {
    /// Local general-purpose processor.
    LocalCpu(DeviceId),
    /// Local graphics processor.
    LocalGpu(DeviceId),
    /// Local neural accelerator.
    LocalNpu(DeviceId),
    /// Authenticated remote compute device.
    RemotePeer {
        /// Stable peer identity used internally, never in public diagnostics.
        peer: PeerId,
        /// Peer-owned device identity.
        device: DeviceId,
        /// Backend-neutral remote hardware class.
        kind: DeviceKind,
    },
}

/// Abstract content of a [`ComputeTarget`].
pub enum TargetModel {
    LocalCpu(Seq<char>),
    LocalGpu(Seq<char>),
    LocalNpu(Seq<char>),
    RemotePeer { peer: Seq<char>, device: Seq<char>, kind: DeviceKind },
}

impl View for ComputeTarget {
    type V = TargetModel;

    open spec fn view(&self) -> TargetModel {
        match self {
            ComputeTarget::LocalCpu(d) => TargetModel::LocalCpu(d@),
            ComputeTarget::LocalGpu(d) => TargetModel::LocalGpu(d@),
            ComputeTarget::LocalNpu(d) => TargetModel::LocalNpu(d@),
            ComputeTarget::RemotePeer { peer, device, kind } => TargetModel::RemotePeer {
                peer: peer@,
                device: device@,
                kind: *kind,
            },
        }
    }
}

/// The local target of a device of the given kind.
pub open spec fn local_target(kind: DeviceKind, device: Seq<char>) -> TargetModel {
    match kind {
        DeviceKind::Cpu => TargetModel::LocalCpu(device),
        DeviceKind::Gpu => TargetModel::LocalGpu(device),
        DeviceKind::Npu => TargetModel::LocalNpu(device),
    }
}

impl ComputeTarget {
    /// The local target for a backend device declaration.
    pub fn local(kind: DeviceKind, device: DeviceId) -> (r: Self)
        ensures
            r@ == local_target(kind, device@),
    {
        match kind {
            DeviceKind::Cpu => ComputeTarget::LocalCpu(device),
            DeviceKind::Gpu => ComputeTarget::LocalGpu(device),
            DeviceKind::Npu => ComputeTarget::LocalNpu(device),
        }
    }

    /// Whether the target belongs to another node.
    pub fn is_remote(&self) -> (r: bool)
        ensures
            r == (self@ is RemotePeer),
    {
        match self {
            ComputeTarget::RemotePeer { .. } => true,
            _ => false,
        }
    }

    /// A copy with the same content.
    pub(crate) fn duplicate(&self) -> (r: Self)
        ensures
            r@ == self@,
    {
        match self {
            ComputeTarget::LocalCpu(d) => ComputeTarget::LocalCpu(d.duplicate()),
            ComputeTarget::LocalGpu(d) => ComputeTarget::LocalGpu(d.duplicate()),
            ComputeTarget::LocalNpu(d) => ComputeTarget::LocalNpu(d.duplicate()),
            ComputeTarget::RemotePeer { peer, device, kind } => ComputeTarget::RemotePeer {
                peer: peer.duplicate(),
                device: device.duplicate(),
                kind: *kind,
            },
        }
    }
}

/// Identity of one route: model, backend and compute destination.
#[derive(Clone, Debug, Eq, Ord, PartialEq, PartialOrd)]
pub struct PlacementKey {
    /// Logical model identity.
    pub model: ModelId,
    /// Backend identity.
    pub backend: BackendId,
    /// Compute destination.
    pub target: ComputeTarget,
}

/// Abstract content of a [`PlacementKey`].
pub struct KeyModel {
    pub model: Seq<char>,
    pub backend: Seq<char>,
    pub target: TargetModel,
}

impl View for PlacementKey {
    type V = KeyModel;

    open spec fn view(&self) -> KeyModel {
        KeyModel { model: self.model@, backend: self.backend@, target: self.target@ }
    }
}

impl PlacementKey {
    /// A copy with the same content.
    pub(crate) fn duplicate(&self) -> (r: Self)
        ensures
            r@ == self@,
    {
        PlacementKey {
            model: self.model.duplicate(),
            backend: self.backend.duplicate(),
            target: self.target.duplicate(),
        }
    }
}

/// Lexicographic order of texts by character, which is the byte order of their UTF-8 forms.
pub open spec fn text_lt(a: Seq<char>, b: Seq<char>) -> bool
    decreases a.len(),
{
    if a.len() == 0 {
        b.len() > 0
    } else if b.len() == 0 {
        false
    } else if a[0] != b[0] {
        (a[0] as u32) < (b[0] as u32)
    } else {
        text_lt(a.drop_first(), b.drop_first())
    }
}

/// No text sorts before itself.
pub proof fn lemma_text_lt_irreflexive(a: Seq<char>)
    ensures
        !text_lt(a, a),
    decreases a.len(),
{
    if a.len() > 0 {
        lemma_text_lt_irreflexive(a.drop_first());
    }
}

/// The text order is transitive.
pub proof fn lemma_text_lt_transitive(a: Seq<char>, b: Seq<char>, c: Seq<char>)
    requires
        text_lt(a, b),
        text_lt(b, c),
    ensures
        text_lt(a, c),
    decreases a.len(),
{
    if a.len() > 0 && a[0] == b[0] && b[0] == c[0] {
        lemma_text_lt_transitive(a.drop_first(), b.drop_first(), c.drop_first());
    }
}

/// Of two different texts, one sorts before the other.
pub proof fn lemma_text_lt_total(a: Seq<char>, b: Seq<char>)
    ensures
        a != b ==> text_lt(a, b) || text_lt(b, a),
    decreases a.len(),
{
    if a.len() == 0 && b.len() == 0 {
        assert(a =~= b);
    } else if a.len() == 0 {
        assert(text_lt(a, b));
    } else if b.len() == 0 {
        assert(text_lt(b, a));
    } else if a[0] != b[0] {
        let x = a[0];
        let y = b[0];
        if (x as u32) == (y as u32) {
            vstd::utf8::char_u32_cast(x, x as u32);
            vstd::utf8::char_u32_cast(y, y as u32);
            assert(x == y);
        }
    } else {
        lemma_text_lt_total(a.drop_first(), b.drop_first());
        if a.drop_first() == b.drop_first() {
            assert(a.drop_first().len() == b.drop_first().len());
            assert(a.len() == b.len());
            assert forall|i: int| 0 <= i < a.len() implies a[i] == b[i] by {
                if i > 0 {
                    assert(a[i] == a.drop_first()[i - 1]);
                    assert(b[i] == b.drop_first()[i - 1]);
                }
            }
            assert(a =~= b);
        }
    }
}

/// Position of a device kind in declaration order.
pub open spec fn kind_rank(k: DeviceKind) -> int {
    match k {
        DeviceKind::Cpu => 0,
        DeviceKind::Gpu => 1,
        DeviceKind::Npu => 2,
    }
}

/// Position of a target variant in declaration order.
pub open spec fn target_rank(t: TargetModel) -> int {
    match t {
        TargetModel::LocalCpu(_) => 0,
        TargetModel::LocalGpu(_) => 1,
        TargetModel::LocalNpu(_) => 2,
        TargetModel::RemotePeer { .. } => 3,
    }
}

/// Declaration order of targets: variant first, then fields in order.
pub open spec fn target_lt(a: TargetModel, b: TargetModel) -> bool {
    if target_rank(a) != target_rank(b) {
        target_rank(a) < target_rank(b)
    } else {
        match (a, b) {
            (TargetModel::LocalCpu(x), TargetModel::LocalCpu(y)) => text_lt(x, y),
            (TargetModel::LocalGpu(x), TargetModel::LocalGpu(y)) => text_lt(x, y),
            (TargetModel::LocalNpu(x), TargetModel::LocalNpu(y)) => text_lt(x, y),
            (
                TargetModel::RemotePeer { peer: p1, device: d1, kind: k1 },
                TargetModel::RemotePeer { peer: p2, device: d2, kind: k2 },
            ) => text_lt(p1, p2) || (p1 == p2 && (text_lt(d1, d2) || (d1 == d2 && kind_rank(k1)
                < kind_rank(k2)))),
            _ => false,
        }
    }
}

/// Order of placement keys: model, then backend, then target.
pub open spec fn key_lt(a: KeyModel, b: KeyModel) -> bool {
    text_lt(a.model, b.model) || (a.model == b.model && (text_lt(a.backend, b.backend) || (a.backend
        == b.backend && target_lt(a.target, b.target))))
}

fn text_lt_from(a: &Vec<char>, b: &Vec<char>, i: usize) -> (r: bool)
    requires
        i <= a.len(),
        i <= b.len(),
    ensures
        r == text_lt(a@.skip(i as int), b@.skip(i as int)),
    decreases a.len() - i,
{
    if i == a.len() {
        return i < b.len();
    }
    if i == b.len() {
        return false;
    }
    assert(a@.skip(i as int)[0] == a@[i as int]);
    assert(b@.skip(i as int)[0] == b@[i as int]);
    if a[i] != b[i] {
        return (a[i] as u32) < (b[i] as u32);
    }
    assert(a@.skip(i as int).drop_first() =~= a@.skip(i + 1));
    assert(b@.skip(i as int).drop_first() =~= b@.skip(i + 1));
    text_lt_from(a, b, i + 1)
}

/// Whether `a` sorts before `b`.
pub(crate) fn text_before(a: &str, b: &str) -> (r: bool)
    ensures
        r == text_lt(a@, b@),
{
    let x = chars_of(a);
    let y = chars_of(b);
    assert(x@.skip(0) =~= x@);
    assert(y@.skip(0) =~= y@);
    text_lt_from(&x, &y, 0)
}

fn kind_index(k: DeviceKind) -> (r: u8)
    ensures
        r as int == kind_rank(k),
{
    match k {
        DeviceKind::Cpu => 0,
        DeviceKind::Gpu => 1,
        DeviceKind::Npu => 2,
    }
}

fn target_index(t: &ComputeTarget) -> (r: u8)
    ensures
        r as int == target_rank(t@),
{
    match t {
        ComputeTarget::LocalCpu(_) => 0,
        ComputeTarget::LocalGpu(_) => 1,
        ComputeTarget::LocalNpu(_) => 2,
        ComputeTarget::RemotePeer { .. } => 3,
    }
}

fn target_before(a: &ComputeTarget, b: &ComputeTarget) -> (r: bool)
    ensures
        r == target_lt(a@, b@),
{
    let ra = target_index(a);
    let rb = target_index(b);
    if ra != rb {
        return ra < rb;
    }
    match (a, b) {
        (ComputeTarget::LocalCpu(x), ComputeTarget::LocalCpu(y)) => text_before(x.as_str(), y.as_str()),
        (ComputeTarget::LocalGpu(x), ComputeTarget::LocalGpu(y)) => text_before(x.as_str(), y.as_str()),
        (ComputeTarget::LocalNpu(x), ComputeTarget::LocalNpu(y)) => text_before(x.as_str(), y.as_str()),
        (
            ComputeTarget::RemotePeer { peer: p1, device: d1, kind: k1 },
            ComputeTarget::RemotePeer { peer: p2, device: d2, kind: k2 },
        ) => {
            if text_before(p1.as_str(), p2.as_str()) {
                true
            } else if !p1.same(p2) {
                false
            } else if text_before(d1.as_str(), d2.as_str()) {
                true
            } else if !d1.same(d2) {
                false
            } else {
                kind_index(*k1) < kind_index(*k2)
            }
        },
        _ => false,
    }
}

/// Whether key `a` sorts before key `b`.
pub(crate) fn key_before(a: &PlacementKey, b: &PlacementKey) -> (r: bool)
    ensures
        r == key_lt(a@, b@),
{
    if text_before(a.model.as_str(), b.model.as_str()) {
        return true;
    }
    if !a.model.same(&b.model) {
        return false;
    }
    if text_before(a.backend.as_str(), b.backend.as_str()) {
        return true;
    }
    if !a.backend.same(&b.backend) {
        return false;
    }
    target_before(&a.target, &b.target)
}

/// Bounded observations of one route.
#[derive(Clone, Copy, Debug, Eq, PartialEq, Structural)]
pub struct PlacementMetrics {
    /// Current device utilization percentage when known.
    pub load_percent: Option<u8>,
    /// Current bounded queue depth.
    pub queue_depth: usize,
    /// Available system memory relevant to this target.
    pub available_memory_bytes: Option<u64>,
    /// Available device-local memory when applicable.
    pub available_vram_bytes: Option<u64>,
    /// Recent end-to-end latency exponential moving average.
    pub latency_ema_ms: Option<u64>,
    /// Recent throughput exponential moving average in items per second.
    pub throughput_ema: Option<u64>,
}

/// Metrics with nothing observed.
pub open spec fn no_metrics() -> PlacementMetrics {
    PlacementMetrics {
        load_percent: None,
        queue_depth: 0,
        available_memory_bytes: None,
        available_vram_bytes: None,
        latency_ema_ms: None,
        throughput_ema: None,
    }
}

impl Default for PlacementMetrics {
    /// Nothing observed.
    fn default() -> (r: Self)
        ensures
            r == no_metrics(),
    {
        PlacementMetrics {
            load_percent: None,
            queue_depth: 0,
            available_memory_bytes: None,
            available_vram_bytes: None,
            latency_ema_ms: None,
            throughput_ema: None,
        }
    }
}

/// One compatible route and what is known about it.
#[derive(Clone, Debug, Eq, PartialEq)]
pub struct PlacementCandidate {
    /// Stable placement identity.
    pub key: PlacementKey,
    /// Backend health.
    pub health: BackendHealth,
    /// Estimated peak resources.
    pub resources: ResourceEstimate,
    /// Latest bounded metrics.
    pub metrics: PlacementMetrics,
    /// Whether the model is already resident at the compute destination.
    pub model_resident: bool,
    /// Chosen artifact source, independent from compute placement.
    pub artifact_source: Option<ArtifactLocation>,
    /// Estimated model activation time.
    pub load_time_ms: u64,
    /// Estimated artifact transfer cost.
    pub transfer_cost_units: u64,
    /// Estimated inference cost.
    pub inference_cost_units: u64,
    /// Remote round-trip latency, if applicable.
    pub rtt_ms: Option<u64>,
    /// Remote available bandwidth in bytes per second, if known.
    pub bandwidth_bytes_per_second: Option<u64>,
    /// Whether peer authentication, trust and request policy permit the target.
    pub trusted: bool,
    /// Relative cost of failing over after this route starts.
    pub failover_cost_units: u64,
}

/// Request-level facts that placement depends on.
#[derive(Clone, Copy, Debug, Eq, PartialEq)]
pub struct PlacementContext {
    /// Request priority.
    pub priority: AiPriority,
    /// Requested latency-versus-throughput profile.
    pub latency_class: AiLatencyClass,
    /// Resource profile.
    pub resource_mode: AiResourceMode,
    /// Remaining deadline from the injected clock.
    pub deadline_remaining: Option<Duration>,
    /// Whether policy permits remote compute.
    pub allow_remote: bool,
    /// Whether equal-cost routes should preserve local execution.
    pub prefer_local: bool,
    /// Maximum admitted remote RTT.
    pub max_remote_latency: Duration,
    /// Whether the resource governor currently reports host pressure.
    pub pressure_limited: bool,
}

/// Integer weights of the cost model.
#[derive(Clone, Copy, Debug, Eq, PartialEq, Structural)]
pub struct SchedulerWeights {
    /// Device load penalty.
    pub load: u64,
    /// Queue-depth penalty.
    pub queue: u64,
    /// Recent latency penalty.
    pub latency: u64,
    /// Cold activation penalty.
    pub cold_load: u64,
    /// Artifact transfer penalty.
    pub transfer: u64,
    /// Inference cost penalty.
    pub inference: u64,
    /// Remote RTT penalty.
    pub remote_latency: u64,
    /// Additional remote penalty when request policy prefers local execution.
    pub local_preference: u64,
    /// Failover penalty.
    pub failover: u64,
    /// Model-residency reward.
    pub residency_reward: u64,
    /// Throughput reward.
    pub throughput_reward: u64,
    /// Degraded-health penalty.
    pub degraded: u64,
}

/// The default weights.
pub open spec fn default_weights() -> SchedulerWeights {
    SchedulerWeights {
        load: 4,
        queue: 25,
        latency: 2,
        cold_load: 3,
        transfer: 2,
        inference: 5,
        remote_latency: 3,
        local_preference: 500,
        failover: 2,
        residency_reward: 1_000,
        throughput_reward: 1,
        degraded: 2_000,
    }
}

impl Default for SchedulerWeights {
    /// Weights tuned so that residency and health dominate small load differences.
    fn default() -> (r: Self)
        ensures
            r == default_weights(),
    {
        SchedulerWeights {
            load: 4,
            queue: 25,
            latency: 2,
            cold_load: 3,
            transfer: 2,
            inference: 5,
            remote_latency: 3,
            local_preference: 500,
            failover: 2,
            residency_reward: 1_000,
            throughput_reward: 1,
            degraded: 2_000,
        }
    }
}

/// Why a route was excluded.
#[derive(Clone, Copy, Debug, Eq, PartialEq, Structural)]
pub enum PlacementRejectionReason {
    /// Backend or device is unavailable.
    Unavailable,
    /// Remote trust or request policy denied the target.
    Policy,
    /// Known RAM capacity is insufficient.
    Memory,
    /// Known VRAM capacity is insufficient.
    Vram,
    /// Expected work cannot meet the request deadline.
    Deadline,
    /// Conservative mode rejected a heavily loaded target under pressure.
    Pressure,
}

/// An excluded route.
#[derive(Clone, Debug, Eq, PartialEq)]
pub struct PlacementRejection {
    /// Excluded route.
    pub key: PlacementKey,
    /// Stable exclusion reason.
    pub reason: PlacementRejectionReason,
}

/// An admitted route and its cost.
#[derive(Clone, Debug, Eq, PartialEq)]
pub struct ScoredPlacement {
    /// Admitted route.
    pub key: PlacementKey,
    /// Lower-is-better saturating integer score.
    pub score: u64,
    /// Artifact source selected separately from compute.
    pub artifact_source: Option<ArtifactLocation>,
}

/// Ranked and excluded routes.
#[derive(Clone, Debug, Eq, PartialEq)]
pub struct PlacementPlan {
    /// Admitted routes in deterministic score and identity order.
    pub ordered: Vec<ScoredPlacement>,
    /// Explicitly excluded routes.
    pub rejected: Vec<PlacementRejection>,
}

/// Abstract content of a [`ScoredPlacement`].
pub struct ScoredModel {
    pub key: KeyModel,
    pub score: u64,
    pub artifact_source: Option<LocationModel>,
}

/// Abstract content of a [`PlacementRejection`].
pub struct RejectionModel {
    pub key: KeyModel,
    pub reason: PlacementRejectionReason,
}

impl View for ScoredPlacement {
    type V = ScoredModel;

    open spec fn view(&self) -> ScoredModel {
        ScoredModel { key: self.key@, score: self.score, artifact_source: location_view(self.artifact_source) }
    }
}

impl View for PlacementRejection {
    type V = RejectionModel;

    open spec fn view(&self) -> RejectionModel {
        RejectionModel { key: self.key@, reason: self.reason }
    }
}

/// The views of a list of admitted routes.
pub open spec fn scored_view(v: Seq<ScoredPlacement>) -> Seq<ScoredModel> {
    v.map_values(|x: ScoredPlacement| x@)
}

/// The views of a list of excluded routes.
pub open spec fn rejections_view(v: Seq<PlacementRejection>) -> Seq<RejectionModel> {
    v.map_values(|x: PlacementRejection| x@)
}

/// Route ranking, implemented by planners and used by the AI runtime.
pub trait PlacementPlanner: Send + Sync {
    /// Ranks compatible routes without performing I/O.
    fn plan(&self, context: PlacementContext, candidates: &[PlacementCandidate]) -> PlacementPlan;
}

} // verus!
