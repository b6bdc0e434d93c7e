use crate::ai::ids::{AiError, BackendId, CapabilityId, DeviceId, LimitKind, ModelId};
use crate::ai::kinds::{
    copy_location, location_view, AiLatencyClass, AiPriority, AiResourceMode, ArtifactLocation, BackendHealth,
    DeviceKind, LocationModel, ResourceEstimate,
};
use crate::ai::placement::{
    local_target, scored_view, ComputeTarget, KeyModel, PlacementCandidate, PlacementContext, PlacementKey,
    PlacementMetrics, PlacementPlan, ScoredModel, ScoredPlacement, TargetModel,
};
use crate::ai::score::sadd;
use crate::ai::swarm::{peer_class_ok, SwarmRoute};
use crate::durations::{duration_nanos, nanos, saturating_sub};
use core::time::Duration;
use vstd::prelude::*;

verus! {

/// Abstract content of a [`PlacementCandidate`].
pub struct RouteCandidateModel {
    pub key: KeyModel,
    pub health: BackendHealth,
    pub resources: ResourceEstimate,
    pub metrics: PlacementMetrics,
    pub model_resident: bool,
    pub artifact_source: Option<LocationModel>,
    pub load_time_ms: u64,
    pub transfer_cost_units: u64,
    pub inference_cost_units: u64,
    pub rtt_ms: Option<u64>,
    pub bandwidth_bytes_per_second: Option<u64>,
    pub trusted: bool,
    pub failover_cost_units: u64,
}

/// The abstract content of a candidate.
pub open spec fn candidate_view(c: PlacementCandidate) -> RouteCandidateModel {
    RouteCandidateModel {
        key: c.key@,
        health: c.health,
        resources: c.resources,
        metrics: c.metrics,
        model_resident: c.model_resident,
        artifact_source: location_view(c.artifact_source),
        load_time_ms: c.load_time_ms,
        transfer_cost_units: c.transfer_cost_units,
        inference_cost_units: c.inference_cost_units,
        rtt_ms: c.rtt_ms,
        bandwidth_bytes_per_second: c.bandwidth_bytes_per_second,
        trusted: c.trusted,
        failover_cost_units: c.failover_cost_units,
    }
}

/// The abstract contents of a list of candidates.
pub open spec fn candidates_view(v: Seq<PlacementCandidate>) -> Seq<RouteCandidateModel> {
    v.map_values(|c: PlacementCandidate| candidate_view(c))
}

/// Nanoseconds of the longest `Duration`, where adding to a duration saturates.
pub const MAX_DURATION_NANOS: u128 = 18_446_744_073_709_551_615_999_999_999;

/// How long a remote route's lease must outlast: the time already spent plus the route's
/// round trip and load time, saturating as `Duration` addition does.
pub open spec fn lease_cutoff(elapsed: Duration, route: SwarmRoute) -> u128 {
    let total = duration_nanos(elapsed) + sadd(route.rtt_ms, route.load_time_ms) * 1_000_000;
    if total > MAX_DURATION_NANOS { MAX_DURATION_NANOS } else { total as u128 }
}

/// The route's claims hold: a well-formed peer class, a live lease, a round trip, and a model
/// that supports this backend on this device kind.
pub open spec fn route_valid(route: SwarmRoute, supported: bool) -> bool {
    peer_class_ok(route.peer_class@) && duration_nanos(route.lease_remaining) != 0 && route.rtt_ms != 0 && supported
}

/// The route may serve the request: same tenant, an artifact source the request permits, the
/// pinned backend and device if any, and a lease longer than its cutoff.
pub open spec fn route_usable(
    route: SwarmRoute,
    tenant: Seq<char>,
    artifact_allowed: bool,
    backend_pin: Option<Seq<char>>,
    device_pin: Option<Seq<char>>,
    elapsed: Duration,
) -> bool {
    &&& route.tenant@ == tenant
    &&& artifact_allowed
    &&& (backend_pin matches Some(b) ==> b == route.backend@)
    &&& (device_pin matches Some(d) ==> d == route.device@)
    &&& duration_nanos(route.lease_remaining) > lease_cutoff(elapsed, route)
}

/// The placement candidate of a remote route for `model`.
pub open spec fn remote_candidate(model: Seq<char>, route: SwarmRoute) -> RouteCandidateModel {
    RouteCandidateModel {
        key: KeyModel {
            model: model,
            backend: route.backend@,
            target: TargetModel::RemotePeer { peer: route.peer@, device: route.device@, kind: route.kind },
        },
        health: route.health,
        resources: route.resources,
        metrics: route.metrics,
        model_resident: route.model_resident,
        artifact_source: location_view(route.artifact_source),
        load_time_ms: route.load_time_ms,
        transfer_cost_units: route.transfer_cost_units,
        inference_cost_units: route.inference_cost_units,
        rtt_ms: Some(route.rtt_ms),
        bandwidth_bytes_per_second: route.bandwidth_bytes_per_second,
        trusted: true,
        failover_cost_units: route.failover_cost_units,
    }
}

/// Candidates from the first `n` routes, stopping at the first invalid one.
pub open spec fn swarm_scan(
    model: Seq<char>,
    routes: Seq<SwarmRoute>,
    supported: Seq<bool>,
    artifact_allowed: Seq<bool>,
    tenant: Seq<char>,
    backend_pin: Option<Seq<char>>,
    device_pin: Option<Seq<char>>,
    elapsed: Duration,
    n: int,
) -> Result<Seq<RouteCandidateModel>, AiError>
    decreases n,
{
    if n <= 0 {
        Ok(seq![])
    } else {
        match swarm_scan(model, routes, supported, artifact_allowed, tenant, backend_pin, device_pin, elapsed, n - 1) {
            Err(e) => Err(e),
            Ok(prev) => if !route_valid(routes[n - 1], supported[n - 1]) {
                Err(AiError::InvalidInput("AI swarm route"))
            } else if route_usable(routes[n - 1], tenant, artifact_allowed[n - 1], backend_pin, device_pin, elapsed) {
                Ok(prev.push(remote_candidate(model, routes[n - 1])))
            } else {
                Ok(prev)
            },
        }
    }
}

proof fn lemma_scan_error_persists(
    model: Seq<char>,
    routes: Seq<SwarmRoute>,
    supported: Seq<bool>,
    artifact_allowed: Seq<bool>,
    tenant: Seq<char>,
    backend_pin: Option<Seq<char>>,
    device_pin: Option<Seq<char>>,
    elapsed: Duration,
    k: int,
    m: int,
)
    requires
        0 <= k <= m,
        swarm_scan(model, routes, supported, artifact_allowed, tenant, backend_pin, device_pin, elapsed, k) is Err,
    ensures
        swarm_scan(model, routes, supported, artifact_allowed, tenant, backend_pin, device_pin, elapsed, m)
            == swarm_scan(model, routes, supported, artifact_allowed, tenant, backend_pin, device_pin, elapsed, k),
    decreases m - k,
{
    if m > k {
        lemma_scan_error_persists(model, routes, supported, artifact_allowed, tenant, backend_pin, device_pin, elapsed, k, m - 1);
    }
}

/// The view of an optional identifier.
pub open spec fn pin_view<T: View<V = Seq<char>>>(p: Option<&T>) -> Option<Seq<char>> {
    match p {
        Some(x) => Some(x@),
        None => None,
    }
}

/// Remote candidates for one model from the routes its swarm bridge returned.
pub open spec fn swarm_candidates_spec(
    local_only: bool,
    allow_remote_compute: bool,
    bridge_present: bool,
    max_peers: usize,
    tenant: Option<Seq<char>>,
    backend_pin: Option<Seq<char>>,
    device_pin: Option<Seq<char>>,
    model: Seq<char>,
    routes: Seq<SwarmRoute>,
    supported: Seq<bool>,
    artifact_allowed: Seq<bool>,
    elapsed: Duration,
) -> Result<Seq<RouteCandidateModel>, AiError> {
    if local_only || !allow_remote_compute {
        Ok(seq![])
    } else if !bridge_present {
        Err(AiError::SwarmUnavailable)
    } else if tenant is None {
        Err(AiError::Unauthorized)
    } else if routes.len() > max_peers {
        Err(AiError::LimitExceeded { kind: LimitKind::Peers, actual: routes.len() as u64, limit: max_peers as u64 })
    } else {
        swarm_scan(
            model,
            routes,
            supported,
            artifact_allowed,
            tenant->Some_0,
            backend_pin,
            device_pin,
            elapsed,
            routes.len() as int,
        )
    }
}

/// Remote placement candidates for one model from the routes that its swarm bridge returned.
/// `supported[i]` is whether the model supports route `i`'s backend on its device kind, and
/// `artifact_allowed[i]` whether the request permits route `i`'s artifact source.
pub fn swarm_candidates(
    local_only: bool,
    allow_remote_compute: bool,
    bridge_present: bool,
    max_peers: usize,
    tenant: Option<&CapabilityId>,
    backend_pin: Option<&BackendId>,
    device_pin: Option<&DeviceId>,
    model: &ModelId,
    routes: Vec<SwarmRoute>,
    supported: Vec<bool>,
    artifact_allowed: Vec<bool>,
    elapsed: Duration,
) -> (r: Result<Vec<PlacementCandidate>, AiError>)
    requires
        supported.len() == routes.len(),
        artifact_allowed.len() == routes.len(),
    ensures
        match r {
            Ok(v) => swarm_candidates_spec(
                local_only,
                allow_remote_compute,
                bridge_present,
                max_peers,
                pin_view(tenant),
                pin_view(backend_pin),
                pin_view(device_pin),
                model@,
                routes@,
                supported@,
                artifact_allowed@,
                elapsed,
            ) == Ok::<Seq<RouteCandidateModel>, AiError>(candidates_view(v@)),
            Err(e) => swarm_candidates_spec(
                local_only,
                allow_remote_compute,
                bridge_present,
                max_peers,
                pin_view(tenant),
                pin_view(backend_pin),
                pin_view(device_pin),
                model@,
                routes@,
                supported@,
                artifact_allowed@,
                elapsed,
            ) == Err::<Seq<RouteCandidateModel>, AiError>(e),
        },
{
    let mut out: Vec<PlacementCandidate> = Vec::new();
    if local_only || !allow_remote_compute {
        assert(candidates_view(out@) =~= seq![]);
        return Ok(out);
    }
    if !bridge_present {
        return Err(AiError::SwarmUnavailable);
    }
    let t = match tenant {
        Some(t) => t,
        None => {
            return Err(AiError::Unauthorized);
        },
    };
    if routes.len() > max_peers {
        return Err(AiError::LimitExceeded { kind: LimitKind::Peers, actual: routes.len() as u64, limit: max_peers as u64 });
    }
    let ghost bp = pin_view(backend_pin);
    let ghost dp = pin_view(device_pin);
    let elapsed_nanos = nanos(elapsed);
    let mut i: usize = 0;
    assert(candidates_view(out@) =~= seq![]);
    while i < routes.len()
        invariant
            i <= routes.len(),
            !local_only && allow_remote_compute && bridge_present,
            routes.len() <= max_peers,
            pin_view(tenant) == Some(t@),
            supported.len() == routes.len(),
            artifact_allowed.len() == routes.len(),
            elapsed_nanos == duration_nanos(elapsed),
            bp == pin_view(backend_pin),
            dp == pin_view(device_pin),
            swarm_scan(model@, routes@, supported@, artifact_allowed@, t@, bp, dp, elapsed, i as int)
                == Ok::<Seq<RouteCandidateModel>, AiError>(candidates_view(out@)),
        decreases routes.len() - i,
    {
        let route = &routes[i];
        if route.validate(supported[i]).is_err() {
            proof {
                assert(!route_valid(routes@[i as int], supported@[i as int]));
                assert(swarm_scan(model@, routes@, supported@, artifact_allowed@, t@, bp, dp, elapsed, i + 1)
                    == Err::<Seq<RouteCandidateModel>, AiError>(AiError::InvalidInput("AI swarm route")));
                lemma_scan_error_persists(
                    model@,
                    routes@,
                    supported@,
                    artifact_allowed@,
                    t@,
                    bp,
                    dp,
                    elapsed,
                    i + 1,
                    routes.len() as int,
                );
            }
            let e = AiError::InvalidInput("AI swarm route");
            return Err(e);
        }
        let backend_ok = match backend_pin {
            Some(b) => b.same(&route.backend),
            None => true,
        };
        let device_ok = match device_pin {
            Some(d) => d.same(&route.device),
            None => true,
        };
        let add: u128 = route.rtt_ms.saturating_add(route.load_time_ms) as u128 * 1_000_000;
        let cutoff: u128 = if elapsed_nanos > MAX_DURATION_NANOS - add {
            MAX_DURATION_NANOS
        } else {
            elapsed_nanos + add
        };
        let lease_ok = nanos(route.lease_remaining) > cutoff;
        if route.tenant.same(t) && artifact_allowed[i] && backend_ok && device_ok && lease_ok {
            let c = PlacementCandidate {
                key: PlacementKey {
                    model: model.duplicate(),
                    backend: route.backend.duplicate(),
                    target: ComputeTarget::RemotePeer {
                        peer: route.peer.duplicate(),
                        device: route.device.duplicate(),
                        kind: route.kind,
                    },
                },
                health: route.health,
                resources: route.resources,
                metrics: route.metrics,
                model_resident: route.model_resident,
                artifact_source: copy_location(&route.artifact_source),
                load_time_ms: route.load_time_ms,
                transfer_cost_units: route.transfer_cost_units,
                inference_cost_units: route.inference_cost_units,
                rtt_ms: Some(route.rtt_ms),
                bandwidth_bytes_per_second: route.bandwidth_bytes_per_second,
                trusted: true,
                failover_cost_units: route.failover_cost_units,
            };
            let ghost before = out@;
            out.push(c);
            proof {
                assert(candidate_view(c) == remote_candidate(model@, routes@[i as int]));
                assert(candidates_view(out@) =~= candidates_view(before).push(candidate_view(c)));
            }
        }
        i = i + 1;
    }
    Ok(out)
}

proof fn lemma_scan_from_usable_routes(
    model: Seq<char>,
    routes: Seq<SwarmRoute>,
    supported: Seq<bool>,
    artifact_allowed: Seq<bool>,
    tenant: Seq<char>,
    backend_pin: Option<Seq<char>>,
    device_pin: Option<Seq<char>>,
    elapsed: Duration,
    n: int,
)
    requires
        0 <= n <= routes.len(),
        n <= supported.len(),
        n <= artifact_allowed.len(),
    ensures
        swarm_scan(model, routes, supported, artifact_allowed, tenant, backend_pin, device_pin, elapsed, n) matches Ok(v)
            ==> v.len() <= n && forall|k: int| 0 <= k < v.len() ==> exists|t: int|
            0 <= t < n && route_valid(routes[t], supported[t]) && route_usable(
                routes[t],
                tenant,
                artifact_allowed[t],
                backend_pin,
                device_pin,
                elapsed,
            ) && #[trigger] v[k] == remote_candidate(model, routes[t]),
    decreases n,
{
    if n > 0 {
        lemma_scan_from_usable_routes(model, routes, supported, artifact_allowed, tenant, backend_pin, device_pin, elapsed, n - 1);
        let prev = swarm_scan(model, routes, supported, artifact_allowed, tenant, backend_pin, device_pin, elapsed, n - 1);
        if let Ok(v) = swarm_scan(model, routes, supported, artifact_allowed, tenant, backend_pin, device_pin, elapsed, n) {
            let p = prev->Ok_0;
            assert forall|k: int| 0 <= k < v.len() implies exists|t: int|
                0 <= t < n && route_valid(routes[t], supported[t]) && route_usable(
                    routes[t],
                    tenant,
                    artifact_allowed[t],
                    backend_pin,
                    device_pin,
                    elapsed,
                ) && #[trigger] v[k] == remote_candidate(model, routes[t]) by {
                if k < p.len() {
                    assert(v[k] == p[k]);
                } else {
                    assert(v[k] == remote_candidate(model, routes[n - 1]));
                }
            }
        }
    }
}

/// What the swarm contributes is bounded and scoped: at most `max_peers` candidates, each the
/// candidate of a valid route of the request's tenant that the request permits and whose lease
/// outlasts its cutoff; and none at all for a local-only request or one that forbids remote
/// compute.
pub proof fn swarm_candidates_are_bounded_and_scoped(
    local_only: bool,
    allow_remote_compute: bool,
    bridge_present: bool,
    max_peers: usize,
    tenant: Option<Seq<char>>,
    backend_pin: Option<Seq<char>>,
    device_pin: Option<Seq<char>>,
    model: Seq<char>,
    routes: Seq<SwarmRoute>,
    supported: Seq<bool>,
    artifact_allowed: Seq<bool>,
    elapsed: Duration,
)
    requires
        supported.len() == routes.len(),
        artifact_allowed.len() == routes.len(),
    ensures
        (local_only || !allow_remote_compute) ==> swarm_candidates_spec(local_only, allow_remote_compute, bridge_present,
            max_peers, tenant, backend_pin, device_pin, model, routes, supported, artifact_allowed, elapsed)
            == Ok::<Seq<RouteCandidateModel>, AiError>(seq![]),
        swarm_candidates_spec(local_only, allow_remote_compute, bridge_present, max_peers, tenant, backend_pin, device_pin,
            model, routes, supported, artifact_allowed, elapsed) matches Ok(v) ==> v.len() <= max_peers && forall|k: int|
            0 <= k < v.len() ==> exists|t: int|
                0 <= t < routes.len() && route_valid(routes[t], supported[t]) && route_usable(
                    routes[t],
                    tenant->Some_0,
                    artifact_allowed[t],
                    backend_pin,
                    device_pin,
                    elapsed,
                ) && #[trigger] v[k] == remote_candidate(model, routes[t]),
{
    if !(local_only || !allow_remote_compute) && bridge_present && tenant is Some && routes.len() <= max_peers {
        lemma_scan_from_usable_routes(
            model,
            routes,
            supported,
            artifact_allowed,
            tenant->Some_0,
            backend_pin,
            device_pin,
            elapsed,
            routes.len() as int,
        );
    }
}

/// Some route of `s` has key `k`.
pub open spec fn has_key(s: Seq<ScoredModel>, k: KeyModel) -> bool {
    exists|j: int| 0 <= j < s.len() && (#[trigger] s[j]).key == k
}

/// The admitted routes to try, in plan order: those within the cost cap, each key once, at its
/// first place within the cap.
pub open spec fn within_cap(s: Seq<ScoredModel>, cap: Option<u64>) -> Seq<ScoredModel>
    decreases s.len(),
{
    if s.len() == 0 {
        seq![]
    } else if cap matches Some(m) && s.last().score > m {
        within_cap(s.drop_last(), cap)
    } else if has_key(within_cap(s.drop_last(), cap), s.last().key) {
        within_cap(s.drop_last(), cap)
    } else {
        within_cap(s.drop_last(), cap).push(s.last())
    }
}

/// Some admitted route is over the cost cap.
pub open spec fn over_cap(s: Seq<ScoredModel>, cap: Option<u64>) -> bool {
    exists|i: int| 0 <= i < s.len() && (cap matches Some(m) && (#[trigger] s[i]).score > m)
}

fn target_same(a: &ComputeTarget, b: &ComputeTarget) -> (r: bool)
    ensures
        r == (a@ == b@),
{
    match (a, b) {
        (ComputeTarget::LocalCpu(x), ComputeTarget::LocalCpu(y)) => x.same(y),
        (ComputeTarget::LocalGpu(x), ComputeTarget::LocalGpu(y)) => x.same(y),
        (ComputeTarget::LocalNpu(x), ComputeTarget::LocalNpu(y)) => x.same(y),
        (
            ComputeTarget::RemotePeer { peer: p1, device: d1, kind: k1 },
            ComputeTarget::RemotePeer { peer: p2, device: d2, kind: k2 },
        ) => p1.same(p2) && d1.same(d2) && *k1 == *k2,
        _ => false,
    }
}

fn key_same(a: &PlacementKey, b: &PlacementKey) -> (r: bool)
    ensures
        r == (a@ == b@),
{
    a.model.same(&b.model) && a.backend.same(&b.backend) && target_same(&a.target, &b.target)
}

/// The routes to try, in order, and whether capacity limited the choice: a route over the cost
/// cap, a capacity refusal while gathering candidates, or any rejected candidate. A key that the
/// plan repeats is tried once, at its first place within the cap.
pub fn planned_routes(plan: PlacementPlan, max_cost_units: Option<u64>, capacity_limited: bool) -> (r: (
    Vec<ScoredPlacement>,
    bool,
))
    ensures
        scored_view(r.0@) == within_cap(scored_view(plan.ordered@), max_cost_units),
        r.1 == (capacity_limited || over_cap(scored_view(plan.ordered@), max_cost_units) || plan.rejected@.len() > 0),
{
    let ghost s = scored_view(plan.ordered@);
    let mut out: Vec<ScoredPlacement> = Vec::new();
    let mut limited = capacity_limited;
    let mut i: usize = 0;
    assert(s.take(0) =~= seq![]);
    assert(scored_view(out@) =~= seq![]);
    while i < plan.ordered.len()
        invariant
            i <= plan.ordered.len(),
            s == scored_view(plan.ordered@),
            scored_view(out@) == within_cap(s.take(i as int), max_cost_units),
            limited == (capacity_limited || over_cap(s.take(i as int), max_cost_units)),
        decreases plan.ordered.len() - i,
    {
        let p = &plan.ordered[i];
        assert(s[i as int] == p@);
        assert(s.take(i + 1).drop_last() =~= s.take(i as int));
        assert(s.take(i + 1).last() == s[i as int]);
        let over = match max_cost_units {
            Some(m) => p.score > m,
            None => false,
        };
        proof {
            let t = s.take(i + 1);
            if over {
                assert(t[i as int] == s[i as int]);
            }
            assert(over_cap(t, max_cost_units) == (over_cap(s.take(i as int), max_cost_units) || over)) by {
                if over_cap(t, max_cost_units) {
                    let k = choose|k: int| 0 <= k < t.len() && (max_cost_units matches Some(m) && (#[trigger] t[k]).score > m);
                    if k < i {
                        assert(s.take(i as int)[k] == t[k]);
                    }
                }
                if over_cap(s.take(i as int), max_cost_units) {
                    let k = choose|k: int| 0 <= k < i && (max_cost_units matches Some(m) && (#[trigger] s.take(i as int)[k]).score > m);
                    assert(t[k] == s.take(i as int)[k]);
                }
            }
        }
        if over {
            limited = true;
        } else {
            let mut seen = false;
            let mut j: usize = 0;
            while j < out.len()
                invariant
                    j <= out.len(),
                    seen <==> exists|q: int| 0 <= q < j && (#[trigger] scored_view(out@)[q]).key == p@.key,
                decreases out.len() - j,
            {
                if key_same(&out[j].key, &p.key) {
                    assert(scored_view(out@)[j as int].key == p@.key);
                    seen = true;
                }
                j = j + 1;
            }
            if !seen {
                let q = ScoredPlacement { key: p.key.duplicate(), score: p.score, artifact_source: copy_location(&p.artifact_source) };
                let ghost before = out@;
                out.push(q);
                assert(scored_view(out@) =~= scored_view(before).push(q@));
            }
        }
        i = i + 1;
    }
    assert(s.take(plan.ordered.len() as int) =~= s);
    (out, limited || plan.rejected.len() > 0)
}

/// The remaining deadline: the deadline minus the time spent, or zero once it has passed.
pub open spec fn remaining_nanos(deadline: Duration, elapsed: Duration) -> u128 {
    if duration_nanos(deadline) >= duration_nanos(elapsed) {
        (duration_nanos(deadline) - duration_nanos(elapsed)) as u128
    } else {
        0
    }
}

/// The placement context of a request: its priority, latency class and resource mode, the
/// remaining deadline, whether remote compute is allowed (not local-only, and permitted), the
/// local preference and remote latency bound, and whether the host reports pressure.
pub fn placement_context(
    priority: AiPriority,
    latency_class: AiLatencyClass,
    resource_mode: AiResourceMode,
    deadline: Option<Duration>,
    elapsed: Duration,
    local_only: bool,
    allow_remote_compute: bool,
    prefer_local: bool,
    max_remote_latency: Duration,
    pressure_limited: bool,
) -> (r: PlacementContext)
    ensures
        r.priority == priority,
        r.latency_class == latency_class,
        r.resource_mode == resource_mode,
        r.deadline_remaining is Some <==> deadline is Some,
        r.deadline_remaining matches Some(d) ==> duration_nanos(d) == remaining_nanos(deadline->Some_0, elapsed),
        r.allow_remote == (!local_only && allow_remote_compute),
        r.prefer_local == prefer_local,
        r.max_remote_latency == max_remote_latency,
        r.pressure_limited == pressure_limited,
{
    let deadline_remaining = match deadline {
        Some(d) => Some(saturating_sub(d, elapsed)),
        None => None,
    };
    PlacementContext {
        priority,
        latency_class,
        resource_mode,
        deadline_remaining,
        allow_remote: !local_only && allow_remote_compute,
        prefer_local,
        max_remote_latency,
        pressure_limited,
    }
}

} // verus!
