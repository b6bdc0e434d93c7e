
use crate::ai::ordering::{lemma_sort_by, sorted_by, strict_order};
use crate::ai::placement::{
    key_lt, lemma_text_lt_irreflexive, lemma_text_lt_transitive, target_lt, text_lt, KeyModel, PlacementCandidate,
    PlacementContext, PlacementMetrics, RejectionModel, ScoredModel, SchedulerWeights, TargetModel,
};
use crate::ai::scheduler::{by_cost, by_key, effective_metrics, plan_of, triage, SchedulerModel};
use crate::ai::score::{cost, ema_of, rejection, latency_term, penalty, priority_divisor, queue_term, reward, sadd, smul};
use vstd::prelude::*;

verus! {

proof fn lemma_target_lt_strict(a: TargetModel, b: TargetModel, c: TargetModel)
    ensures
        !target_lt(a, a),
        target_lt(a, b) && target_lt(b, c) ==> target_lt(a, c),
{
    match a {
        TargetModel::LocalCpu(x) => lemma_text_lt_irreflexive(x),
        TargetModel::LocalGpu(x) => lemma_text_lt_irreflexive(x),
        TargetModel::LocalNpu(x) => lemma_text_lt_irreflexive(x),
        TargetModel::RemotePeer { peer, device, .. } => {
            lemma_text_lt_irreflexive(peer);
            lemma_text_lt_irreflexive(device);
        },
    }
    if target_lt(a, b) && target_lt(b, c) {
        match (a, b, c) {
            (TargetModel::LocalCpu(x), TargetModel::LocalCpu(y), TargetModel::LocalCpu(z)) => {
                lemma_text_lt_transitive(x, y, z);
            },
            (TargetModel::LocalGpu(x), TargetModel::LocalGpu(y), TargetModel::LocalGpu(z)) => {
                lemma_text_lt_transitive(x, y, z);
            },
            (TargetModel::LocalNpu(x), TargetModel::LocalNpu(y), TargetModel::LocalNpu(z)) => {
                lemma_text_lt_transitive(x, y, z);
            },
            (
                TargetModel::RemotePeer { peer: p1, device: d1, .. },
                TargetModel::RemotePeer { peer: p2, device: d2, .. },
                TargetModel::RemotePeer { peer: p3, device: d3, .. },
            ) => {
                if text_lt(p1, p2) && text_lt(p2, p3) {
                    lemma_text_lt_transitive(p1, p2, p3);
                }
                if text_lt(d1, d2) && text_lt(d2, d3) {
                    lemma_text_lt_transitive(d1, d2, d3);
                }
            },
            _ => {},
        }
    }
}

proof fn lemma_key_lt_strict(a: KeyModel, b: KeyModel, c: KeyModel)
    ensures
        !key_lt(a, a),
        key_lt(a, b) && key_lt(b, c) ==> key_lt(a, c),
{
    lemma_text_lt_irreflexive(a.model);
    lemma_text_lt_irreflexive(a.backend);
    lemma_target_lt_strict(a.target, b.target, c.target);
    if text_lt(a.model, b.model) && text_lt(b.model, c.model) {
        lemma_text_lt_transitive(a.model, b.model, c.model);
    }
    if text_lt(a.backend, b.backend) && text_lt(b.backend, c.backend) {
        lemma_text_lt_transitive(a.backend, b.backend, c.backend);
    }
}

proof fn lemma_orders_strict()
    ensures
        strict_order(by_cost()),
        strict_order(by_key()),
{
    assert forall|a: ScoredModel| !#[trigger] (by_cost())(a, a) by {
        lemma_key_lt_strict(a.key, a.key, a.key);
    }
    assert forall|a: ScoredModel, b: ScoredModel, c: ScoredModel|
        #[trigger] (by_cost())(a, b) && #[trigger] (by_cost())(b, c) implies (by_cost())(a, c) by {
        lemma_key_lt_strict(a.key, b.key, c.key);
    }
    assert forall|a: RejectionModel| !#[trigger] (by_key())(a, a) by {
        lemma_key_lt_strict(a.key, a.key, a.key);
    }
    assert forall|a: RejectionModel, b: RejectionModel, c: RejectionModel|
        #[trigger] (by_key())(a, b) && #[trigger] (by_key())(b, c) implies (by_key())(a, c) by {
        lemma_key_lt_strict(a.key, b.key, c.key);
    }
}

/// A plan lists its admitted routes by non-decreasing cost, equal costs in key order, and its
/// excluded routes in key order; each list holds exactly the routes that triage put there.
pub proof fn plan_is_ordered(m: SchedulerModel, context: PlacementContext, cands: Seq<PlacementCandidate>)
    ensures
        sorted_by(plan_of(m, context, cands).0, by_cost()),
        sorted_by(plan_of(m, context, cands).1, by_key()),
        plan_of(m, context, cands).0.to_multiset() == triage(m, context, cands).0.to_multiset(),
        plan_of(m, context, cands).1.to_multiset() == triage(m, context, cands).1.to_multiset(),
{
    lemma_orders_strict();
    lemma_sort_by(triage(m, context, cands).0, by_cost());
    lemma_sort_by(triage(m, context, cands).1, by_key());
}

/// Every candidate is either admitted or excluded, exactly once.
pub proof fn plan_accounts_for_every_candidate(m: SchedulerModel, context: PlacementContext, cands: Seq<PlacementCandidate>)
    ensures
        triage(m, context, cands).0.len() + triage(m, context, cands).1.len() == cands.len(),
    decreases cands.len(),
{
    if cands.len() > 0 {
        plan_accounts_for_every_candidate(m, context, cands.drop_last());
    }
}

proof fn lemma_triage_places(m: SchedulerModel, context: PlacementContext, cands: Seq<PlacementCandidate>, i: int)
    requires
        0 <= i < cands.len(),
    ensures
        ({
            let c = cands[i];
            let metrics = effective_metrics(m, c);
            match rejection(context, c, metrics) {
                Some(reason) => triage(m, context, cands).1.contains(RejectionModel { key: c.key@, reason }),
                None => triage(m, context, cands).0.contains(
                    ScoredModel {
                        key: c.key@,
                        score: cost(m.weights, context, c, metrics),
                        artifact_source: crate::ai::kinds::location_view(c.artifact_source),
                    },
                ),
            }
        }),
    decreases cands.len(),
{
    let prev = cands.drop_last();
    if i < cands.len() - 1 {
        lemma_triage_places(m, context, prev, i);
        assert(prev[i] == cands[i]);
        let (o, r) = triage(m, context, prev);
        match rejection(context, cands[i], effective_metrics(m, cands[i])) {
            Some(reason) => {
                let x = RejectionModel { key: cands[i].key@, reason };
                let k = choose|k: int| 0 <= k < r.len() && r[k] == x;
                let t = triage(m, context, cands).1;
                assert(t[k] == x);
            },
            None => {
                let x = ScoredModel {
                    key: cands[i].key@,
                    score: cost(m.weights, context, cands[i], effective_metrics(m, cands[i])),
                    artifact_source: crate::ai::kinds::location_view(cands[i].artifact_source),
                };
                let k = choose|k: int| 0 <= k < o.len() && o[k] == x;
                let t = triage(m, context, cands).0;
                assert(t[k] == x);
            },
        }
    } else {
        let t = triage(m, context, cands);
        match rejection(context, cands[i], effective_metrics(m, cands[i])) {
            Some(reason) => assert(t.1[t.1.len() - 1] == RejectionModel { key: cands[i].key@, reason }),
            None => assert(t.0[t.0.len() - 1] == ScoredModel {
                key: cands[i].key@,
                score: cost(m.weights, context, cands[i], effective_metrics(m, cands[i])),
                artifact_source: crate::ai::kinds::location_view(cands[i].artifact_source),
            }),
        }
    }
}

/// The whole plan: admitted routes sorted by cost then key, excluded routes sorted by key, as
/// many of them together as there were candidates, and each candidate among the excluded with
/// its reason where the scheduler rejects it under its effective metrics, and otherwise among
/// the admitted with its cost and artifact source.
pub proof fn plan_places_every_candidate(m: SchedulerModel, context: PlacementContext, cands: Seq<PlacementCandidate>)
    ensures
        sorted_by(plan_of(m, context, cands).0, by_cost()),
        sorted_by(plan_of(m, context, cands).1, by_key()),
        plan_of(m, context, cands).0.len() + plan_of(m, context, cands).1.len() == cands.len(),
        forall|i: int|
            0 <= i < cands.len() ==> match rejection(context, #[trigger] cands[i], effective_metrics(m, cands[i])) {
                Some(reason) => plan_of(m, context, cands).1.contains(RejectionModel { key: cands[i].key@, reason }),
                None => plan_of(m, context, cands).0.contains(
                    ScoredModel {
                        key: cands[i].key@,
                        score: cost(m.weights, context, cands[i], effective_metrics(m, cands[i])),
                        artifact_source: crate::ai::kinds::location_view(cands[i].artifact_source),
                    },
                ),
            },
{
    broadcast use vstd::seq_lib::group_to_multiset_ensures;

    plan_is_ordered(m, context, cands);
    plan_accounts_for_every_candidate(m, context, cands);
    let p = plan_of(m, context, cands);
    let t = triage(m, context, cands);
    assert(p.0.len() == t.0.len()) by {
        assert(p.0.to_multiset().len() == t.0.to_multiset().len());
    }
    assert(p.1.len() == t.1.len()) by {
        assert(p.1.to_multiset().len() == t.1.to_multiset().len());
    }
    assert forall|i: int| 0 <= i < cands.len() implies match rejection(context, #[trigger] cands[i], effective_metrics(m, cands[i])) {
        Some(reason) => p.1.contains(RejectionModel { key: cands[i].key@, reason }),
        None => p.0.contains(
            ScoredModel {
                key: cands[i].key@,
                score: cost(m.weights, context, cands[i], effective_metrics(m, cands[i])),
                artifact_source: crate::ai::kinds::location_view(cands[i].artifact_source),
            },
        ),
    } by {
        lemma_triage_places(m, context, cands, i);
        match rejection(context, cands[i], effective_metrics(m, cands[i])) {
            Some(reason) => {
                let x = RejectionModel { key: cands[i].key@, reason };
                assert(t.1.to_multiset().count(x) > 0);
                assert(p.1.to_multiset().count(x) > 0);
            },
            None => {
                let x = ScoredModel {
                    key: cands[i].key@,
                    score: cost(m.weights, context, cands[i], effective_metrics(m, cands[i])),
                    artifact_source: crate::ai::kinds::location_view(cands[i].artifact_source),
                };
                assert(t.0.to_multiset().count(x) > 0);
                assert(p.0.to_multiset().count(x) > 0);
            },
        }
    }
}

/// An admitted route is usable: a backend that is not unavailable; for a remote target, remote
/// compute allowed, a trusted peer and a known round trip within the latency bound; declared
/// memory and device memory within what is known to be free; expected work within a known
/// deadline; and, under host pressure outside unrestricted mode and below critical priority, a
/// load below 90 percent.
pub proof fn admitted_routes_are_usable(context: PlacementContext, c: PlacementCandidate, m: PlacementMetrics)
    requires
        rejection(context, c, m) is None,
    ensures
        c.health != crate::ai::kinds::BackendHealth::Unavailable,
        c.key@.target is RemotePeer ==> context.allow_remote && c.trusted && c.rtt_ms is Some && c.rtt_ms->Some_0
            <= crate::durations::clamp_millis(crate::durations::duration_millis(context.max_remote_latency)),
        m.available_memory_bytes matches Some(a) ==> c.resources.memory_bytes <= a,
        m.available_vram_bytes matches Some(a) ==> c.resources.vram_bytes <= a,
        context.deadline_remaining matches Some(d) ==> crate::ai::score::expected_ms(c, m)
            <= crate::durations::clamp_millis(crate::durations::duration_millis(d)),
        context.pressure_limited && !(context.resource_mode is Unrestricted) && context.priority
            != crate::ai::kinds::AiPriority::Critical && m.load_percent is Some ==> m.load_percent->Some_0 < 90,
{
}

/// A route short of memory is never admitted: where the known free memory (or device memory)
/// is less than the route declares, the route is rejected, and in a plan it is placed among the
/// excluded routes.
pub proof fn short_routes_are_excluded(m: SchedulerModel, context: PlacementContext, cands: Seq<PlacementCandidate>, i: int)
    requires
        0 <= i < cands.len(),
        (effective_metrics(m, cands[i]).available_memory_bytes matches Some(a) && cands[i].resources.memory_bytes > a)
            || (effective_metrics(m, cands[i]).available_vram_bytes matches Some(a) && cands[i].resources.vram_bytes > a),
    ensures
        rejection(context, cands[i], effective_metrics(m, cands[i])) is Some,
        exists|reason: crate::ai::placement::PlacementRejectionReason|
            plan_of(m, context, cands).1.contains(RejectionModel { key: cands[i].key@, reason }),
{
    let metrics = effective_metrics(m, cands[i]);
    if rejection(context, cands[i], metrics) is None {
        admitted_routes_are_usable(context, cands[i], metrics);
    }
    plan_places_every_candidate(m, context, cands);
    let reason = rejection(context, cands[i], metrics)->Some_0;
    assert(plan_of(m, context, cands).1.contains(RejectionModel { key: cands[i].key@, reason }));
}

/// Raising a request's priority never raises the cost of a route.
pub proof fn higher_priority_never_costs_more(
    w: SchedulerWeights,
    low: PlacementContext,
    high: PlacementContext,
    candidate: PlacementCandidate,
    metrics: PlacementMetrics,
)
    requires
        high == (PlacementContext { priority: high.priority, ..low }),
        priority_divisor(low.priority) <= priority_divisor(high.priority),
    ensures
        cost(w, high, candidate, metrics) <= cost(w, low, candidate, metrics),
{
    let q = smul(metrics.queue_depth as u64, w.queue);
    let pl = priority_divisor(low.priority);
    let ph = priority_divisor(high.priority);
    assert(pl >= 1);
    assert(q / ph <= q / pl) by {
        vstd::arithmetic::div_mod::lemma_div_is_ordered_by_denominator(q as int, pl as int, ph as int);
    }
    assert(queue_term(w, high, metrics) <= queue_term(w, low, metrics));
    assert(latency_term(w, high, metrics) <= latency_term(w, low, metrics)) by {
        let l = smul(
            smul(
                match metrics.latency_ema_ms {
                    Some(v) => v,
                    None => 100,
                },
                w.latency,
            ),
            crate::ai::score::latency_weight(low.latency_class),
        );
        vstd::arithmetic::div_mod::lemma_div_is_ordered_by_denominator(l as int, pl as int, ph as int);
        assert(l / ph <= l / pl);
    }
    assert(penalty(w, high, candidate, metrics) <= penalty(w, low, candidate, metrics));
    assert(reward(w, high, candidate, metrics) == reward(w, low, candidate, metrics));
}

/// Without saturation, a moving average lies between the previous value and the sample.
pub proof fn ema_stays_between(previous: u64, sample: u64, alpha: u16)
    requires
        alpha <= 10_000,
        previous <= u64::MAX / 10_000,
        sample <= u64::MAX / 10_000,
    ensures
        ema_of(Some(previous), Some(sample), alpha) matches Some(v) && (previous <= v <= sample || sample
            <= v <= previous),
{
    let keep = (10_000 - alpha) as u64;
    let a = alpha as u64;
    assert(previous * keep <= u64::MAX) by (nonlinear_arith)
        requires
            previous <= u64::MAX / 10_000,
            keep <= 10_000,
    ;
    assert(sample * a <= u64::MAX) by (nonlinear_arith)
        requires
            sample <= u64::MAX / 10_000,
            a <= 10_000,
    ;
    assert(previous * keep + sample * a <= u64::MAX) by (nonlinear_arith)
        requires
            previous <= u64::MAX / 10_000,
            sample <= u64::MAX / 10_000,
            keep + a == 10_000,
    ;
    let total = previous * keep + sample * a;
    assert(smul(previous, keep) == previous * keep);
    assert(smul(sample, a) == sample * a);
    assert(sadd(smul(previous, keep), smul(sample, a)) == total);
    if previous <= sample {
        assert(previous * 10_000 <= total && total <= sample * 10_000) by (nonlinear_arith)
            requires
                previous <= sample,
                keep + a == 10_000,
                total == previous * keep + sample * a,
                keep >= 0,
                a >= 0,
        ;
        assert(previous <= total / 10_000 <= sample) by (nonlinear_arith)
            requires
                previous * 10_000 <= total,
                total <= sample * 10_000,
        ;
    } else {
        assert(sample * 10_000 <= total && total <= previous * 10_000) by (nonlinear_arith)
            requires
                sample < previous,
                keep + a == 10_000,
                total == previous * keep + sample * a,
                keep >= 0,
                a >= 0,
        ;
        assert(sample <= total / 10_000 <= previous) by (nonlinear_arith)
            requires
                sample * 10_000 <= total,
                total <= previous * 10_000,
        ;
    }
}

} // verus!
