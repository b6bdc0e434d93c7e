use crate::ai::ids::AiError;
use crate::ai::kinds::copy_location;
use crate::ai::ordering::{insert_by, lemma_insert_at, sort_by};
use crate::ai::placement::{key_before, key_lt, no_metrics, rejections_view, scored_view, ComputeTarget, KeyModel, PlacementCandidate, PlacementContext, PlacementKey, PlacementMetrics, PlacementPlan, PlacementPlanner, PlacementRejection, RejectionModel, ScoredModel, ScoredPlacement, SchedulerWeights, default_weights};
use crate::ai::score::{cost, merge_metrics, merged, overlaid, overlay, reject, rejection, score};
use vstd::prelude::*;

verus! {

/// Most routes whose observations the scheduler remembers.
pub const MAX_LEARNED_ROUTES: usize = 4_096;

/// Deterministic integer cost model with learned moving averages per route.
#[derive(Debug)]
pub struct CostScheduler {
    weights: SchedulerWeights,
    ema_alpha_basis_points: u16,
    learned: Vec<(PlacementKey, PlacementMetrics)>,
}

/// Abstract content of a [`CostScheduler`]: weights, EMA weight and remembered routes in
/// the order they were first observed.
pub struct SchedulerModel {
    pub weights: SchedulerWeights,
    pub alpha: u16,
    pub learned: Seq<(KeyModel, PlacementMetrics)>,
}

/// The views of remembered routes.
pub open spec fn learned_view(v: Seq<(PlacementKey, PlacementMetrics)>) -> Seq<(KeyModel, PlacementMetrics)> {
    v.map_values(|p: (PlacementKey, PlacementMetrics)| (p.0@, p.1))
}

impl View for CostScheduler {
    type V = SchedulerModel;

    closed spec fn view(&self) -> SchedulerModel {
        SchedulerModel {
            weights: self.weights,
            alpha: self.ema_alpha_basis_points,
            learned: learned_view(self.learned@),
        }
    }
}

/// Position of the record for `k`.
pub open spec fn find_key(s: Seq<(KeyModel, PlacementMetrics)>, k: KeyModel) -> Option<int>
    decreases s.len(),
{
    if s.len() == 0 {
        None
    } else if s[0].0 == k {
        Some(0)
    } else {
        match find_key(s.drop_first(), k) {
            Some(i) => Some(i + 1),
            None => None,
        }
    }
}

/// No route is remembered twice.
pub open spec fn distinct_keys(s: Seq<(KeyModel, PlacementMetrics)>) -> bool {
    forall|i: int, j: int| 0 <= i < j < s.len() ==> #[trigger] s[i].0 != #[trigger] s[j].0
}

/// A valid scheduler state: EMA weight in (0, 10000] and a bounded, duplicate-free memory.
pub open spec fn scheduler_ok(m: SchedulerModel) -> bool {
    &&& 1 <= m.alpha <= 10_000
    &&& m.learned.len() <= MAX_LEARNED_ROUTES
    &&& distinct_keys(m.learned)
}

/// Metrics used for a candidate: its own, completed by what was learned for its route.
pub open spec fn effective_metrics(m: SchedulerModel, c: PlacementCandidate) -> PlacementMetrics {
    match find_key(m.learned, c.key@) {
        Some(i) => overlaid(c.metrics, m.learned[i].1),
        None => c.metrics,
    }
}

/// Order of admitted routes: lower cost first, then key order.
pub open spec fn cost_before(a: ScoredModel, b: ScoredModel) -> bool {
    a.score < b.score || (a.score == b.score && key_lt(a.key, b.key))
}

/// Order of excluded routes: key order.
pub open spec fn rejection_before(a: RejectionModel, b: RejectionModel) -> bool {
    key_lt(a.key, b.key)
}

/// [`cost_before`] as a value.
pub open spec fn by_cost() -> spec_fn(ScoredModel, ScoredModel) -> bool {
    |a: ScoredModel, b: ScoredModel| cost_before(a, b)
}

/// [`rejection_before`] as a value.
pub open spec fn by_key() -> spec_fn(RejectionModel, RejectionModel) -> bool {
    |a: RejectionModel, b: RejectionModel| rejection_before(a, b)
}

/// Candidates split into admitted and excluded routes, in input order.
pub open spec fn triage(m: SchedulerModel, context: PlacementContext, cands: Seq<PlacementCandidate>) -> (
    Seq<ScoredModel>,
    Seq<RejectionModel>,
)
    decreases cands.len(),
{
    if cands.len() == 0 {
        (seq![], seq![])
    } else {
        let (o, r) = triage(m, context, cands.drop_last());
        let c = cands.last();
        let metrics = effective_metrics(m, c);
        match rejection(context, c, metrics) {
            Some(reason) => (o, r.push(RejectionModel { key: c.key@, reason })),
            None => (
                o.push(
                    ScoredModel {
                        key: c.key@,
                        score: cost(m.weights, context, c, metrics),
                        artifact_source: crate::ai::kinds::location_view(c.artifact_source),
                    },
                ),
                r,
            ),
        }
    }
}

/// The plan for `cands`: admitted routes by cost then key, excluded routes by key.
pub open spec fn plan_of(m: SchedulerModel, context: PlacementContext, cands: Seq<PlacementCandidate>) -> (
    Seq<ScoredModel>,
    Seq<RejectionModel>,
) {
    let (o, r) = triage(m, context, cands);
    (sort_by(o, by_cost()), sort_by(r, by_key()))
}

proof fn lemma_find_key(s: Seq<(KeyModel, PlacementMetrics)>, k: KeyModel, j: int)
    requires
        0 <= j <= s.len(),
        forall|t: int| 0 <= t < j ==> #[trigger] s[t].0 != k,
    ensures
        j < s.len() && s[j].0 == k ==> find_key(s, k) == Some(j),
        j == s.len() ==> find_key(s, k) is None,
    decreases j,
{
    if j > 0 {
        let t = s.drop_first();
        assert forall|u: int| 0 <= u < j - 1 implies #[trigger] t[u].0 != k by {
            assert(t[u] == s[u + 1]);
        }
        lemma_find_key(t, k, j - 1);
    }
}

fn target_same(a: &ComputeTarget, b: &ComputeTarget) -> (r: bool)
    ensures
        r == (a@ == b@),
{
    match (a, b) {
        (ComputeTarget::LocalCpu(x), ComputeTarget::LocalCpu(y)) => x.same(y),
        (ComputeTarget::LocalGpu(x), ComputeTarget::LocalGpu(y)) => x.same(y),
        (ComputeTarget::LocalNpu(x), ComputeTarget::LocalNpu(y)) => x.same(y),
        (
            ComputeTarget::RemotePeer { peer: p1, device: d1, kind: k1 },
            ComputeTarget::RemotePeer { peer: p2, device: d2, kind: k2 },
        ) => p1.same(p2) && d1.same(d2) && *k1 == *k2,
        _ => false,
    }
}

fn key_same(a: &PlacementKey, b: &PlacementKey) -> (r: bool)
    ensures
        r == (a@ == b@),
{
    a.model.same(&b.model) && a.backend.same(&b.backend) && target_same(&a.target, &b.target)
}

fn scored_before(a: &ScoredPlacement, b: &ScoredPlacement) -> (r: bool)
    ensures
        r == cost_before(a@, b@),
{
    a.score < b.score || (a.score == b.score && key_before(&a.key, &b.key))
}

fn scored_pos(v: &Vec<ScoredPlacement>, x: &ScoredPlacement) -> (j: usize)
    ensures
        j <= v.len(),
        forall|t: int| 0 <= t < j ==> !(#[trigger] (by_cost())(x@, scored_view(v@)[t])),
        j == v.len() || (by_cost())(x@, scored_view(v@)[j as int]),
{
    let ghost s = scored_view(v@);
    let mut j: usize = 0;
    while j < v.len()
        invariant
            j <= v.len(),
            s == scored_view(v@),
            forall|t: int| 0 <= t < j ==> !(#[trigger] (by_cost())(x@, s[t])),
        decreases v.len() - j,
    {
        assert(s[j as int] == v@[j as int]@);
        if scored_before(x, &v[j]) {
            return j;
        }
        j = j + 1;
    }
    j
}

fn insert_scored(v: &mut Vec<ScoredPlacement>, x: ScoredPlacement)
    ensures
        scored_view(final(v)@) == insert_by(scored_view(old(v)@), x@, by_cost()),
{
    let ghost s = scored_view(v@);
    let j = scored_pos(v, &x);
    proof {
        lemma_insert_at(s, x@, by_cost(), j as int);
    }
    let ghost xv = x@;
    v.insert(j, x);
    assert(scored_view(v@) =~= s.take(j as int) + seq![xv] + s.skip(j as int));
}

fn rejection_pos(v: &Vec<PlacementRejection>, x: &PlacementRejection) -> (j: usize)
    ensures
        j <= v.len(),
        forall|t: int| 0 <= t < j ==> !(#[trigger] (by_key())(x@, rejections_view(v@)[t])),
        j == v.len() || (by_key())(x@, rejections_view(v@)[j as int]),
{
    let ghost s = rejections_view(v@);
    let mut j: usize = 0;
    while j < v.len()
        invariant
            j <= v.len(),
            s == rejections_view(v@),
            forall|t: int| 0 <= t < j ==> !(#[trigger] (by_key())(x@, s[t])),
        decreases v.len() - j,
    {
        assert(s[j as int] == v@[j as int]@);
        if key_before(&x.key, &v[j].key) {
            return j;
        }
        j = j + 1;
    }
    j
}

fn insert_rejection(v: &mut Vec<PlacementRejection>, x: PlacementRejection)
    ensures
        rejections_view(final(v)@) == insert_by(rejections_view(old(v)@), x@, by_key()),
{
    let ghost s = rejections_view(v@);
    let j = rejection_pos(v, &x);
    proof {
        lemma_insert_at(s, x@, by_key(), j as int);
    }
    let ghost xv = x@;
    v.insert(j, x);
    assert(rejections_view(v@) =~= s.take(j as int) + seq![xv] + s.skip(j as int));
}

impl CostScheduler {
    #[verifier::type_invariant]
    spec fn well_formed(self) -> bool {
        scheduler_ok(self@)
    }

    /// A scheduler with the given weights and EMA weight in basis points (1 to 10000).
    pub fn new(weights: SchedulerWeights, ema_alpha_basis_points: u16) -> (r: Result<Self, AiError>)
        ensures
            match r {
                Ok(s) => 1 <= ema_alpha_basis_points <= 10_000 && s@.weights == weights && s@.alpha
                    == ema_alpha_basis_points && s@.learned.len() == 0,
                Err(e) => !(1 <= ema_alpha_basis_points <= 10_000) && e == AiError::InvalidInput(
                    "scheduler EMA alpha",
                ),
            },
    {
        if ema_alpha_basis_points == 0 || ema_alpha_basis_points > 10_000 {
            return Err(AiError::InvalidInput("scheduler EMA alpha"));
        }
        Ok(CostScheduler { weights, ema_alpha_basis_points, learned: Vec::new() })
    }

    /// Records one sample for a route with fixed-point moving averages.
    pub fn observe(&mut self, key: PlacementKey, sample: PlacementMetrics) -> (r: Result<(), AiError>)
        ensures
            final(self)@.weights == old(self)@.weights,
            final(self)@.alpha == old(self)@.alpha,
            match find_key(old(self)@.learned, key@) {
                Some(i) => r is Ok && final(self)@.learned == old(self)@.learned.update(
                    i,
                    (key@, merged(old(self)@.learned[i].1, sample, old(self)@.alpha)),
                ),
                None => if old(self)@.learned.len() >= MAX_LEARNED_ROUTES {
                    r == Err::<(), AiError>(AiError::Capacity("scheduler learned routes"))
                        && final(self)@.learned == old(self)@.learned
                } else {
                    r is Ok && final(self)@.learned == old(self)@.learned.push(
                        (key@, merged(no_metrics(), sample, old(self)@.alpha)),
                    )
                },
            },
    {
        proof {
            use_type_invariant(&*self);
        }
        let alpha = self.ema_alpha_basis_points;
        let mut learned: Vec<(PlacementKey, PlacementMetrics)> = Vec::new();
        std::mem::swap(&mut learned, &mut self.learned);
        let ghost s = learned_view(learned@);
        assert(s == old(self)@.learned);
        let r = Self::record(&mut learned, key, sample, alpha);
        std::mem::swap(&mut learned, &mut self.learned);
        r
    }

    fn record(learned: &mut Vec<(PlacementKey, PlacementMetrics)>, key: PlacementKey, sample: PlacementMetrics, alpha: u16) -> (r: Result<(), AiError>)
        requires
            1 <= alpha <= 10_000,
            scheduler_ok(SchedulerModel { weights: default_weights(), alpha, learned: learned_view(old(learned)@) }),
        ensures
            scheduler_ok(SchedulerModel { weights: default_weights(), alpha, learned: learned_view(final(learned)@) }),
            match find_key(learned_view(old(learned)@), key@) {
                Some(i) => r is Ok && learned_view(final(learned)@) == learned_view(old(learned)@).update(
                    i,
                    (key@, merged(learned_view(old(learned)@)[i].1, sample, alpha)),
                ),
                None => if old(learned)@.len() >= MAX_LEARNED_ROUTES {
                    r == Err::<(), AiError>(AiError::Capacity("scheduler learned routes"))
                        && learned_view(final(learned)@) == learned_view(old(learned)@)
                } else {
                    r is Ok && learned_view(final(learned)@) == learned_view(old(learned)@).push(
                        (key@, merged(no_metrics(), sample, alpha)),
                    )
                },
            },
    {
        let ghost s = learned_view(learned@);
        let mut i: usize = 0;
        while i < learned.len()
            invariant
                i <= learned.len(),
                1 <= alpha <= 10_000,
                distinct_keys(s),
                s.len() <= MAX_LEARNED_ROUTES,
                learned@ == old(learned)@,
                s == learned_view(learned@),
                forall|t: int| 0 <= t < i ==> #[trigger] s[t].0 != key@,
            decreases learned.len() - i,
        {
            assert(s[i as int] == (learned@[i as int].0@, learned@[i as int].1));
            if key_same(&learned[i].0, &key) {
                proof {
                    lemma_find_key(s, key@, i as int);
                }
                let previous = learned[i].1;
                let updated = merge_metrics(previous, sample, alpha);
                let k = learned[i].0.duplicate();
                learned.set(i, (k, updated));
                proof {
                    assert(learned_view(learned@) =~= s.update(i as int, (key@, updated)));
                    assert forall|a: int, b: int| 0 <= a < b < learned_view(learned@).len() implies
                        #[trigger] learned_view(learned@)[a].0 != #[trigger] learned_view(learned@)[b].0 by {
                        assert(s[a].0 != s[b].0);
                    }
                }
                return Ok(());
            }
            i = i + 1;
        }
        proof {
            lemma_find_key(s, key@, i as int);
        }
        if learned.len() >= MAX_LEARNED_ROUTES {
            return Err(AiError::Capacity("scheduler learned routes"));
        }
        let updated = merge_metrics(PlacementMetrics::default(), sample, alpha);
        let ghost kv = key@;
        learned.push((key, updated));
        proof {
            assert(learned_view(learned@) =~= s.push((kv, updated)));
            assert forall|a: int, b: int| 0 <= a < b < learned_view(learned@).len() implies
                #[trigger] learned_view(learned@)[a].0 != #[trigger] learned_view(learned@)[b].0 by {
                if b < s.len() {
                    assert(s[a].0 != s[b].0);
                } else {
                    assert(s[a].0 != kv);
                }
            }
        }
        Ok(())
    }

    fn learned_for(&self, key: &PlacementKey) -> (r: Option<PlacementMetrics>)
        ensures
            match find_key(self@.learned, key@) {
                Some(i) => r == Some(self@.learned[i].1),
                None => r is None,
            },
    {
        let ghost s = learned_view(self.learned@);
        let mut i: usize = 0;
        while i < self.learned.len()
            invariant
                i <= self.learned.len(),
                s == learned_view(self.learned@),
                s == self@.learned,
                forall|t: int| 0 <= t < i ==> #[trigger] s[t].0 != key@,
            decreases self.learned.len() - i,
        {
            assert(s[i as int] == (self.learned@[i as int].0@, self.learned@[i as int].1));
            if key_same(&self.learned[i].0, key) {
                proof {
                    lemma_find_key(s, key@, i as int);
                }
                return Some(self.learned[i].1);
            }
            i = i + 1;
        }
        proof {
            lemma_find_key(s, key@, i as int);
        }
        None
    }
}

impl Default for CostScheduler {
    /// Default weights, an EMA weight of 20 %, and nothing learned.
    fn default() -> (r: Self)
        ensures
            r@.weights == default_weights(),
            r@.alpha == 2_000,
            r@.learned.len() == 0,
    {
        CostScheduler { weights: SchedulerWeights::default(), ema_alpha_basis_points: 2_000, learned: Vec::new() }
    }
}

impl PlacementPlanner for CostScheduler {
    /// Ranks admitted routes by cost, then key; lists excluded routes by key.
    fn plan(&self, context: PlacementContext, candidates: &[PlacementCandidate]) -> (r: PlacementPlan)
        ensures
            scored_view(r.ordered@) == plan_of(self@, context, candidates@).0,
            rejections_view(r.rejected@) == plan_of(self@, context, candidates@).1,
    {
        let mut ordered: Vec<ScoredPlacement> = Vec::new();
        let mut rejected: Vec<PlacementRejection> = Vec::new();
        let ghost cs = candidates@;
        assert(cs.take(0) =~= seq![]);
        let mut i: usize = 0;
        while i < candidates.len()
            invariant
                i <= candidates.len(),
                cs == candidates@,
                scored_view(ordered@) == sort_by(triage(self@, context, cs.take(i as int)).0, by_cost()),
                rejections_view(rejected@) == sort_by(triage(self@, context, cs.take(i as int)).1, by_key()),
            decreases candidates.len() - i,
        {
            let c = &candidates[i];
            assert(cs.take(i + 1).drop_last() =~= cs.take(i as int));
            assert(cs.take(i + 1).last() == *c);
            let metrics = match self.learned_for(&c.key) {
                Some(l) => overlay(c.metrics, l),
                None => c.metrics,
            };
            match reject(context, c, metrics) {
                Some(reason) => {
                    let x = PlacementRejection { key: c.key.duplicate(), reason };
                    proof {
                        let (o, r) = triage(self@, context, cs.take(i as int));
                        assert(r.push(x@).drop_last() =~= r);
                    }
                    insert_rejection(&mut rejected, x);
                },
                None => {
                    let x = ScoredPlacement {
                        key: c.key.duplicate(),
                        score: score(self.weights, context, c, metrics),
                        artifact_source: copy_location(&c.artifact_source),
                    };
                    proof {
                        let (o, r) = triage(self@, context, cs.take(i as int));
                        assert(o.push(x@).drop_last() =~= o);
                    }
                    insert_scored(&mut ordered, x);
                },
            }
            i = i + 1;
        }
        assert(cs.take(candidates.len() as int) =~= cs);
        PlacementPlan { ordered, rejected }
    }
}

} // verus!
