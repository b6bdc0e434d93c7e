use crate::ai::directory::{
    wrap_inc,
    after_update, ascending, directory_ok, first_n, for_tenant, holds_peer, lemma_lower_bound, lemma_upsert,
    lower_bound, position, unexpired, update_result, upsert, AuthModel, DirectoryModel, EntryModel,
};
use crate::ai::ids::AiError;
use crate::ai::placement::{lemma_text_lt_irreflexive, text_lt};
use crate::ai::kinds::ResourceBudget;
use crate::ai::resources::DeviceSnapshot;
use crate::ai::swarm::{donated_metrics, or_zero, NodeModel};
use vstd::prelude::*;

verus! {

/// Advertisements strictly ordered by peer identity.
pub open spec fn nodes_ascending(s: Seq<NodeModel>) -> bool {
    forall|i: int, j: int| 0 <= i < j < s.len() ==> text_lt(#[trigger] s[i].peer, #[trigger] s[j].peer)
}

proof fn lemma_lower_bound_is(s: Seq<EntryModel>, key: Seq<char>, i: int, p: int)
    requires
        0 <= i <= p <= s.len(),
        forall|t: int| i <= t < p ==> text_lt(#[trigger] s[t].capabilities.peer, key),
        p == s.len() || !text_lt(s[p].capabilities.peer, key),
    ensures
        lower_bound(s, key, i) == p,
    decreases p - i,
{
    if i < p {
        lemma_lower_bound_is(s, key, i + 1, p);
    }
}

/// Whatever the authorizer answers, an update leaves the directory consistent: a valid
/// configuration, at most `max_peers` entries strictly ordered by peer, each within the
/// per-peer device bound.
pub proof fn update_keeps_directory_consistent(
    st: DirectoryModel,
    c: NodeModel,
    now: u64,
    auth: Result<AuthModel, AiError>,
)
    requires
        directory_ok(st),
    ensures
        directory_ok(after_update(st, c, now, auth)),
{
    if update_result(st, c, now, auth) is Ok {
        let e = EntryModel { capabilities: c, authorization: auth->Ok_0 };
        let s = st.peers;
        lemma_upsert(s, e);
        let u = upsert(s, e);
        assert forall|k: int| 0 <= k < u.len() implies (#[trigger] u[k]).capabilities.compute.len()
            <= st.config.max_devices_per_peer by {
            if u[k] != e {
                let t = choose|t: int| 0 <= t < s.len() && u[k] == s[t];
                assert(s[t] == s[t]);
            }
        }
    }
}

/// After an accepted update, looking up the advertising peer finds exactly the new advertisement.
pub proof fn accepted_update_is_recorded(st: DirectoryModel, c: NodeModel, now: u64, auth: Result<AuthModel, AiError>)
    requires
        directory_ok(st),
        update_result(st, c, now, auth) is Ok,
    ensures
        holds_peer(after_update(st, c, now, auth).peers, c.peer),
        after_update(st, c, now, auth).peers[position(after_update(st, c, now, auth).peers, c.peer)].capabilities
            == c,
{
    let s = st.peers;
    let key = c.peer;
    let e = EntryModel { capabilities: c, authorization: auth->Ok_0 };
    let p = position(s, key);
    lemma_lower_bound(s, key, 0);
    let r = upsert(s, e);
    assert(after_update(st, c, now, auth).peers == r);
    lemma_text_lt_irreflexive(key);
    if holds_peer(s, key) {
        assert forall|t: int| 0 <= t < p implies text_lt(#[trigger] r[t].capabilities.peer, key) by {
            assert(r[t] == s[t]);
        }
        lemma_lower_bound_is(r, key, 0, p);
    } else {
        assert forall|t: int| 0 <= t < p implies text_lt(#[trigger] r[t].capabilities.peer, key) by {
            assert(r[t] == s[t]);
        }
        assert(r[p] == e);
        lemma_lower_bound_is(r, key, 0, p);
    }
}

/// An accepted update never shortens a peer's advertised lifetime: a stale or equal
/// advertisement for a known peer is refused.
pub proof fn accepted_updates_only_extend_expiry(
    st: DirectoryModel,
    c: NodeModel,
    now: u64,
    auth: Result<AuthModel, AiError>,
)
    requires
        update_result(st, c, now, auth) is Ok,
        holds_peer(st.peers, c.peer),
    ensures
        c.expires_at_ms > st.peers[position(st.peers, c.peer)].capabilities.expires_at_ms,
{
}

/// A refused update changes nothing but the count of rejected updates.
pub proof fn refused_update_keeps_entries(st: DirectoryModel, c: NodeModel, now: u64, auth: Result<AuthModel, AiError>)
    requires
        update_result(st, c, now, auth) is Err,
    ensures
        after_update(st, c, now, auth).peers == st.peers,
        after_update(st, c, now, auth).config == st.config,
        after_update(st, c, now, auth).accepted_updates == st.accepted_updates,
{
}

/// Every update is counted once: an accepted one in the accepted count, a refused one in the
/// rejected count, each count wrapping at the top of its range.
pub proof fn every_update_is_counted_once(st: DirectoryModel, c: NodeModel, now: u64, auth: Result<AuthModel, AiError>)
    ensures
        update_result(st, c, now, auth) is Ok ==> after_update(st, c, now, auth).accepted_updates == wrap_inc(
            st.accepted_updates,
        ) && after_update(st, c, now, auth).rejected_updates == st.rejected_updates,
        update_result(st, c, now, auth) is Err ==> after_update(st, c, now, auth).rejected_updates == wrap_inc(
            st.rejected_updates,
        ) && after_update(st, c, now, auth).accepted_updates == st.accepted_updates,
{
}

proof fn lemma_unexpired(s: Seq<EntryModel>, now: u64)
    requires
        ascending(s),
    ensures
        ascending(unexpired(s, now)),
        forall|k: int| 0 <= k < unexpired(s, now).len() ==> (#[trigger] unexpired(s, now)[k]).capabilities.expires_at_ms
            > now,
        forall|k: int| 0 <= k < unexpired(s, now).len() ==> exists|t: int|
            0 <= t < s.len() && #[trigger] unexpired(s, now)[k] == s[t],
    decreases s.len(),
{
    if s.len() > 0 {
        let d = s.drop_last();
        assert(ascending(d)) by {
            assert forall|i: int, j: int| 0 <= i < j < d.len() implies text_lt(
                #[trigger] d[i].capabilities.peer,
                #[trigger] d[j].capabilities.peer,
            ) by {
                assert(d[i] == s[i] && d[j] == s[j]);
            }
        }
        lemma_unexpired(d, now);
        let u = unexpired(d, now);
        let r = unexpired(s, now);
        if s.last().capabilities.expires_at_ms > now {
            assert(r == u.push(s.last()));
            assert forall|i: int, j: int| 0 <= i < j < r.len() implies text_lt(
                #[trigger] r[i].capabilities.peer,
                #[trigger] r[j].capabilities.peer,
            ) by {
                if j == r.len() - 1 {
                    assert(r[i] == u[i]);
                    let t = choose|t: int| 0 <= t < d.len() && u[i] == d[t];
                    assert(d[t] == s[t]);
                    assert(r[j] == s[s.len() - 1]);
                } else {
                    assert(r[i] == u[i] && r[j] == u[j]);
                }
            }
            assert forall|k: int| 0 <= k < r.len() implies exists|t: int| 0 <= t < s.len() && #[trigger] r[k] == s[t] by {
                if k == r.len() - 1 {
                    assert(r[k] == s[s.len() - 1]);
                } else {
                    assert(r[k] == u[k]);
                    let t = choose|t: int| 0 <= t < d.len() && u[k] == d[t];
                    assert(d[t] == s[t]);
                }
            }
            assert forall|k: int| 0 <= k < r.len() implies (#[trigger] r[k]).capabilities.expires_at_ms > now by {
                if k < r.len() - 1 {
                    assert(r[k] == u[k]);
                }
            }
        } else {
            assert(r == u);
            assert forall|k: int| 0 <= k < r.len() implies exists|t: int| 0 <= t < s.len() && #[trigger] r[k] == s[t] by {
                let t = choose|t: int| 0 <= t < d.len() && u[k] == d[t];
                assert(d[t] == s[t]);
            }
        }
    }
}

proof fn lemma_for_tenant(s: Seq<EntryModel>, tenant: Seq<char>, now: u64)
    requires
        ascending(s),
        forall|k: int| 0 <= k < s.len() ==> (#[trigger] s[k]).capabilities.expires_at_ms > now,
    ensures
        nodes_ascending(for_tenant(s, tenant)),
        forall|k: int| 0 <= k < for_tenant(s, tenant).len() ==> (#[trigger] for_tenant(s, tenant)[k]).tenant == tenant
            && for_tenant(s, tenant)[k].expires_at_ms > now,
        forall|k: int| 0 <= k < for_tenant(s, tenant).len() ==> exists|t: int|
            0 <= t < s.len() && #[trigger] for_tenant(s, tenant)[k] == s[t].capabilities,
    decreases s.len(),
{
    if s.len() > 0 {
        let d = s.drop_last();
        assert(ascending(d)) by {
            assert forall|i: int, j: int| 0 <= i < j < d.len() implies text_lt(
                #[trigger] d[i].capabilities.peer,
                #[trigger] d[j].capabilities.peer,
            ) by {
                assert(d[i] == s[i] && d[j] == s[j]);
            }
        }
        assert forall|k: int| 0 <= k < d.len() implies (#[trigger] d[k]).capabilities.expires_at_ms > now by {
            assert(d[k] == s[k]);
        }
        lemma_for_tenant(d, tenant, now);
        let f = for_tenant(d, tenant);
        let r = for_tenant(s, tenant);
        let last = s.last();
        if last.authorization.tenants.contains(tenant) && last.capabilities.tenant == tenant {
            assert(r == f.push(last.capabilities));
            assert forall|i: int, j: int| 0 <= i < j < r.len() implies text_lt(#[trigger] r[i].peer, #[trigger] r[j].peer) by {
                if j == r.len() - 1 {
                    assert(r[i] == f[i]);
                    let t = choose|t: int| 0 <= t < d.len() && f[i] == d[t].capabilities;
                    assert(d[t] == s[t]);
                } else {
                    assert(r[i] == f[i] && r[j] == f[j]);
                }
            }
            assert forall|k: int| 0 <= k < r.len() implies exists|t: int|
                0 <= t < s.len() && #[trigger] r[k] == s[t].capabilities by {
                if k == r.len() - 1 {
                    assert(r[k] == s[s.len() - 1].capabilities);
                } else {
                    assert(r[k] == f[k]);
                    let t = choose|t: int| 0 <= t < d.len() && f[k] == d[t].capabilities;
                    assert(d[t] == s[t]);
                }
            }
            assert forall|k: int| 0 <= k < r.len() implies (#[trigger] r[k]).tenant == tenant && r[k].expires_at_ms
                > now by {
                if k < r.len() - 1 {
                    assert(r[k] == f[k]);
                }
            }
        } else {
            assert(r == f);
            assert forall|k: int| 0 <= k < r.len() implies exists|t: int|
                0 <= t < s.len() && #[trigger] r[k] == s[t].capabilities by {
                let t = choose|t: int| 0 <= t < d.len() && f[k] == d[t].capabilities;
                assert(d[t] == s[t]);
            }
        }
    }
}

/// What a live query answers holds at most `limit` advertisements, each of the asked tenant and
/// unexpired at the query time, in strictly increasing peer order.
pub proof fn live_answers_are_fresh_scoped_and_ordered(st: DirectoryModel, tenant: Seq<char>, now: u64, limit: nat)
    requires
        directory_ok(st),
    ensures
        first_n(for_tenant(unexpired(st.peers, now), tenant), limit).len() <= limit,
        nodes_ascending(first_n(for_tenant(unexpired(st.peers, now), tenant), limit)),
        forall|k: int| 0 <= k < first_n(for_tenant(unexpired(st.peers, now), tenant), limit).len() ==> (
        #[trigger] first_n(for_tenant(unexpired(st.peers, now), tenant), limit)[k]).tenant == tenant
            && first_n(for_tenant(unexpired(st.peers, now), tenant), limit)[k].expires_at_ms > now,
{
    lemma_unexpired(st.peers, now);
    let u = unexpired(st.peers, now);
    lemma_for_tenant(u, tenant, now);
    let f = for_tenant(u, tenant);
    let r = first_n(f, limit);
    if limit < f.len() {
        assert forall|i: int, j: int| 0 <= i < j < r.len() implies text_lt(#[trigger] r[i].peer, #[trigger] r[j].peer) by {
            assert(r[i] == f[i] && r[j] == f[j]);
        }
        assert forall|k: int| 0 <= k < r.len() implies (#[trigger] r[k]).tenant == tenant && r[k].expires_at_ms > now by {
            assert(r[k] == f[k]);
        }
    }
}

/// A device never advertises more memory than the donated budget allows: it reports exactly one
/// memory figure, system memory when unified and device memory otherwise, each at most its cap.
pub proof fn advertised_memory_stays_within_budget(device: DeviceSnapshot, budget: ResourceBudget)
    ensures
        donated_metrics(device, budget).available_memory_bytes is Some != donated_metrics(
            device,
            budget,
        ).available_vram_bytes is Some,
        donated_metrics(device, budget).available_memory_bytes matches Some(m) ==> m <= or_zero(budget.memory_bytes),
        donated_metrics(device, budget).available_vram_bytes matches Some(v) ==> v <= or_zero(budget.vram_bytes),
{
}

/// A device never advertises more free memory than it was observed to have, nor more than the
/// budget donates: each advertised figure is the smaller of the observation and the cap, and
/// the cap itself when nothing was observed.
pub proof fn advertised_memory_is_observed_and_capped(device: DeviceSnapshot, budget: ResourceBudget)
    ensures
        donated_metrics(device, budget).available_memory_bytes matches Some(v) ==> v <= or_zero(budget.memory_bytes)
            && (device.available_memory_bytes matches Some(x) ==> v <= x && (v == x || v == or_zero(budget.memory_bytes)))
            && (device.available_memory_bytes is None ==> v == or_zero(budget.memory_bytes)),
        donated_metrics(device, budget).available_vram_bytes matches Some(v) ==> v <= or_zero(budget.vram_bytes)
            && (device.available_memory_bytes matches Some(x) ==> v <= x && (v == x || v == or_zero(budget.vram_bytes)))
            && (device.available_memory_bytes is None ==> v == or_zero(budget.vram_bytes)),
{
}

} // verus!
