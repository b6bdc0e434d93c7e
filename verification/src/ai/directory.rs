use crate::ai::ids::{AiError, CapabilityId};
use crate::ai::placement::{lemma_text_lt_total, lemma_text_lt_transitive, text_before, text_lt};
use crate::ai::score::sadd;
use crate::ai::security::ids_view;
use crate::ai::swarm::{ad_ok, AiNodeCapabilities, NodeModel, MAX_ADVERTISED_ARTIFACTS, MAX_ADVERTISED_DEVICES};
use crate::durations::{clamp_millis, duration_millis, duration_nanos, from_seconds, millis_u64, nanos};
use core::time::Duration;
use vstd::prelude::*;

verus! {

/// Most peers a directory may be configured to hold.
pub const MAX_DIRECTORY_PEERS: usize = 4096;

/// Longest advertisement lifetime a directory may accept, in nanoseconds (one day).
pub const MAX_ADVERTISEMENT_TTL_NANOS: u128 = 86_400_000_000_000;

/// Authorization result produced by an AppCore security adapter.
#[derive(Clone, Debug, Eq, PartialEq)]
pub struct PeerAuthorization {
    /// Authentication over the advertisement succeeded.
    pub authenticated: bool,
    /// Authorized tenant scopes.
    pub tenants: Vec<CapabilityId>,
    /// Whether remote AI compute is granted.
    pub allow_compute: bool,
    /// Whether peer artifact storage is granted.
    pub allow_storage: bool,
}

/// Abstract content of a [`PeerAuthorization`].
pub struct AuthModel {
    pub authenticated: bool,
    pub tenants: Seq<Seq<char>>,
    pub allow_compute: bool,
    pub allow_storage: bool,
}

impl View for PeerAuthorization {
    type V = AuthModel;

    open spec fn view(&self) -> AuthModel {
        AuthModel {
            authenticated: self.authenticated,
            tenants: ids_view(self.tenants@),
            allow_compute: self.allow_compute,
            allow_storage: self.allow_storage,
        }
    }
}

impl PeerAuthorization {
    /// A copy with the same content.
    fn duplicate(&self) -> (r: Self)
        ensures
            r@ == self@,
    {
        let mut tenants: Vec<CapabilityId> = Vec::new();
        let mut i: usize = 0;
        while i < self.tenants.len()
            invariant
                i <= self.tenants.len(),
                ids_view(tenants@) == ids_view(self.tenants@).take(i as int),
            decreases self.tenants.len() - i,
        {
            let t = self.tenants[i].duplicate();
            let ghost before = tenants@;
            tenants.push(t);
            assert(ids_view(tenants@) =~= ids_view(before).push(t@));
            assert(ids_view(self.tenants@).take(i + 1) =~= ids_view(self.tenants@).take(i as int).push(
                self.tenants@[i as int]@,
            ));
            i = i + 1;
        }
        assert(ids_view(self.tenants@).take(self.tenants.len() as int) =~= ids_view(self.tenants@));
        PeerAuthorization {
            authenticated: self.authenticated,
            tenants,
            allow_compute: self.allow_compute,
            allow_storage: self.allow_storage,
        }
    }

    /// Whether the tenant is among the authorized scopes.
    fn covers(&self, tenant: &CapabilityId) -> (r: bool)
        ensures
            r == self@.tenants.contains(tenant@),
    {
        let ghost g = ids_view(self.tenants@);
        let mut i: usize = 0;
        while i < self.tenants.len()
            invariant
                i <= self.tenants.len(),
                g == ids_view(self.tenants@),
                forall|k: int| 0 <= k < i ==> g[k] != tenant@,
            decreases self.tenants.len() - i,
        {
            if self.tenants[i].same(tenant) {
                assert(g[i as int] == tenant@);
                return true;
            }
            i = i + 1;
        }
        false
    }
}

/// Boundary implemented with existing AppCore security and replay contracts.
pub trait PeerCapabilityAuthorizer {
    /// Whether `a` is an answer this authorizer gives for the advertisement `c`.
    spec fn answers(&self, c: NodeModel, a: Result<AuthModel, AiError>) -> bool;

    /// Authenticates and authorizes one complete advertisement.
    fn authorize(&self, capabilities: &AiNodeCapabilities) -> (r: Result<PeerAuthorization, AiError>)
        ensures
            self.answers(capabilities@, auth_view(r)),
    ;
}

/// Bounds for an expiring in-memory peer view.
#[derive(Clone, Copy, Debug, Eq, PartialEq)]
pub struct PeerDirectoryConfig {
    /// Maximum tracked peers.
    pub max_peers: usize,
    /// Maximum devices in one advertisement.
    pub max_devices_per_peer: usize,
    /// Maximum artifact digests in one advertisement.
    pub max_artifacts_per_peer: usize,
    /// Maximum accepted advertisement lifetime.
    pub max_ttl: Duration,
}

impl Default for PeerDirectoryConfig {
    /// 64 peers, 16 devices and 256 artifacts per peer, 30-second lifetime.
    fn default() -> (r: Self)
        ensures
            r.max_peers == 64,
            r.max_devices_per_peer == 16,
            r.max_artifacts_per_peer == 256,
            duration_nanos(r.max_ttl) == 30_000_000_000,
            duration_millis(r.max_ttl) == 30_000,
    {
        PeerDirectoryConfig {
            max_peers: 64,
            max_devices_per_peer: 16,
            max_artifacts_per_peer: 256,
            max_ttl: from_seconds(30),
        }
    }
}

/// Low-cardinality authenticated peer-directory counters and gauges.
#[derive(Clone, Copy, Debug, Eq, PartialEq, Structural)]
pub struct PeerDirectoryMetrics {
    /// Current unexpired peers after the most recent prune.
    pub current_peers: usize,
    /// Currently advertised compute devices.
    pub compute_devices: usize,
    /// Current peers donating artifact storage.
    pub storage_peers: usize,
    /// Current donated worker slots.
    pub donated_workers: usize,
    /// Current donated storage bytes.
    pub donated_storage_bytes: u64,
    /// Authenticated advertisements accepted.
    pub accepted_updates: u64,
    /// Invalid or unauthorized advertisements rejected.
    pub rejected_updates: u64,
    /// Entries pruned after expiration.
    pub expired_peers: u64,
}

impl Default for PeerDirectoryMetrics {
    /// All counters and gauges at zero.
    fn default() -> (r: Self)
        ensures
            r == (PeerDirectoryMetrics {
                current_peers: 0,
                compute_devices: 0,
                storage_peers: 0,
                donated_workers: 0,
                donated_storage_bytes: 0,
                accepted_updates: 0,
                rejected_updates: 0,
                expired_peers: 0,
            }),
    {
        PeerDirectoryMetrics {
            current_peers: 0,
            compute_devices: 0,
            storage_peers: 0,
            donated_workers: 0,
            donated_storage_bytes: 0,
            accepted_updates: 0,
            rejected_updates: 0,
            expired_peers: 0,
        }
    }
}

struct AuthorizedCapabilities {
    capabilities: AiNodeCapabilities,
    authorization: PeerAuthorization,
}

/// One stored advertisement with the authorization it was accepted under.
pub struct EntryModel {
    pub capabilities: NodeModel,
    pub authorization: AuthModel,
}

impl View for AuthorizedCapabilities {
    type V = EntryModel;

    closed spec fn view(&self) -> EntryModel {
        EntryModel { capabilities: self.capabilities@, authorization: self.authorization@ }
    }
}

/// The views of stored entries.
pub open spec fn entries_view(v: Seq<AuthorizedCapabilities>) -> Seq<EntryModel> {
    v.map_values(|e: AuthorizedCapabilities| e@)
}

/// Expiring capability cache; it is not a discovery service or control plane.
pub struct PeerCapabilityDirectory {
    config: PeerDirectoryConfig,
    peers: Vec<AuthorizedCapabilities>,
    accepted_updates: u64,
    rejected_updates: u64,
    expired_peers: u64,
}

/// Abstract content of a [`PeerCapabilityDirectory`]: entries ordered by peer identity.
pub struct DirectoryModel {
    pub config: PeerDirectoryConfig,
    pub peers: Seq<EntryModel>,
    pub accepted_updates: u64,
    pub rejected_updates: u64,
    pub expired_peers: u64,
}

impl View for PeerCapabilityDirectory {
    type V = DirectoryModel;

    closed spec fn view(&self) -> DirectoryModel {
        DirectoryModel {
            config: self.config,
            peers: entries_view(self.peers@),
            accepted_updates: self.accepted_updates,
            rejected_updates: self.rejected_updates,
            expired_peers: self.expired_peers,
        }
    }
}

/// Bounds within the directory's hard ceilings, with a non-zero lifetime of at most one day.
pub open spec fn config_ok(c: PeerDirectoryConfig) -> bool {
    &&& 1 <= c.max_peers <= MAX_DIRECTORY_PEERS
    &&& 1 <= c.max_devices_per_peer <= MAX_ADVERTISED_DEVICES
    &&& 1 <= c.max_artifacts_per_peer <= MAX_ADVERTISED_ARTIFACTS
    &&& 0 < duration_nanos(c.max_ttl) <= MAX_ADVERTISEMENT_TTL_NANOS
}

/// Entries strictly ordered by peer identity, so no peer occurs twice.
pub open spec fn ascending(s: Seq<EntryModel>) -> bool {
    forall|i: int, j: int|
        0 <= i < j < s.len() ==> text_lt(#[trigger] s[i].capabilities.peer, #[trigger] s[j].capabilities.peer)
}

/// What every directory keeps: a valid configuration, at most `max_peers` entries ordered by peer,
/// each within the per-peer device bound.
pub open spec fn directory_ok(m: DirectoryModel) -> bool {
    &&& config_ok(m.config)
    &&& m.peers.len() <= m.config.max_peers
    &&& ascending(m.peers)
    &&& forall|i: int| 0 <= i < m.peers.len() ==> (#[trigger] m.peers[i]).capabilities.compute.len()
        <= m.config.max_devices_per_peer
}

/// Index of the first entry from `i` on whose peer does not sort before `key`.
pub open spec fn lower_bound(s: Seq<EntryModel>, key: Seq<char>, i: int) -> int
    decreases s.len() - i,
{
    if i < 0 || i >= s.len() {
        s.len() as int
    } else if text_lt(s[i].capabilities.peer, key) {
        lower_bound(s, key, i + 1)
    } else {
        i
    }
}

/// Where the entry of `key` is, or would go.
pub open spec fn position(s: Seq<EntryModel>, key: Seq<char>) -> int {
    lower_bound(s, key, 0)
}

/// Some entry belongs to `key`.
pub open spec fn holds_peer(s: Seq<EntryModel>, key: Seq<char>) -> bool {
    position(s, key) < s.len() && s[position(s, key)].capabilities.peer == key
}

/// The entries with `e` stored under its peer, replacing an earlier one.
pub open spec fn upsert(s: Seq<EntryModel>, e: EntryModel) -> Seq<EntryModel> {
    let p = position(s, e.capabilities.peer);
    if holds_peer(s, e.capabilities.peer) {
        s.update(p, e)
    } else {
        s.insert(p, e)
    }
}

/// One more, wrapping around at `u64::MAX`.
pub open spec fn wrap_inc(x: u64) -> u64 {
    if x == u64::MAX { 0 } else { (x + 1) as u64 }
}

/// `x + n`, wrapping around at `u64::MAX`.
pub open spec fn wrap_add(x: u64, n: u64) -> u64 {
    if x + n > u64::MAX { (x + n - u64::MAX - 1) as u64 } else { (x + n) as u64 }
}

/// The latest expiry accepted at `now`.
pub open spec fn latest_expiry(now: u64, ttl: Duration) -> u64 {
    sadd(now, clamp_millis(duration_millis(ttl)))
}

/// Checks that need no authorizer: consistency, then freshness.
pub open spec fn entry_check(cfg: PeerDirectoryConfig, c: NodeModel, now: u64) -> Result<(), AiError> {
    if !ad_ok(c, cfg.max_devices_per_peer, cfg.max_artifacts_per_peer) {
        Err(AiError::InvalidInput("AI peer advertisement"))
    } else if c.captured_at_ms > now || c.expires_at_ms <= now || c.expires_at_ms > latest_expiry(now, cfg.max_ttl) {
        Err(AiError::Unauthorized)
    } else {
        Ok(())
    }
}

/// The authorization covers the advertisement's tenant and everything it donates.
pub open spec fn authorizes(c: NodeModel, a: AuthModel) -> bool {
    &&& a.authenticated
    &&& a.tenants.contains(c.tenant)
    &&& (c.compute.len() == 0 || a.allow_compute)
    &&& ((c.storage is None && c.model_artifacts.len() == 0) || a.allow_storage)
}

/// Outcome of the checks after authorization, given what the authorizer answered.
pub open spec fn admission(st: DirectoryModel, c: NodeModel, auth: Result<AuthModel, AiError>) -> Result<(), AiError> {
    match auth {
        Err(e) => Err(e),
        Ok(a) => if !authorizes(c, a) {
            Err(AiError::Unauthorized)
        } else if !holds_peer(st.peers, c.peer) && st.peers.len() >= st.config.max_peers {
            Err(AiError::Capacity("AI peer directory"))
        } else if holds_peer(st.peers, c.peer) && c.expires_at_ms <= st.peers[position(
            st.peers,
            c.peer,
        )].capabilities.expires_at_ms {
            Err(AiError::Conflict("stale AI peer advertisement"))
        } else {
            Ok(())
        },
    }
}

/// Outcome of an update, given what the authorizer answered.
pub open spec fn update_result(
    st: DirectoryModel,
    c: NodeModel,
    now: u64,
    auth: Result<AuthModel, AiError>,
) -> Result<(), AiError> {
    match entry_check(st.config, c, now) {
        Err(e) => Err(e),
        Ok(()) => admission(st, c, auth),
    }
}

/// The directory after an update, given what the authorizer answered.
pub open spec fn after_update(st: DirectoryModel, c: NodeModel, now: u64, auth: Result<AuthModel, AiError>) -> DirectoryModel {
    match update_result(st, c, now, auth) {
        Ok(()) => DirectoryModel {
            peers: upsert(st.peers, EntryModel { capabilities: c, authorization: auth->Ok_0 }),
            accepted_updates: wrap_inc(st.accepted_updates),
            ..st
        },
        Err(_) => DirectoryModel { rejected_updates: wrap_inc(st.rejected_updates), ..st },
    }
}

/// The view of an authorizer's answer.
pub open spec fn auth_view(a: Result<PeerAuthorization, AiError>) -> Result<AuthModel, AiError> {
    match a {
        Ok(x) => Ok(x@),
        Err(e) => Err(e),
    }
}

/// Entries that have not expired at `now`, in order.
pub open spec fn unexpired(s: Seq<EntryModel>, now: u64) -> Seq<EntryModel>
    decreases s.len(),
{
    if s.len() == 0 {
        seq![]
    } else if s.last().capabilities.expires_at_ms > now {
        unexpired(s.drop_last(), now).push(s.last())
    } else {
        unexpired(s.drop_last(), now)
    }
}

/// Advertisements of `tenant` that its authorization covers, in order.
pub open spec fn for_tenant(s: Seq<EntryModel>, tenant: Seq<char>) -> Seq<NodeModel>
    decreases s.len(),
{
    if s.len() == 0 {
        seq![]
    } else if s.last().authorization.tenants.contains(tenant) && s.last().capabilities.tenant == tenant {
        for_tenant(s.drop_last(), tenant).push(s.last().capabilities)
    } else {
        for_tenant(s.drop_last(), tenant)
    }
}

/// The first `n` items, or all of them when there are fewer.
pub open spec fn first_n<T>(s: Seq<T>, n: nat) -> Seq<T> {
    if n >= s.len() { s } else { s.take(n as int) }
}

/// The views of a list of advertisements.
pub open spec fn nodes_view(v: Seq<AiNodeCapabilities>) -> Seq<NodeModel> {
    v.map_values(|c: AiNodeCapabilities| c@)
}

/// Total advertised compute devices.
pub open spec fn device_total(s: Seq<EntryModel>) -> nat
    decreases s.len(),
{
    if s.len() == 0 { 0 } else { device_total(s.drop_last()) + s.last().capabilities.compute.len() }
}

/// Number of entries that donate storage.
pub open spec fn storage_peer_count(s: Seq<EntryModel>) -> nat
    decreases s.len(),
{
    if s.len() == 0 {
        0
    } else {
        storage_peer_count(s.drop_last()) + if s.last().capabilities.storage is Some { 1nat } else { 0nat }
    }
}

/// Total donated worker slots.
pub open spec fn worker_total(s: Seq<EntryModel>) -> nat
    decreases s.len(),
{
    if s.len() == 0 { 0 } else { worker_total(s.drop_last()) + s.last().capabilities.current_budget.workers as nat }
}

/// Total donated storage bytes, saturating at `u64::MAX`.
pub open spec fn storage_total(s: Seq<EntryModel>) -> u64
    decreases s.len(),
{
    if s.len() == 0 {
        0
    } else {
        sadd(storage_total(s.drop_last()), s.last().capabilities.current_budget.storage_bytes)
    }
}

/// The metrics of a directory.
pub open spec fn metrics_of(m: DirectoryModel) -> PeerDirectoryMetrics {
    PeerDirectoryMetrics {
        current_peers: m.peers.len() as usize,
        compute_devices: device_total(m.peers) as usize,
        storage_peers: storage_peer_count(m.peers) as usize,
        donated_workers: worker_total(m.peers) as usize,
        donated_storage_bytes: storage_total(m.peers),
        accepted_updates: m.accepted_updates,
        rejected_updates: m.rejected_updates,
        expired_peers: m.expired_peers,
    }
}

/// The directory after pruning the entries expired at `now`.
pub open spec fn pruned(m: DirectoryModel, now: u64) -> DirectoryModel {
    DirectoryModel {
        peers: unexpired(m.peers, now),
        expired_peers: wrap_add(m.expired_peers, (m.peers.len() - unexpired(m.peers, now).len()) as u64),
        ..m
    }
}

pub(crate) proof fn lemma_lower_bound(s: Seq<EntryModel>, key: Seq<char>, i: int)
    requires
        0 <= i <= s.len(),
    ensures
        i <= lower_bound(s, key, i) <= s.len(),
        forall|t: int| i <= t < lower_bound(s, key, i) ==> text_lt(#[trigger] s[t].capabilities.peer, key),
        lower_bound(s, key, i) < s.len() ==> !text_lt(s[lower_bound(s, key, i)].capabilities.peer, key),
    decreases s.len() - i,
{
    if i < s.len() && text_lt(s[i].capabilities.peer, key) {
        lemma_lower_bound(s, key, i + 1);
    }
}

pub(crate) proof fn lemma_upsert(s: Seq<EntryModel>, e: EntryModel)
    requires
        ascending(s),
    ensures
        ascending(upsert(s, e)),
        holds_peer(s, e.capabilities.peer) ==> upsert(s, e).len() == s.len(),
        !holds_peer(s, e.capabilities.peer) ==> upsert(s, e).len() == s.len() + 1,
        forall|k: int| 0 <= k < upsert(s, e).len() ==> (#[trigger] upsert(s, e)[k] == e || exists|t: int|
            0 <= t < s.len() && upsert(s, e)[k] == s[t]),
{
    let key = e.capabilities.peer;
    let p = position(s, key);
    lemma_lower_bound(s, key, 0);
    let r = upsert(s, e);
    if holds_peer(s, key) {
        assert forall|i: int, j: int| 0 <= i < j < r.len() implies text_lt(
            #[trigger] r[i].capabilities.peer,
            #[trigger] r[j].capabilities.peer,
        ) by {
            assert(s[i].capabilities.peer == r[i].capabilities.peer);
            assert(s[j].capabilities.peer == r[j].capabilities.peer);
        }
        assert forall|k: int| 0 <= k < r.len() implies (#[trigger] r[k] == e || exists|t: int|
            0 <= t < s.len() && r[k] == s[t]) by {
            if k != p {
                assert(r[k] == s[k]);
            }
        }
    } else {
        assert forall|t: int| p <= t < s.len() implies text_lt(key, #[trigger] s[t].capabilities.peer) by {
            lemma_text_lt_total(key, s[p].capabilities.peer);
            if t > p {
                lemma_text_lt_transitive(key, s[p].capabilities.peer, s[t].capabilities.peer);
            }
        }
        assert forall|i: int, j: int| 0 <= i < j < r.len() implies text_lt(
            #[trigger] r[i].capabilities.peer,
            #[trigger] r[j].capabilities.peer,
        ) by {
            if j < p {
                assert(r[i] == s[i] && r[j] == s[j]);
            } else if j == p {
                assert(r[i] == s[i] && r[j] == e);
            } else if i < p {
                assert(r[i] == s[i] && r[j] == s[j - 1]);
                lemma_text_lt_transitive(s[i].capabilities.peer, key, s[j - 1].capabilities.peer);
            } else if i == p {
                assert(r[i] == e && r[j] == s[j - 1]);
            } else {
                assert(r[i] == s[i - 1] && r[j] == s[j - 1]);
            }
        }
        assert forall|k: int| 0 <= k < r.len() implies (#[trigger] r[k] == e || exists|t: int|
            0 <= t < s.len() && r[k] == s[t]) by {
            if k < p {
                assert(r[k] == s[k]);
            } else if k > p {
                assert(r[k] == s[k - 1]);
            }
        }
    }
}

fn wrap_inc_exec(x: u64) -> (r: u64)
    ensures
        r == wrap_inc(x),
{
    if x == u64::MAX { 0 } else { x + 1 }
}

fn wrap_add_exec(x: u64, n: u64) -> (r: u64)
    ensures
        r == wrap_add(x, n),
{
    if n > u64::MAX - x { n - (u64::MAX - x) - 1 } else { x + n }
}

/// Index at which the entry of `key` is, or would be inserted.
fn peer_position(peers: &Vec<AuthorizedCapabilities>, key: &str) -> (r: usize)
    ensures
        r as int == position(entries_view(peers@), key@),
        r <= peers.len(),
{
    let ghost s = entries_view(peers@);
    let mut i: usize = 0;
    while i < peers.len()
        invariant
            i <= peers.len(),
            s == entries_view(peers@),
            lower_bound(s, key@, 0) == lower_bound(s, key@, i as int),
        decreases peers.len() - i,
    {
        assert(s[i as int] == peers@[i as int]@);
        if !text_before(peers[i].capabilities.peer.as_str(), key) {
            return i;
        }
        i = i + 1;
    }
    i
}

impl AuthorizedCapabilities {
    fn duplicate(&self) -> (r: Self)
        ensures
            r@ == self@,
    {
        AuthorizedCapabilities {
            capabilities: self.capabilities.duplicate(),
            authorization: self.authorization.duplicate(),
        }
    }
}

impl PeerCapabilityDirectory {
    #[verifier::type_invariant]
    spec fn well_formed(self) -> bool {
        directory_ok(self@)
    }

    /// Creates an empty bounded peer cache.
    pub fn new(config: PeerDirectoryConfig) -> (r: Result<Self, AiError>)
        ensures
            match r {
                Ok(d) => config_ok(config) && d@ == (DirectoryModel {
                    config: config,
                    peers: seq![],
                    accepted_updates: 0,
                    rejected_updates: 0,
                    expired_peers: 0,
                }),
                Err(e) => !config_ok(config) && e == AiError::InvalidInput("AI peer directory"),
            },
    {
        let ttl = nanos(config.max_ttl);
        if config.max_peers == 0 || config.max_peers > MAX_DIRECTORY_PEERS || config.max_devices_per_peer == 0
            || config.max_devices_per_peer > MAX_ADVERTISED_DEVICES || config.max_artifacts_per_peer == 0
            || config.max_artifacts_per_peer > MAX_ADVERTISED_ARTIFACTS || ttl == 0 || ttl
            > MAX_ADVERTISEMENT_TTL_NANOS {
            return Err(AiError::InvalidInput("AI peer directory"));
        }
        let d = PeerCapabilityDirectory {
            config,
            peers: Vec::new(),
            accepted_updates: 0,
            rejected_updates: 0,
            expired_peers: 0,
        };
        assert(entries_view(d.peers@) =~= seq![]);
        Ok(d)
    }

    fn entry_check_exec(&self, c: &AiNodeCapabilities, now_ms: u64) -> (r: Result<(), AiError>)
        ensures
            r == entry_check(self@.config, c@, now_ms),
    {
        if let Err(e) = c.validate(self.config.max_devices_per_peer, self.config.max_artifacts_per_peer) {
            return Err(e);
        }
        let max_expiry = now_ms.saturating_add(millis_u64(self.config.max_ttl));
        if c.captured_at_ms > now_ms || c.expires_at_ms <= now_ms || c.expires_at_ms > max_expiry {
            return Err(AiError::Unauthorized);
        }
        Ok(())
    }

    fn accept_authorized(&mut self, capabilities: AiNodeCapabilities, authorization: Result<PeerAuthorization, AiError>) -> (r: Result<(), AiError>)
        requires
            ad_ok(capabilities@, old(self)@.config.max_devices_per_peer, old(self)@.config.max_artifacts_per_peer),
        ensures
            r == admission(old(self)@, capabilities@, auth_view(authorization)),
            final(self)@ == (match r {
                Ok(()) => DirectoryModel {
                    peers: upsert(
                        old(self)@.peers,
                        EntryModel { capabilities: capabilities@, authorization: auth_view(authorization)->Ok_0 },
                    ),
                    ..old(self)@
                },
                Err(_) => old(self)@,
            }),
    {
        proof {
            use_type_invariant(&*self);
        }
        let authorization = match authorization {
            Err(e) => {
                return Err(e);
            },
            Ok(a) => a,
        };
        if !authorization.authenticated || !authorization.covers(&capabilities.tenant) || (capabilities.compute.len()
            != 0 && !authorization.allow_compute) || ((capabilities.storage.is_some()
            || capabilities.model_artifacts.len() != 0) && !authorization.allow_storage) {
            return Err(AiError::Unauthorized);
        }
        let ghost s = entries_view(self.peers@);
        let p = peer_position(&self.peers, capabilities.peer.as_str());
        let present = p < self.peers.len() && self.peers[p].capabilities.peer.same(&capabilities.peer);
        proof {
            if p < self.peers.len() {
                assert(s[p as int] == self.peers@[p as int]@);
            }
        }
        assert(present == holds_peer(s, capabilities@.peer));
        if !present && self.peers.len() >= self.config.max_peers {
            return Err(AiError::Capacity("AI peer directory"));
        }
        if present && capabilities.expires_at_ms <= self.peers[p].capabilities.expires_at_ms {
            return Err(AiError::Conflict("stale AI peer advertisement"));
        }
        let mut peers: Vec<AuthorizedCapabilities> = Vec::new();
        std::mem::swap(&mut peers, &mut self.peers);
        let entry = AuthorizedCapabilities { capabilities, authorization };
        let ghost ev = entry@;
        if present {
            peers.set(p, entry);
        } else {
            peers.insert(p, entry);
        }
        proof {
            lemma_upsert(s, ev);
            assert(entries_view(peers@) =~= upsert(s, ev));
            let u = upsert(s, ev);
            assert forall|k: int| 0 <= k < u.len() implies (#[trigger] u[k]).capabilities.compute.len()
                <= self.config.max_devices_per_peer by {
                if u[k] != ev {
                    let t = choose|t: int| 0 <= t < s.len() && u[k] == s[t];
                    assert(s[t] == s[t]);
                }
            }
        }
        std::mem::swap(&mut peers, &mut self.peers);
        Ok(())
    }

    fn count(&mut self, accepted: bool)
        ensures
            final(self)@ == (if accepted {
                DirectoryModel { accepted_updates: wrap_inc(old(self)@.accepted_updates), ..old(self)@ }
            } else {
                DirectoryModel { rejected_updates: wrap_inc(old(self)@.rejected_updates), ..old(self)@ }
            }),
    {
        proof {
            use_type_invariant(&*self);
        }
        if accepted {
            self.accepted_updates = wrap_inc_exec(self.accepted_updates);
        } else {
            self.rejected_updates = wrap_inc_exec(self.rejected_updates);
        }
    }

    /// Applies one advertisement with the answer its authorizer gave: the checks that need no
    /// authorizer first, then the authorization, the capacity and the freshness checks.
    pub fn update_with(
        &mut self,
        capabilities: AiNodeCapabilities,
        authorization: Result<PeerAuthorization, AiError>,
        now_ms: u64,
    ) -> (r: Result<(), AiError>)
        ensures
            r == update_result(old(self)@, capabilities@, now_ms, auth_view(authorization)),
            final(self)@ == after_update(old(self)@, capabilities@, now_ms, auth_view(authorization)),
    {
        let ghost c = capabilities@;
        let ghost a = auth_view(authorization);
        let result = match self.entry_check_exec(&capabilities, now_ms) {
            Err(e) => Err(e),
            Ok(()) => self.accept_authorized(capabilities, authorization),
        };
        self.count(result.is_ok());
        result
    }

    /// Replaces one peer view only after AppCore authentication and authorization. The authorizer
    /// is consulted only for an advertisement that passes the checks needing none.
    pub fn update(
        &mut self,
        capabilities: AiNodeCapabilities,
        authorizer: &dyn PeerCapabilityAuthorizer,
        now_ms: u64,
    ) -> (r: Result<(), AiError>)
        ensures
            exists|a: Result<AuthModel, AiError>|
                #![trigger update_result(old(self)@, capabilities@, now_ms, a)]
                (entry_check(old(self)@.config, capabilities@, now_ms) is Ok ==> authorizer.answers(capabilities@, a))
                && r == update_result(old(self)@, capabilities@, now_ms, a) && final(self)@ == after_update(
                    old(self)@,
                    capabilities@,
                    now_ms,
                    a,
                ),
            entry_check(old(self)@.config, capabilities@, now_ms) matches Err(e) ==> r == Err::<(), AiError>(e)
                && final(self)@ == (DirectoryModel {
                rejected_updates: wrap_inc(old(self)@.rejected_updates),
                ..old(self)@
            }),
    {
        let ghost c = capabilities@;
        let ghost mut witness: Result<AuthModel, AiError> = Err(AiError::Unauthorized);
        let result = match self.entry_check_exec(&capabilities, now_ms) {
            Err(e) => Err(e),
            Ok(()) => {
                let authorization = authorizer.authorize(&capabilities);
                proof {
                    witness = auth_view(authorization);
                }
                self.accept_authorized(capabilities, authorization)
            },
        };
        self.count(result.is_ok());
        assert(result == update_result(old(self)@, c, now_ms, witness));
        assert(entry_check(old(self)@.config, c, now_ms) is Ok ==> authorizer.answers(c, witness));
        assert(self@ == after_update(old(self)@, c, now_ms, witness));
        assert((entry_check(old(self)@.config, c, now_ms) is Ok ==> authorizer.answers(c, witness)) && result
            == update_result(old(self)@, c, now_ms, witness) && self@ == after_update(old(self)@, c, now_ms, witness));
        result
    }

    /// Returns stable authorized, live tenant views and prunes expired entries.
    pub fn live(&mut self, tenant: &CapabilityId, now_ms: u64, limit: usize) -> (r: Result<Vec<AiNodeCapabilities>, AiError>)
        ensures
            if limit == 0 || limit > old(self)@.config.max_peers {
                r matches Err(e) && e == AiError::InvalidInput("AI peer query limit") && final(self)@ == old(self)@
            } else {
                &&& final(self)@ == pruned(old(self)@, now_ms)
                &&& r matches Ok(v) && nodes_view(v@) == first_n(
                    for_tenant(unexpired(old(self)@.peers, now_ms), tenant@),
                    limit as nat,
                )
            },
    {
        proof {
            use_type_invariant(&*self);
        }
        if limit == 0 || limit > self.config.max_peers {
            return Err(AiError::InvalidInput("AI peer query limit"));
        }
        let ghost cfg = self.config;
        let mut old_peers: Vec<AuthorizedCapabilities> = Vec::new();
        std::mem::swap(&mut old_peers, &mut self.peers);
        let ghost s = entries_view(old_peers@);
        let mut kept: Vec<AuthorizedCapabilities> = Vec::new();
        let mut i: usize = 0;
        assert(s.take(0) =~= seq![]);
        assert(entries_view(kept@) =~= seq![]);
        while i < old_peers.len()
            invariant
                i <= old_peers.len(),
                s == entries_view(old_peers@),
                s.len() <= cfg.max_peers,
                ascending(s),
                forall|t: int| 0 <= t < s.len() ==> (#[trigger] s[t]).capabilities.compute.len()
                    <= cfg.max_devices_per_peer,
                entries_view(kept@) == unexpired(s.take(i as int), now_ms),
                kept.len() <= i,
                ascending(entries_view(kept@)),
                forall|x: int, b: int| 0 <= x < kept.len() && i <= b < s.len() ==> text_lt(
                    #[trigger] entries_view(kept@)[x].capabilities.peer,
                    #[trigger] s[b].capabilities.peer,
                ),
                forall|x: int| 0 <= x < kept.len() ==> (#[trigger] entries_view(kept@)[x]).capabilities.compute.len()
                    <= cfg.max_devices_per_peer,
            decreases old_peers.len() - i,
        {
            assert(s[i as int] == old_peers@[i as int]@);
            assert(s.take(i + 1).drop_last() =~= s.take(i as int));
            assert(s.take(i + 1).last() == s[i as int]);
            if old_peers[i].capabilities.expires_at_ms > now_ms {
                let e = old_peers[i].duplicate();
                let ghost before = entries_view(kept@);
                kept.push(e);
                proof {
                    assert(entries_view(kept@) =~= before.push(s[i as int]));
                    let kv = entries_view(kept@);
                    assert forall|x: int, y: int| 0 <= x < y < kv.len() implies text_lt(
                        #[trigger] kv[x].capabilities.peer,
                        #[trigger] kv[y].capabilities.peer,
                    ) by {
                        if y == kv.len() - 1 {
                            assert(kv[x] == before[x]);
                        } else {
                            assert(kv[x] == before[x] && kv[y] == before[y]);
                        }
                    }
                    assert forall|x: int, b: int| 0 <= x < kv.len() && i + 1 <= b < s.len() implies text_lt(
                        #[trigger] kv[x].capabilities.peer,
                        #[trigger] s[b].capabilities.peer,
                    ) by {
                        if x < before.len() {
                            assert(kv[x] == before[x]);
                        }
                    }
                    assert forall|x: int| 0 <= x < kv.len() implies (#[trigger] kv[x]).capabilities.compute.len()
                        <= cfg.max_devices_per_peer by {
                        if x < before.len() {
                            assert(kv[x] == before[x]);
                        }
                    }
                }
            }
            i = i + 1;
        }
        assert(s.take(old_peers.len() as int) =~= s);
        let removed = old_peers.len() - kept.len();
        std::mem::swap(&mut kept, &mut self.peers);
        self.expired_peers = wrap_add_exec(self.expired_peers, removed as u64);
        let ghost u = entries_view(self.peers@);
        let mut out: Vec<AiNodeCapabilities> = Vec::new();
        let mut j: usize = 0;
        assert(u.take(0) =~= seq![]);
        assert(nodes_view(out@) =~= seq![]);
        while j < self.peers.len()
            invariant
                j <= self.peers.len(),
                1 <= limit,
                u == entries_view(self.peers@),
                out.len() <= limit,
                nodes_view(out@) == first_n(for_tenant(u.take(j as int), tenant@), limit as nat),
            decreases self.peers.len() - j,
        {
            let e = &self.peers[j];
            assert(u[j as int] == e@);
            let ghost f = for_tenant(u.take(j as int), tenant@);
            assert(u.take(j + 1).drop_last() =~= u.take(j as int));
            assert(u.take(j + 1).last() == u[j as int]);
            if e.authorization.covers(tenant) && e.capabilities.tenant.same(tenant) {
                let ghost g = f.push(e.capabilities@);
                assert(for_tenant(u.take(j + 1), tenant@) == g);
                if out.len() < limit {
                    let c = e.capabilities.duplicate();
                    let ghost before = nodes_view(out@);
                    out.push(c);
                    proof {
                        assert(before == f);
                        assert(nodes_view(out@) =~= g);
                    }
                } else {
                    proof {
                        assert(f.len() >= limit);
                        assert(g.take(limit as int) =~= f.take(limit as int));
                    }
                }
            }
            j = j + 1;
        }
        assert(u.take(self.peers.len() as int) =~= u);
        Ok(out)
    }

    /// Returns aggregate peer availability and contribution metrics.
    pub fn metrics(&self) -> (r: Result<PeerDirectoryMetrics, AiError>)
        requires
            worker_total(self@.peers) <= usize::MAX,
        ensures
            r == Ok::<PeerDirectoryMetrics, AiError>(metrics_of(self@)),
    {
        proof {
            use_type_invariant(self);
        }
        let ghost s = self@.peers;
        let mut devices: usize = 0;
        let mut storage_peers: usize = 0;
        let mut workers: usize = 0;
        let mut storage_bytes: u64 = 0;
        let mut i: usize = 0;
        while i < self.peers.len()
            invariant
                i <= self.peers.len(),
                s == entries_view(self.peers@),
                s.len() <= MAX_DIRECTORY_PEERS,
                forall|t: int| 0 <= t < s.len() ==> (#[trigger] s[t]).capabilities.compute.len() <= MAX_ADVERTISED_DEVICES,
                worker_total(s) <= usize::MAX,
                devices == device_total(s.take(i as int)),
                devices <= i * MAX_ADVERTISED_DEVICES,
                storage_peers == storage_peer_count(s.take(i as int)),
                storage_peers <= i,
                workers == worker_total(s.take(i as int)),
                storage_bytes == storage_total(s.take(i as int)),
            decreases self.peers.len() - i,
        {
            let e = &self.peers[i];
            assert(s[i as int] == e@);
            assert(s.take(i + 1).drop_last() =~= s.take(i as int));
            assert(s.take(i + 1).last() == s[i as int]);
            proof {
                lemma_worker_prefix(s, i + 1);
            }
            devices = devices + e.capabilities.compute.len();
            if e.capabilities.storage.is_some() {
                storage_peers = storage_peers + 1;
            }
            workers = workers + e.capabilities.current_budget.workers;
            storage_bytes = storage_bytes.saturating_add(e.capabilities.current_budget.storage_bytes);
            i = i + 1;
        }
        assert(s.take(self.peers.len() as int) =~= s);
        Ok(PeerDirectoryMetrics {
            current_peers: self.peers.len(),
            compute_devices: devices,
            storage_peers,
            donated_workers: workers,
            donated_storage_bytes: storage_bytes,
            accepted_updates: self.accepted_updates,
            rejected_updates: self.rejected_updates,
            expired_peers: self.expired_peers,
        })
    }
}

proof fn lemma_worker_prefix(s: Seq<EntryModel>, i: int)
    requires
        0 <= i <= s.len(),
    ensures
        worker_total(s.take(i)) <= worker_total(s),
    decreases s.len() - i,
{
    if i == s.len() {
        assert(s.take(i) =~= s);
    } else {
        lemma_worker_prefix(s, i + 1);
        assert(s.take(i + 1).drop_last() =~= s.take(i));
    }
}

} // verus!
