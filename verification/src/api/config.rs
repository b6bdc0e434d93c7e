use crate::text::owned;
use vstd::prelude::*;

verus! {

/// Listener settings of the embedded HTTP API.
#[derive(Debug, Clone, PartialEq, Eq)]
pub struct HttpApiConfig {
    /// Interface or address to bind.
    pub host: String,
    /// TCP port to bind.
    pub port: u16,
    /// Whether the embedded listener should run.
    pub enabled: bool,
    /// Maximum accepted request body size in bytes.
    pub max_payload_bytes: usize,
}

impl Default for HttpApiConfig {
    /// Loopback on port 8080, disabled, with a 64 KiB body bound.
    fn default() -> (r: Self)
        ensures
            r.host@ == "127.0.0.1"@,
            r.port == 8080,
            !r.enabled,
            r.max_payload_bytes == 65_536,
    {
        HttpApiConfig { host: owned("127.0.0.1"), port: 8080, enabled: false, max_payload_bytes: 65_536 }
    }
}

/// Static facts about the running node that status queries report.
#[derive(Debug, Clone, PartialEq, Eq)]
pub struct RuntimeStaticInfo {
    /// Application identity hosted by this process.
    pub app_id: String,
    /// Runtime node identity.
    pub node_id: String,
    /// Tenant isolation boundary.
    pub tenant_id: String,
    /// Cluster isolation boundary.
    pub cluster_id: String,
    /// Logical Core identity.
    pub core_id: String,
    /// Initial operational-mode label.
    pub operation_mode: String,
    /// Storage provider health label.
    pub storage_status: String,
    /// Whether required security material initialized successfully.
    pub security_ok: bool,
    /// Whether HTTP ingress is enabled.
    pub api_enabled: bool,
    /// Whether synchronization is enabled.
    pub sync_enabled: bool,
    /// Local synchronization role.
    pub sync_role: String,
    /// Number of records currently visible in the sync log.
    pub sync_log_len: usize,
    /// Optional sync-log path for local diagnostics.
    pub sync_log_path: Option<String>,
    /// Optional sync-checkpoint path for local diagnostics.
    pub sync_checkpoint_path: Option<String>,
    /// Configured peer addresses without credentials.
    pub sync_peers: Vec<String>,
    /// Whether DNS peer discovery is enabled.
    pub sync_dns_enabled: bool,
    /// Configured DNS peer seeds.
    pub sync_dns_seeds: Vec<String>,
    /// Default port applied to DNS seeds.
    pub sync_dns_default_port: u16,
    /// Idempotency retention window in milliseconds.
    pub idempotency_ttl_ms: u64,
    /// Optional idempotency-store path for local diagnostics.
    pub idempotency_path: Option<String>,
}

/// Why a capability policy refused an invocation.
#[derive(Debug, Clone, PartialEq, Eq)]
pub enum CommandCapabilityPolicyError {
    /// The invocation has no declared capability descriptor.
    CapabilityNotDeclared,
    /// The capability requires an idempotency key.
    MissingIdempotencyKey,
    /// The capability requires service leadership.
    RequiresLeader,
    /// The applicable service lease has expired.
    LeaseExpired,
    /// The request uses an obsolete fencing epoch.
    StaleEpoch,
    /// Current operational policy permits reads only.
    ReadOnly,
    /// Provider-specific policy rejected the invocation.
    Rejected(String),
}

/// Application policy consulted before a command or query is dispatched.
pub trait CommandCapabilityPolicy: Send + Sync {
    /// Authorizes a named command at `now_ms`.
    fn authorize_command(
        &self,
        command_name: &str,
        idempotency_key: Option<&str>,
        now_ms: u64,
    ) -> Result<(), CommandCapabilityPolicyError>;

    /// Authorizes a named application query at `now_ms`; every query is allowed unless overridden.
    fn authorize_query(&self, query_name: &str, now_ms: u64) -> (r: Result<(), CommandCapabilityPolicyError>)
        default_ensures
            r is Ok,
    {
        Ok(())
    }
}

/// Read-only view of the replication log length.
pub trait SyncLogView: Send + Sync {
    /// The number of visible replication records.
    spec fn visible_len(&self) -> nat;

    /// Returns the number of visible replication records.
    fn len(&self) -> (r: usize)
        ensures
            r == self.visible_len(),
    ;

    /// Reports whether no replication records are visible.
    fn is_empty(&self) -> (r: bool)
        ensures
            r == (self.visible_len() == 0),
    {
        self.len() == 0
    }
}

} // verus!
