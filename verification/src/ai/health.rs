use vstd::prelude::*;

verus! {

/// Backend counts by health.
#[derive(Clone, Copy, Debug, Default, PartialEq, Eq, Structural)]
pub struct BackendRegistrySnapshot {
    /// Healthy backends.
    pub healthy: usize,
    /// Degraded but usable backends.
    pub degraded: usize,
}

/// Model counts by routable state.
#[derive(Clone, Copy, Debug, Default, PartialEq, Eq, Structural)]
pub struct ModelRegistrySnapshot {
    /// Registered models that can be loaded.
    pub available: usize,
    /// Loaded models.
    pub ready: usize,
}

/// Aggregate component health used by composition and supervisor adapters.
#[derive(Clone, Copy, Debug, Default, PartialEq, Eq, Structural)]
pub struct AiRuntimeHealth {
    /// Backend state.
    pub backends: BackendRegistrySnapshot,
    /// Model registry state.
    pub models: ModelRegistrySnapshot,
}

impl AiRuntimeHealth {
    /// Whether at least one usable backend and one routable model exist.
    pub fn is_available(self) -> (r: bool)
        ensures
            r == (self.backends.healthy + self.backends.degraded > 0 && self.models.available + self.models.ready > 0),
    {
        self.backends.healthy.saturating_add(self.backends.degraded) > 0
            && self.models.available.saturating_add(self.models.ready) > 0
    }
}

} // verus!
