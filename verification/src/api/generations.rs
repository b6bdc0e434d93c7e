use vstd::prelude::*;

verus! {

/// Hard owner limit: one active generation and one retiring generation.
pub const MAX_RETAINED_GENERATIONS: usize = 2;

/// Request-free view of one routing generation.
#[derive(Debug, Clone, Copy, PartialEq, Eq, Structural)]
pub struct HttpRoutingGenerationSnapshot {
    /// Monotonic identifier assigned by the composition root.
    pub generation: u64,
    /// Whether this generation can admit a new request.
    pub accepting: bool,
    /// Requests that currently retain this generation.
    pub inflight: usize,
}

/// Request-free view of the generations a reloadable host retains.
#[derive(Debug, Clone, Copy, PartialEq, Eq, Structural)]
pub struct HttpRoutingGenerationsSnapshot {
    /// Generation selected for new requests.
    pub active: HttpRoutingGenerationSnapshot,
    /// Previous or failed generation retained only until its requests finish.
    pub retiring: Option<HttpRoutingGenerationSnapshot>,
    /// Number of generations retained by the reload owner.
    pub retained_generations: usize,
    /// Hard owner limit: one active generation and one retiring generation.
    pub max_retained_generations: usize,
}

/// The retained generations as reported: a retiring slot that holds the active generation
/// itself is not reported twice.
pub open spec fn generations_view(
    active: HttpRoutingGenerationSnapshot,
    retiring: Option<HttpRoutingGenerationSnapshot>,
) -> HttpRoutingGenerationsSnapshot {
    let shown = match retiring {
        Some(r) => if r.generation != active.generation { Some(r) } else { None },
        None => None,
    };
    HttpRoutingGenerationsSnapshot {
        active,
        retiring: shown,
        retained_generations: if shown is Some { 2 } else { 1 },
        max_retained_generations: MAX_RETAINED_GENERATIONS,
    }
}

/// Builds the report of the retained generations.
pub fn generations_snapshot(
    active: HttpRoutingGenerationSnapshot,
    retiring: Option<HttpRoutingGenerationSnapshot>,
) -> (r: HttpRoutingGenerationsSnapshot)
    ensures
        r == generations_view(active, retiring),
        r.retained_generations <= r.max_retained_generations,
{
    let shown = match retiring {
        Some(r) => if r.generation != active.generation { Some(r) } else { None },
        None => None,
    };
    let retained: usize = if shown.is_some() { 2 } else { 1 };
    HttpRoutingGenerationsSnapshot {
        active,
        retiring: shown,
        retained_generations: retained,
        max_retained_generations: MAX_RETAINED_GENERATIONS,
    }
}

} // verus!
