use crate::ai::kinds::{AiLatencyClass, AiPriority, AiResourceMode, BackendHealth};
use crate::ai::placement::{
    PlacementCandidate, PlacementContext, PlacementMetrics, PlacementRejectionReason, SchedulerWeights,
};
use crate::durations::{clamp_millis, duration_millis, millis_u64};
use vstd::prelude::*;

verus! {

/// `a + b`, saturating at `u64::MAX`.
pub open spec fn sadd(a: u64, b: u64) -> u64 {
    if a + b > u64::MAX { u64::MAX } else { (a + b) as u64 }
}

/// `a * b`, saturating at `u64::MAX`.
pub open spec fn smul(a: u64, b: u64) -> u64 {
    if a * b > u64::MAX { u64::MAX } else { (a * b) as u64 }
}

/// `a - b`, saturating at zero.
pub open spec fn ssub(a: u64, b: u64) -> u64 {
    if a < b { 0 } else { (a - b) as u64 }
}

/// Saturating multiplication.
pub fn sat_mul(a: u64, b: u64) -> (r: u64)
    ensures
        r == smul(a, b),
{
    match a.checked_mul(b) {
        Some(x) => x,
        None => u64::MAX,
    }
}

/// Milliseconds that a route is expected to take before answering.
pub open spec fn expected_ms(candidate: PlacementCandidate, metrics: PlacementMetrics) -> u64 {
    sadd(
        sadd(
            match metrics.latency_ema_ms {
                Some(l) => l,
                None => 0,
            },
            if candidate.model_resident { 0 } else { candidate.load_time_ms },
        ),
        match candidate.rtt_ms {
            Some(r) => r,
            None => 0,
        },
    )
}

/// Why a route must be excluded, checks taken in order, or `None` when it is admitted.
pub open spec fn rejection(
    context: PlacementContext,
    candidate: PlacementCandidate,
    metrics: PlacementMetrics,
) -> Option<PlacementRejectionReason> {
    if candidate.health == BackendHealth::Unavailable {
        Some(PlacementRejectionReason::Unavailable)
    } else if candidate.key@.target is RemotePeer && (!context.allow_remote || !candidate.trusted
        || match candidate.rtt_ms {
        None => true,
        Some(rtt) => rtt > clamp_millis(duration_millis(context.max_remote_latency)),
    }) {
        Some(PlacementRejectionReason::Policy)
    } else if metrics.available_memory_bytes matches Some(a) && candidate.resources.memory_bytes > a {
        Some(PlacementRejectionReason::Memory)
    } else if metrics.available_vram_bytes matches Some(a) && candidate.resources.vram_bytes > a {
        Some(PlacementRejectionReason::Vram)
    } else if context.deadline_remaining matches Some(d) && expected_ms(candidate, metrics)
        > clamp_millis(duration_millis(d)) {
        Some(PlacementRejectionReason::Deadline)
    } else if context.pressure_limited && !(context.resource_mode is Unrestricted)
        && context.priority != AiPriority::Critical && (metrics.load_percent matches Some(l) && l >= 90) {
        Some(PlacementRejectionReason::Pressure)
    } else {
        None
    }
}

/// Multiplier of latency terms for a latency class.
pub open spec fn latency_weight(c: AiLatencyClass) -> u64 {
    match c {
        AiLatencyClass::Interactive => 4,
        AiLatencyClass::Balanced => 2,
        AiLatencyClass::Throughput => 1,
        AiLatencyClass::Background => 1,
    }
}

/// Multiplier of the throughput reward for a latency class.
pub open spec fn throughput_weight(c: AiLatencyClass) -> u64 {
    match c {
        AiLatencyClass::Interactive => 1,
        AiLatencyClass::Balanced => 2,
        AiLatencyClass::Throughput => 4,
        AiLatencyClass::Background => 1,
    }
}

/// Divisor of queue and latency penalties for a priority.
pub open spec fn priority_divisor(p: AiPriority) -> u64 {
    match p {
        AiPriority::Background => 1,
        AiPriority::Normal => 2,
        AiPriority::High => 4,
        AiPriority::Critical => 8,
    }
}

/// Divisor of the cold-load penalty for a resource mode.
pub open spec fn mode_divisor(m: AiResourceMode) -> u64 {
    match m {
        AiResourceMode::Eco => 1,
        AiResourceMode::Balanced => 2,
        AiResourceMode::Custom(_) => 2,
        AiResourceMode::Performance => 4,
        AiResourceMode::Unrestricted => 8,
    }
}

/// Load penalty: utilization (50 when unknown) times its weight.
pub open spec fn load_term(w: SchedulerWeights, metrics: PlacementMetrics) -> u64 {
    smul(
        match metrics.load_percent {
            Some(l) => l as u64,
            None => 50,
        },
        w.load,
    )
}

/// Queue penalty, divided by the priority divisor.
pub open spec fn queue_term(w: SchedulerWeights, context: PlacementContext, metrics: PlacementMetrics) -> u64 {
    smul(metrics.queue_depth as u64, w.queue) / priority_divisor(context.priority)
}

/// Latency penalty (100 ms when unknown), scaled by latency class and divided by priority.
pub open spec fn latency_term(w: SchedulerWeights, context: PlacementContext, metrics: PlacementMetrics) -> u64 {
    smul(
        smul(
            match metrics.latency_ema_ms {
                Some(l) => l,
                None => 100,
            },
            w.latency,
        ),
        latency_weight(context.latency_class),
    ) / priority_divisor(context.priority)
}

/// Cold-activation penalty, divided by the resource-mode divisor; none when resident.
pub open spec fn cold_term(w: SchedulerWeights, context: PlacementContext, candidate: PlacementCandidate) -> u64 {
    if candidate.model_resident {
        0
    } else {
        smul(candidate.load_time_ms, w.cold_load) / mode_divisor(context.resource_mode)
    }
}

/// Remote round-trip penalty, scaled by latency class.
pub open spec fn rtt_term(w: SchedulerWeights, context: PlacementContext, candidate: PlacementCandidate) -> u64 {
    smul(
        smul(
            match candidate.rtt_ms {
                Some(r) => r,
                None => 0,
            },
            w.remote_latency,
        ),
        latency_weight(context.latency_class),
    )
}

/// Sum of the penalties of a route, before rewards.
pub open spec fn penalty(
    w: SchedulerWeights,
    context: PlacementContext,
    candidate: PlacementCandidate,
    metrics: PlacementMetrics,
) -> u64 {
    let t3 = sadd(sadd(load_term(w, metrics), queue_term(w, context, metrics)), latency_term(w, context, metrics));
    let t6 = sadd(
        sadd(sadd(t3, cold_term(w, context, candidate)), smul(candidate.transfer_cost_units, w.transfer)),
        smul(candidate.inference_cost_units, w.inference),
    );
    let t7 = sadd(t6, rtt_term(w, context, candidate));
    let t8 = if context.prefer_local && candidate.key@.target is RemotePeer {
        sadd(t7, w.local_preference)
    } else {
        t7
    };
    let t9 = sadd(t8, smul(candidate.failover_cost_units, w.failover));
    if candidate.health == BackendHealth::Degraded {
        sadd(t9, w.degraded)
    } else {
        t9
    }
}

/// Reward of a route: residency plus weighted throughput.
pub open spec fn reward(w: SchedulerWeights, context: PlacementContext, candidate: PlacementCandidate, metrics: PlacementMetrics) -> u64 {
    sadd(
        if candidate.model_resident { w.residency_reward } else { 0 },
        smul(
            smul(
                match metrics.throughput_ema {
                    Some(t) => t,
                    None => 0,
                },
                w.throughput_reward,
            ),
            throughput_weight(context.latency_class),
        ),
    )
}

/// Lower-is-better cost of an admitted route.
pub open spec fn cost(
    w: SchedulerWeights,
    context: PlacementContext,
    candidate: PlacementCandidate,
    metrics: PlacementMetrics,
) -> u64 {
    ssub(penalty(w, context, candidate, metrics), reward(w, context, candidate, metrics))
}

/// Why the route must be excluded, if it must.
pub fn reject(context: PlacementContext, candidate: &PlacementCandidate, metrics: PlacementMetrics) -> (r: Option<
    PlacementRejectionReason,
>)
    ensures
        r == rejection(context, *candidate, metrics),
{
    if candidate.health == BackendHealth::Unavailable {
        return Some(PlacementRejectionReason::Unavailable);
    }
    if candidate.key.target.is_remote() {
        let policy_denied = if !context.allow_remote || !candidate.trusted {
            true
        } else {
            match candidate.rtt_ms {
                None => true,
                Some(rtt) => rtt > millis_u64(context.max_remote_latency),
            }
        };
        if policy_denied {
            return Some(PlacementRejectionReason::Policy);
        }
    }
    match metrics.available_memory_bytes {
        Some(a) => {
            if candidate.resources.memory_bytes > a {
                return Some(PlacementRejectionReason::Memory);
            }
        },
        None => {},
    }
    match metrics.available_vram_bytes {
        Some(a) => {
            if candidate.resources.vram_bytes > a {
                return Some(PlacementRejectionReason::Vram);
            }
        },
        None => {},
    }
    let latency = match metrics.latency_ema_ms {
        Some(l) => l,
        None => 0,
    };
    let load = if candidate.model_resident { 0 } else { candidate.load_time_ms };
    let rtt = match candidate.rtt_ms {
        Some(r) => r,
        None => 0,
    };
    let expected = latency.saturating_add(load).saturating_add(rtt);
    match context.deadline_remaining {
        Some(d) => {
            if expected > millis_u64(d) {
                return Some(PlacementRejectionReason::Deadline);
            }
        },
        None => {},
    }
    let unrestricted = match context.resource_mode {
        AiResourceMode::Unrestricted => true,
        _ => false,
    };
    let critical = match context.priority {
        AiPriority::Critical => true,
        _ => false,
    };
    let heavy = match metrics.load_percent {
        Some(l) => l >= 90,
        None => false,
    };
    if context.pressure_limited && !unrestricted && heavy && !critical {
        return Some(PlacementRejectionReason::Pressure);
    }
    None
}

fn latency_multiplier(c: AiLatencyClass) -> (r: u64)
    ensures
        r == latency_weight(c),
{
    match c {
        AiLatencyClass::Interactive => 4,
        AiLatencyClass::Balanced => 2,
        AiLatencyClass::Throughput => 1,
        AiLatencyClass::Background => 1,
    }
}

fn throughput_multiplier(c: AiLatencyClass) -> (r: u64)
    ensures
        r == throughput_weight(c),
{
    match c {
        AiLatencyClass::Interactive => 1,
        AiLatencyClass::Balanced => 2,
        AiLatencyClass::Throughput => 4,
        AiLatencyClass::Background => 1,
    }
}

fn priority_div(p: AiPriority) -> (r: u64)
    ensures
        r == priority_divisor(p),
        r >= 1,
{
    match p {
        AiPriority::Background => 1,
        AiPriority::Normal => 2,
        AiPriority::High => 4,
        AiPriority::Critical => 8,
    }
}

fn mode_div(m: AiResourceMode) -> (r: u64)
    ensures
        r == mode_divisor(m),
        r >= 1,
{
    match m {
        AiResourceMode::Eco => 1,
        AiResourceMode::Balanced => 2,
        AiResourceMode::Custom(_) => 2,
        AiResourceMode::Performance => 4,
        AiResourceMode::Unrestricted => 8,
    }
}

fn load_and_queue(w: SchedulerWeights, context: PlacementContext, metrics: PlacementMetrics) -> (r: u64)
    ensures
        r == sadd(sadd(load_term(w, metrics), queue_term(w, context, metrics)), latency_term(w, context, metrics)),
{
    let load: u64 = match metrics.load_percent {
        Some(l) => l as u64,
        None => 50,
    };
    let pd = priority_div(context.priority);
    let t1 = sat_mul(load, w.load);
    let q = sat_mul(metrics.queue_depth as u64, w.queue) / pd;
    let latency = match metrics.latency_ema_ms {
        Some(l) => l,
        None => 100,
    };
    let l = sat_mul(sat_mul(latency, w.latency), latency_multiplier(context.latency_class)) / pd;
    t1.saturating_add(q).saturating_add(l)
}

fn work_terms(w: SchedulerWeights, context: PlacementContext, candidate: &PlacementCandidate) -> (r: (u64, u64))
    ensures
        r.0 == cold_term(w, context, *candidate),
        r.1 == rtt_term(w, context, *candidate),
{
    let cold = if candidate.model_resident {
        0
    } else {
        sat_mul(candidate.load_time_ms, w.cold_load) / mode_div(context.resource_mode)
    };
    let rtt = match candidate.rtt_ms {
        Some(r) => r,
        None => 0,
    };
    (cold, sat_mul(sat_mul(rtt, w.remote_latency), latency_multiplier(context.latency_class)))
}

fn penalty_of(w: SchedulerWeights, context: PlacementContext, candidate: &PlacementCandidate, metrics: PlacementMetrics) -> (r: u64)
    ensures
        r == penalty(w, context, *candidate, metrics),
{
    let t3 = load_and_queue(w, context, metrics);
    let (cold, rtt) = work_terms(w, context, candidate);
    let t6 = t3.saturating_add(cold).saturating_add(sat_mul(candidate.transfer_cost_units, w.transfer)).saturating_add(
        sat_mul(candidate.inference_cost_units, w.inference),
    );
    let t7 = t6.saturating_add(rtt);
    let t8 = if context.prefer_local && candidate.key.target.is_remote() {
        t7.saturating_add(w.local_preference)
    } else {
        t7
    };
    let t9 = t8.saturating_add(sat_mul(candidate.failover_cost_units, w.failover));
    if candidate.health == BackendHealth::Degraded {
        t9.saturating_add(w.degraded)
    } else {
        t9
    }
}

/// Lower-is-better saturating cost of an admitted route.
pub fn score(
    weights: SchedulerWeights,
    context: PlacementContext,
    candidate: &PlacementCandidate,
    metrics: PlacementMetrics,
) -> (r: u64)
    ensures
        r == cost(weights, context, *candidate, metrics),
{
    let total = penalty_of(weights, context, candidate, metrics);
    let residency = if candidate.model_resident { weights.residency_reward } else { 0 };
    let throughput = match metrics.throughput_ema {
        Some(t) => t,
        None => 0,
    };
    let gain = residency.saturating_add(
        sat_mul(sat_mul(throughput, weights.throughput_reward), throughput_multiplier(context.latency_class)),
    );
    total.saturating_sub(gain)
}

/// Fixed-point moving average of two optional observations with weight `alpha` in basis points.
pub open spec fn ema_of(previous: Option<u64>, sample: Option<u64>, alpha: u16) -> Option<u64> {
    match (previous, sample) {
        (Some(p), Some(s)) => Some(
            (sadd(smul(p, (10_000 - alpha) as u64), smul(s, alpha as u64)) / 10_000) as u64,
        ),
        (_, Some(s)) => Some(s),
        (p, None) => p,
    }
}

/// The first of two options that holds a value.
pub open spec fn first_of<T>(a: Option<T>, b: Option<T>) -> Option<T> {
    match a {
        Some(x) => Some(x),
        None => b,
    }
}

/// A learned record updated with a new sample.
pub open spec fn merged(previous: PlacementMetrics, sample: PlacementMetrics, alpha: u16) -> PlacementMetrics {
    PlacementMetrics {
        load_percent: first_of(sample.load_percent, previous.load_percent),
        queue_depth: sample.queue_depth,
        available_memory_bytes: first_of(sample.available_memory_bytes, previous.available_memory_bytes),
        available_vram_bytes: first_of(sample.available_vram_bytes, previous.available_vram_bytes),
        latency_ema_ms: ema_of(previous.latency_ema_ms, sample.latency_ema_ms, alpha),
        throughput_ema: ema_of(previous.throughput_ema, sample.throughput_ema, alpha),
    }
}

/// Current metrics completed by learned ones; learned averages take precedence.
pub open spec fn overlaid(current: PlacementMetrics, learned: PlacementMetrics) -> PlacementMetrics {
    PlacementMetrics {
        load_percent: first_of(current.load_percent, learned.load_percent),
        queue_depth: current.queue_depth,
        available_memory_bytes: first_of(current.available_memory_bytes, learned.available_memory_bytes),
        available_vram_bytes: first_of(current.available_vram_bytes, learned.available_vram_bytes),
        latency_ema_ms: first_of(learned.latency_ema_ms, current.latency_ema_ms),
        throughput_ema: first_of(learned.throughput_ema, current.throughput_ema),
    }
}

/// Fixed-point moving average.
pub fn ema(previous: Option<u64>, sample: Option<u64>, alpha: u16) -> (r: Option<u64>)
    requires
        alpha <= 10_000,
    ensures
        r == ema_of(previous, sample, alpha),
{
    match (previous, sample) {
        (Some(p), Some(s)) => {
            let keep = (10_000 - alpha) as u64;
            Some(sat_mul(p, keep).saturating_add(sat_mul(s, alpha as u64)) / 10_000)
        },
        (_, Some(s)) => Some(s),
        (p, None) => p,
    }
}

/// A learned record updated with a new sample.
pub fn merge_metrics(previous: PlacementMetrics, sample: PlacementMetrics, alpha: u16) -> (r: PlacementMetrics)
    requires
        alpha <= 10_000,
    ensures
        r == merged(previous, sample, alpha),
{
    PlacementMetrics {
        load_percent: if sample.load_percent.is_some() { sample.load_percent } else { previous.load_percent },
        queue_depth: sample.queue_depth,
        available_memory_bytes: if sample.available_memory_bytes.is_some() {
            sample.available_memory_bytes
        } else {
            previous.available_memory_bytes
        },
        available_vram_bytes: if sample.available_vram_bytes.is_some() {
            sample.available_vram_bytes
        } else {
            previous.available_vram_bytes
        },
        latency_ema_ms: ema(previous.latency_ema_ms, sample.latency_ema_ms, alpha),
        throughput_ema: ema(previous.throughput_ema, sample.throughput_ema, alpha),
    }
}

/// Current metrics completed by learned ones.
pub fn overlay(current: PlacementMetrics, learned: PlacementMetrics) -> (r: PlacementMetrics)
    ensures
        r == overlaid(current, learned),
{
    PlacementMetrics {
        load_percent: if current.load_percent.is_some() { current.load_percent } else { learned.load_percent },
        queue_depth: current.queue_depth,
        available_memory_bytes: if current.available_memory_bytes.is_some() {
            current.available_memory_bytes
        } else {
            learned.available_memory_bytes
        },
        available_vram_bytes: if current.available_vram_bytes.is_some() {
            current.available_vram_bytes
        } else {
            learned.available_vram_bytes
        },
        latency_ema_ms: if learned.latency_ema_ms.is_some() { learned.latency_ema_ms } else { current.latency_ema_ms },
        throughput_ema: if learned.throughput_ema.is_some() { learned.throughput_ema } else { current.throughput_ema },
    }
}

} // verus!
