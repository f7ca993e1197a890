//! Builders for the control-plane responses: the root descriptor, the
//! health report, the metrics report and the send-event acknowledgement.
//! Each builder pins every field of its response; the `*_check` functions
//! also read the host's memory snapshot, whose values depend on the
//! machine, so they pin only the fields computed here.
use vstd::prelude::*;

use crate::host::refresh_memory;
use crate::host::now_rfc3339;
use crate::host::total_memory;
use crate::host::used_memory;
use crate::registry::ConnectionRegistry;
use crate::render::mb_string;
use crate::render::mb_text;
use crate::render::ms_string;
use crate::render::ms_text;

verus! {

/// Static service descriptor, returned at the control plane's root.
pub struct RootResponse {
    pub status: String,
    pub service: String,
    pub version: String,
    pub connected_clients: u64,
}

/// Human-readable memory figures, as whole-mebibyte strings.
pub struct MemoryInfo {
    pub rss: String,
    pub heap_used: String,
    pub heap_total: String,
}

/// The health report.
pub struct HealthResponse {
    pub status: String,
    pub timestamp: String,
    pub uptime: u64,
    pub memory: MemoryInfo,
    pub connections: usize,
}

/// Raw memory figures, in bytes.
pub struct MemoryUsage {
    pub rss: u64,
    pub heap_used: u64,
    pub heap_total: u64,
}

/// The metrics report.
pub struct MetricsResponse {
    pub connected_clients: usize,
    pub memory_usage: MemoryUsage,
    pub uptime: u64,
    pub timestamp: u64,
}

/// Acknowledgement of a dispatched send-event request.
pub struct SendEventResponse {
    pub status: String,
    pub events_sent: usize,
    pub duration: String,
}

/// The static service descriptor. The client count it carries is a fixed
/// placeholder, not a reading.
pub fn root_response() -> (r: RootResponse)
    ensures
        r.status@ == "ok"@,
        r.service@ == "WebSocket Server"@,
        r.version@ == "1.0.0"@,
        r.connected_clients == 0,
{
    RootResponse {
        status: "ok".to_owned(),
        service: "WebSocket Server".to_owned(),
        version: "1.0.0".to_owned(),
        connected_clients: 0,
    }
}

/// Lays out the health report for the given readings. The used-memory
/// reading stands in for both `rss` and `heap_used`: the relay has no
/// separate heap figure.
pub fn health_response(
    connections: usize,
    used_bytes: u64,
    total_bytes: u64,
    uptime_secs: u64,
    timestamp: String,
) -> (h: HealthResponse)
    ensures
        h.status@ == "healthy"@,
        h.timestamp == timestamp,
        h.uptime == uptime_secs,
        h.connections == connections,
        h.memory.rss@ == mb_text(used_bytes),
        h.memory.heap_used@ == mb_text(used_bytes),
        h.memory.heap_total@ == mb_text(total_bytes),
{
    HealthResponse {
        status: "healthy".to_owned(),
        timestamp,
        uptime: uptime_secs,
        memory: MemoryInfo {
            rss: mb_string(used_bytes),
            heap_used: mb_string(used_bytes),
            heap_total: mb_string(total_bytes),
        },
        connections,
    }
}

/// Lays out the metrics report for the given readings. As in the health
/// report, the used-memory reading stands in for both `rss` and
/// `heap_used`.
pub fn metrics_response(
    connected_clients: usize,
    used_bytes: u64,
    total_bytes: u64,
    uptime_secs: u64,
    timestamp_ms: u64,
) -> (m: MetricsResponse)
    ensures
        m.connected_clients == connected_clients,
        m.memory_usage.rss == used_bytes,
        m.memory_usage.heap_used == used_bytes,
        m.memory_usage.heap_total == total_bytes,
        m.uptime == uptime_secs,
        m.timestamp == timestamp_ms,
{
    MetricsResponse {
        connected_clients,
        memory_usage: MemoryUsage {
            rss: used_bytes,
            heap_used: used_bytes,
            heap_total: total_bytes,
        },
        uptime: uptime_secs,
        timestamp: timestamp_ms,
    }
}

/// Acknowledges a dispatch that sent `events_sent` emissions in
/// `duration_ms` milliseconds.
pub fn send_event_response(events_sent: usize, duration_ms: u64) -> (r: SendEventResponse)
    ensures
        r.status@ == "success"@,
        r.events_sent == events_sent,
        r.duration@ == ms_text(duration_ms),
{
    SendEventResponse { status: "success".to_owned(), events_sent, duration: ms_string(duration_ms) }
}

/// Builds the health report from a fresh memory snapshot, the current
/// time and the registry's count. The memory readings and the timestamp
/// depend on the host and the moment, so only the remaining fields are
/// pinned; `health_response` states the full layout for given readings.
pub fn health_check(
    registry: &ConnectionRegistry,
    system: &mut sysinfo::System,
    uptime_secs: u64,
) -> (h: HealthResponse)
    requires
        registry.wf(),
    ensures
        h.status@ == "healthy"@,
        h.uptime == uptime_secs,
        h.connections == registry@.dom().len(),
        h.memory.rss@ == h.memory.heap_used@,
{
    refresh_memory(system);
    let used = used_memory(system);
    let total = total_memory(system);
    let timestamp = now_rfc3339();
    health_response(registry.count(), used, total, uptime_secs, timestamp)
}

/// Builds the metrics report from a fresh memory snapshot and the
/// registry's count. The memory readings depend on the host, so only the
/// remaining fields are pinned; `metrics_response` states the full layout
/// for given readings.
pub fn metrics_check(
    registry: &ConnectionRegistry,
    system: &mut sysinfo::System,
    uptime_secs: u64,
    timestamp_ms: u64,
) -> (m: MetricsResponse)
    requires
        registry.wf(),
    ensures
        m.connected_clients == registry@.dom().len(),
        m.uptime == uptime_secs,
        m.timestamp == timestamp_ms,
        m.memory_usage.rss == m.memory_usage.heap_used,
{
    refresh_memory(system);
    let used = used_memory(system);
    let total = total_memory(system);
    metrics_response(registry.count(), used, total, uptime_secs, timestamp_ms)
}

} // verus!
