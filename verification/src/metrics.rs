//! Runtime metrics: request counts and latency, connections, memory and CPU,
//! with an export in the Prometheus text format.

use vstd::prelude::*;
use crate::num_text::{decimal, push_decimal};
use crate::text::owned;
use crate::time::millis_of;

verus! {

/// How a request ended.
#[derive(Debug, Clone)]
pub enum RequestStatus {
    Success,
    Error(String),
}

/// Counters of the runtime. The counters wrap around on overflow.
#[derive(Debug)]
pub struct MetricsCollector {
    pub requests_total: u64,
    pub total_latency_ms: u64,
    pub active_connections: u64,
    pub memory_usage_bytes: u64,
    pub cpu_usage_percent: u64,
    pub last_update: std::time::SystemTime,
}

/// The counters at one moment.
#[derive(Debug, Clone)]
pub struct MetricsSnapshot {
    pub requests_total: u64,
    pub total_latency_ms: u64,
    pub active_connections: u64,
    pub memory_usage_bytes: u64,
    pub cpu_usage_percent: u64,
    pub last_update: std::time::SystemTime,
}

/// `a + b` modulo 2^64.
pub open spec fn wrapping(a: u64, b: u64) -> u64 {
    if a + b > u64::MAX {
        (a + b - u64::MAX - 1) as u64
    } else {
        (a + b) as u64
    }
}

/// The Prometheus text of a snapshot, with the average latency given as text.
pub open spec fn prometheus_text(s: MetricsSnapshot, average: Seq<char>) -> Seq<char> {
    "# HELP beejs_requests_total Total number of requests processed\n"@
        + "# TYPE beejs_requests_total counter\n"@
        + "beejs_requests_total "@ + decimal(s.requests_total as nat) + "\n"@
        + "# HELP beejs_request_duration_ms_total Total request duration in milliseconds\n"@
        + "# TYPE beejs_request_duration_ms_total counter\n"@
        + "beejs_request_duration_ms_total "@ + decimal(s.total_latency_ms as nat) + "\n"@
        + "# HELP beejs_request_duration_ms Average request duration in milliseconds\n"@
        + "# TYPE beejs_request_duration_ms gauge\n"@
        + "beejs_request_duration_ms "@ + average + "\n"@
        + "# HELP beejs_active_connections Number of active connections\n"@
        + "# TYPE beejs_active_connections gauge\n"@
        + "beejs_active_connections "@ + decimal(s.active_connections as nat) + "\n"@
        + "# HELP beejs_memory_usage_bytes Memory usage in bytes\n"@
        + "# TYPE beejs_memory_usage_bytes gauge\n"@
        + "beejs_memory_usage_bytes "@ + decimal(s.memory_usage_bytes as nat) + "\n"@
        + "# HELP beejs_cpu_usage_percent CPU usage percentage\n"@
        + "# TYPE beejs_cpu_usage_percent gauge\n"@
        + "beejs_cpu_usage_percent "@ + decimal(s.cpu_usage_percent as nat) + "\n"@
}

impl MetricsCollector {
    /// All counters at zero.
    pub fn new() -> (c: MetricsCollector)
        ensures
            c.requests_total == 0,
            c.total_latency_ms == 0,
            c.active_connections == 0,
            c.memory_usage_bytes == 0,
            c.cpu_usage_percent == 0,
    {
        MetricsCollector {
            requests_total: 0,
            total_latency_ms: 0,
            active_connections: 0,
            memory_usage_bytes: 0,
            cpu_usage_percent: 0,
            last_update: crate::time::system_now(),
        }
    }

    /// Counts a request and adds its latency, in whole milliseconds (cut to
    /// 64 bits), to the total.
    pub fn record_request(&mut self, latency: std::time::Duration, status: RequestStatus)
        ensures
            final(self).requests_total == wrapping(old(self).requests_total, 1),
            final(self).total_latency_ms == wrapping(old(self).total_latency_ms, millis_of(latency) as u64),
            final(self).active_connections == old(self).active_connections,
            final(self).memory_usage_bytes == old(self).memory_usage_bytes,
            final(self).cpu_usage_percent == old(self).cpu_usage_percent,
    {
        let ms: u64 = crate::time::duration_as_millis(&latency) as u64;
        self.requests_total = self.requests_total.wrapping_add(1);
        self.total_latency_ms = self.total_latency_ms.wrapping_add(ms);
        self.last_update = crate::time::system_now();
    }

    /// Adds `bytes` to the memory in use.
    pub fn record_memory_usage(&mut self, bytes: u64)
        ensures
            final(self).memory_usage_bytes == wrapping(old(self).memory_usage_bytes, bytes),
            final(self).requests_total == old(self).requests_total,
            final(self).total_latency_ms == old(self).total_latency_ms,
            final(self).active_connections == old(self).active_connections,
            final(self).cpu_usage_percent == old(self).cpu_usage_percent,
    {
        self.memory_usage_bytes = self.memory_usage_bytes.wrapping_add(bytes);
        self.last_update = crate::time::system_now();
    }

    /// Sets the number of active connections.
    pub fn update_active_connections(&mut self, count: u64)
        ensures
            final(self).active_connections == count,
            final(self).requests_total == old(self).requests_total,
            final(self).total_latency_ms == old(self).total_latency_ms,
            final(self).memory_usage_bytes == old(self).memory_usage_bytes,
            final(self).cpu_usage_percent == old(self).cpu_usage_percent,
    {
        self.active_connections = count;
        self.last_update = crate::time::system_now();
    }

    /// Sets the CPU usage, already rounded to a whole percentage.
    pub fn set_cpu_usage_percent(&mut self, percent: u64)
        ensures
            final(self).cpu_usage_percent == percent,
            final(self).requests_total == old(self).requests_total,
            final(self).total_latency_ms == old(self).total_latency_ms,
            final(self).active_connections == old(self).active_connections,
            final(self).memory_usage_bytes == old(self).memory_usage_bytes,
    {
        self.cpu_usage_percent = percent;
        self.last_update = crate::time::system_now();
    }

    /// The counters now.
    pub fn get_metrics_snapshot(&self) -> (s: MetricsSnapshot)
        ensures
            s.requests_total == self.requests_total,
            s.total_latency_ms == self.total_latency_ms,
            s.active_connections == self.active_connections,
            s.memory_usage_bytes == self.memory_usage_bytes,
            s.cpu_usage_percent == self.cpu_usage_percent,
            s.last_update == self.last_update,
    {
        MetricsSnapshot {
            requests_total: self.requests_total,
            total_latency_ms: self.total_latency_ms,
            active_connections: self.active_connections,
            memory_usage_bytes: self.memory_usage_bytes,
            cpu_usage_percent: self.cpu_usage_percent,
            last_update: self.last_update,
        }
    }

    /// The counters in the Prometheus text format; the average latency, a
    /// floating-point figure, comes in already rendered.
    pub fn export_prometheus(&self, average_latency: &str) -> (r: String)
        ensures
            r@ == prometheus_text(self.get_snapshot_spec(), average_latency@),
    {
        let s = self.get_metrics_snapshot();
        let mut out = owned("# HELP beejs_requests_total Total number of requests processed\n");
        out.append("# TYPE beejs_requests_total counter\n");
        out.append("beejs_requests_total ");
        push_decimal(&mut out, s.requests_total);
        out.append("\n");
        out.append("# HELP beejs_request_duration_ms_total Total request duration in milliseconds\n");
        out.append("# TYPE beejs_request_duration_ms_total counter\n");
        out.append("beejs_request_duration_ms_total ");
        push_decimal(&mut out, s.total_latency_ms);
        out.append("\n");
        out.append("# HELP beejs_request_duration_ms Average request duration in milliseconds\n");
        out.append("# TYPE beejs_request_duration_ms gauge\n");
        out.append("beejs_request_duration_ms ");
        out.append(average_latency);
        out.append("\n");
        out.append("# HELP beejs_active_connections Number of active connections\n");
        out.append("# TYPE beejs_active_connections gauge\n");
        out.append("beejs_active_connections ");
        push_decimal(&mut out, s.active_connections);
        out.append("\n");
        out.append("# HELP beejs_memory_usage_bytes Memory usage in bytes\n");
        out.append("# TYPE beejs_memory_usage_bytes gauge\n");
        out.append("beejs_memory_usage_bytes ");
        push_decimal(&mut out, s.memory_usage_bytes);
        out.append("\n");
        out.append("# HELP beejs_cpu_usage_percent CPU usage percentage\n");
        out.append("# TYPE beejs_cpu_usage_percent gauge\n");
        out.append("beejs_cpu_usage_percent ");
        push_decimal(&mut out, s.cpu_usage_percent);
        out.append("\n");
        out
    }

    /// The snapshot `get_metrics_snapshot` gives.
    pub open spec fn get_snapshot_spec(&self) -> MetricsSnapshot {
        MetricsSnapshot {
            requests_total: self.requests_total,
            total_latency_ms: self.total_latency_ms,
            active_connections: self.active_connections,
            memory_usage_bytes: self.memory_usage_bytes,
            cpu_usage_percent: self.cpu_usage_percent,
            last_update: self.last_update,
        }
    }
}

} // verus!
