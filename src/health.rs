//! Health of the machine the worker runs on, judged from resource figures
//! that the caller measures.

use vstd::prelude::*;
use crate::text::{decimal, digit_char, u64_to_decimal};

verus! {

/// Facts about the machine.
#[derive(Debug, Clone)]
pub struct SystemInfo {
    pub cpu_count: usize,
    pub total_memory_mb: u64,
    pub os_name: String,
    pub os_version: String,
    pub arch: String,
    pub hostname: String,
}

/// One health check.
#[derive(Debug, Clone)]
pub struct HealthCheck {
    pub name: String,
    pub passed: bool,
    pub detail: Option<String>,
}

/// The overall health with its checks.
#[derive(Debug, Clone)]
pub struct HealthStatus {
    pub healthy: bool,
    pub message: String,
    pub checks: Vec<HealthCheck>,
}

/// Least free memory, in MB, for the machine to count as healthy.
pub const MIN_AVAILABLE_MEMORY_MB: u64 = 512;
/// Most CPU use, in tenths of a percent, for the machine to count as healthy.
pub const MAX_CPU_TENTHS: u32 = 950;

/// Text of a percentage given in tenths, with one decimal.
pub open spec fn tenths_text(t: u32) -> Seq<char> {
    decimal((t / 10) as nat) + seq!['.', digit_char((t % 10) as nat)]
}

/// Watches the machine's resources since the worker started.
pub struct HealthMonitor {
    system_info: SystemInfo,
    start_ms: u64,
}

impl HealthMonitor {
    pub closed spec fn info_spec(&self) -> SystemInfo {
        self.system_info
    }

    pub closed spec fn start_spec(&self) -> u64 {
        self.start_ms
    }

    /// A monitor started at `now_ms` on a machine described by `info`.
    pub fn new(system_info: SystemInfo, now_ms: u64) -> (r: Self)
        ensures
            r.info_spec() == system_info,
            r.start_spec() == now_ms,
    {
        HealthMonitor { system_info, start_ms: now_ms }
    }

    /// The machine's description.
    pub fn system_info(&self) -> (r: &SystemInfo)
        ensures
            *r == self.info_spec(),
    {
        &self.system_info
    }

    /// Whole seconds since the start.
    pub fn uptime_secs(&self, now_ms: u64) -> (r: u64)
        ensures
            r == (if now_ms >= self.start_spec() { (now_ms - self.start_spec()) as int / 1000 } else { 0 }),
    {
        now_ms.saturating_sub(self.start_ms) / 1000
    }

    /// Free memory: total minus used, never below zero.
    pub fn memory_available_mb(&self, memory_used_mb: u64) -> (r: u64)
        ensures
            r == (if self.info_spec().total_memory_mb >= memory_used_mb {
                (self.info_spec().total_memory_mb - memory_used_mb) as u64
            } else {
                0
            }),
    {
        self.system_info.total_memory_mb.saturating_sub(memory_used_mb)
    }

    pub open spec fn healthy_spec(&self, memory_used_mb: u64, cpu_tenths: u32) -> bool {
        let free = if self.info_spec().total_memory_mb >= memory_used_mb {
            self.info_spec().total_memory_mb - memory_used_mb
        } else {
            0
        };
        free >= MIN_AVAILABLE_MEMORY_MB && cpu_tenths <= MAX_CPU_TENTHS
    }

    /// Healthy: at least 512 MB free and CPU use at most 95%.
    pub fn is_healthy(&self, memory_used_mb: u64, cpu_tenths: u32) -> (r: bool)
        ensures
            r == self.healthy_spec(memory_used_mb, cpu_tenths),
    {
        let free = self.memory_available_mb(memory_used_mb);
        free >= MIN_AVAILABLE_MEMORY_MB && cpu_tenths <= MAX_CPU_TENTHS
    }

    /// The health with a memory check and a CPU check.
    pub fn health_status(&self, memory_used_mb: u64, cpu_tenths: u32) -> (r: HealthStatus)
        ensures
            r.healthy == self.healthy_spec(memory_used_mb, cpu_tenths),
            r.message@ == if r.healthy { "System healthy"@ } else { "System resources critically low"@ },
            r.checks@.len() == 2,
            r.checks@[0].name@ == "memory"@,
            r.checks@[0].passed == (self.memory_available_spec(memory_used_mb) >= MIN_AVAILABLE_MEMORY_MB),
            r.checks@[0].detail is Some,
            r.checks@[0].detail.unwrap()@ == decimal(self.memory_available_spec(memory_used_mb) as nat) + "MB available"@,
            r.checks@[1].name@ == "cpu"@,
            r.checks@[1].passed == (cpu_tenths <= MAX_CPU_TENTHS),
            r.checks@[1].detail is Some,
            r.checks@[1].detail.unwrap()@ == tenths_text(cpu_tenths) + "% usage"@,
    {
        let free = self.memory_available_mb(memory_used_mb);
        let healthy = self.is_healthy(memory_used_mb, cpu_tenths);
        let mut mem_detail = u64_to_decimal(free);
        mem_detail.append("MB available");
        let mut cpu_detail = u64_to_decimal((cpu_tenths / 10) as u64);
        cpu_detail.append(".");
        cpu_detail.append(u64_to_decimal((cpu_tenths % 10) as u64).as_str());
        cpu_detail.append("% usage");
        proof {
            reveal_strlit(".");
            let d = (cpu_tenths % 10) as nat;
            assert(decimal(d) == seq![digit_char(d)]);
        }
        assert(cpu_detail@ =~= tenths_text(cpu_tenths) + "% usage"@);
        let checks = vec![
            HealthCheck { name: "memory".to_owned(), passed: free >= MIN_AVAILABLE_MEMORY_MB, detail: Some(mem_detail) },
            HealthCheck { name: "cpu".to_owned(), passed: cpu_tenths <= MAX_CPU_TENTHS, detail: Some(cpu_detail) },
        ];
        let message = if healthy { "System healthy".to_owned() } else { "System resources critically low".to_owned() };
        HealthStatus { healthy, message, checks }
    }

    pub open spec fn memory_available_spec(&self, memory_used_mb: u64) -> u64 {
        if self.info_spec().total_memory_mb >= memory_used_mb {
            (self.info_spec().total_memory_mb - memory_used_mb) as u64
        } else {
            0
        }
    }
}

} // verus!
