//! Snapshot arithmetic and the fixed-rate sampling schedule.
//!
//! The instrumentation read itself lives outside the library; these
//! functions turn the plain counters it hands over into a well-formed
//! [`SystemMetrics`] value, and decide when the next sample is due.
//! Instrumentation read failures degrade to zero values rather than
//! failing a sampling tick.

use vstd::prelude::*;

use crate::types::{metrics_wf, SystemInfo, SystemMetrics};

verus! {

/// Memory utilization in tenths of a percent: `used / total`, scaled.
/// A zero total yields zero — never a division by zero — and a reading
/// of more used than total memory clamps to one hundred percent.
pub open spec fn spec_mem_usage_tenths(used: nat, total: nat) -> nat {
    if total == 0 {
        0
    } else if used >= total {
        1000
    } else {
        used * 1000 / total
    }
}

pub fn mem_usage_tenths(used_memory: u64, total_memory: u64) -> (r: u32)
    ensures
        r == spec_mem_usage_tenths(used_memory as nat, total_memory as nat),
        r <= 1000,
{
    if total_memory == 0 {
        0
    } else if used_memory >= total_memory {
        1000
    } else {
        let t = (used_memory as u128) * 1000 / (total_memory as u128);
        proof {
            vstd::arithmetic::div_mod::lemma_multiply_divide_lt(
                used_memory as int * 1000,
                total_memory as int,
                1000,
            );
            assert(used_memory as int * 1000 < total_memory as int * 1000) by (nonlinear_arith)
                requires
                    used_memory < total_memory,
            ;
        }
        t as u32
    }
}

/// The sum of per-core utilization figures.
pub open spec fn sum_tenths(s: Seq<u32>) -> int
    decreases s.len(),
{
    if s.len() == 0 {
        0
    } else {
        sum_tenths(s.drop_last()) + s.last()
    }
}

/// CPU utilization in tenths of a percent: the arithmetic mean across all
/// logical cores, zero when the host reports no cores.
pub open spec fn spec_cpu_mean_tenths(s: Seq<u32>) -> int {
    if s.len() == 0 {
        0
    } else {
        sum_tenths(s) / s.len() as int
    }
}

proof fn lemma_sum_tenths_bound(s: Seq<u32>, bound: int)
    requires
        forall|k: int| 0 <= k < s.len() ==> #[trigger] s[k] <= bound,
        bound >= 0,
    ensures
        0 <= sum_tenths(s) <= s.len() * bound,
    decreases s.len(),
{
    if s.len() > 0 {
        lemma_sum_tenths_bound(s.drop_last(), bound);
        assert((s.len() - 1) * bound + bound == s.len() * bound) by (nonlinear_arith);
    }
}

pub fn cpu_mean_tenths(core_tenths: &Vec<u32>) -> (r: u32)
    requires
        forall|k: int| 0 <= k < core_tenths@.len() ==> #[trigger] core_tenths@[k] <= 1000,
    ensures
        r == spec_cpu_mean_tenths(core_tenths@),
        r <= 1000,
{
    let n = core_tenths.len();
    if n == 0 {
        return 0;
    }
    let mut sum: u128 = 0;
    let mut i: usize = 0;
    while i < n
        invariant
            i <= n,
            n == core_tenths@.len(),
            forall|k: int| 0 <= k < core_tenths@.len() ==> #[trigger] core_tenths@[k] <= 1000,
            sum == sum_tenths(core_tenths@.subrange(0, i as int)),
            sum <= i * 1000,
        decreases n - i,
    {
        proof {
            assert(core_tenths@.subrange(0, i + 1).drop_last() =~= core_tenths@.subrange(
                0,
                i as int,
            ));
            assert((i + 1) * 1000 == i * 1000 + 1000) by (nonlinear_arith);
        }
        sum = sum + core_tenths[i] as u128;
        i = i + 1;
    }
    proof {
        assert(core_tenths@.subrange(0, n as int) =~= core_tenths@);
        lemma_sum_tenths_bound(core_tenths@, 1000);
        vstd::arithmetic::div_mod::lemma_multiply_divide_le(
            sum_tenths(core_tenths@),
            n as int,
            1000,
        );
    }
    let mean = sum / (n as u128);
    mean as u32
}

/// Builds one snapshot from plain instrumentation readings.  Disk and
/// network figures are reported as zero: best effort, not an error.
pub fn build_snapshot(
    core_tenths: &Vec<u32>,
    used_memory: u64,
    total_memory: u64,
    timestamp: u64,
) -> (m: SystemMetrics)
    requires
        forall|k: int| 0 <= k < core_tenths@.len() ==> #[trigger] core_tenths@[k] <= 1000,
    ensures
        m.cpu_usage == spec_cpu_mean_tenths(core_tenths@),
        m.memory_usage == spec_mem_usage_tenths(used_memory as nat, total_memory as nat),
        total_memory == 0 ==> m.memory_usage == 0,
        m.disk_usage == 0,
        m.network_in == 0,
        m.network_out == 0,
        m.timestamp == timestamp,
        metrics_wf(m),
{
    SystemMetrics {
        cpu_usage: cpu_mean_tenths(core_tenths),
        memory_usage: mem_usage_tenths(used_memory, total_memory),
        disk_usage: 0,
        network_in: 0,
        network_out: 0,
        timestamp,
    }
}

/// With no memory at all, utilization is exactly zero for every reading:
/// the zero-total denominator is guarded, never divided by.
pub proof fn lemma_zero_total_memory_yields_zero(used: nat)
    ensures
        spec_mem_usage_tenths(used, 0) == 0,
{
}

/// How many whole sampling periods have elapsed.  The schedule is fixed
/// rate: each tick is due a full period after the previous tick's start,
/// so after `elapsed_secs` seconds exactly `elapsed_secs / period_secs`
/// ticks have been produced, however slow the emission was.
pub fn ticks_elapsed(elapsed_secs: u64, period_secs: u64) -> (n: u64)
    requires
        period_secs >= 1,
    ensures
        n == elapsed_secs as int / period_secs as int,
{
    elapsed_secs / period_secs
}

/// The next tick's deadline under fixed-rate scheduling: one full period
/// after the previous tick's start, independent of how long emission took.
/// `None` when the deadline does not fit the clock's range.
pub fn next_tick_deadline(prev_tick_secs: u64, period_secs: u64) -> (r: Option<u64>)
    ensures
        prev_tick_secs + period_secs <= u64::MAX ==> r == Some(
            (prev_tick_secs + period_secs) as u64,
        ),
        prev_tick_secs + period_secs > u64::MAX ==> r is None,
{
    prev_tick_secs.checked_add(period_secs)
}

/// A missing host fact degrades to the text `unknown`.
fn or_unknown(o: Option<String>) -> (r: String)
    ensures
        r@ == (match o {
            Some(s) => s@,
            None => ("unknown")@,
        }),
{
    match o {
        Some(s) => s,
        None => String::from_str("unknown"),
    }
}

impl SystemInfo {
    /// Builds the host facts from plain readings, filling each missing
    /// fact with `unknown`.
    pub fn from_parts(
        hostname: Option<String>,
        os_name: Option<String>,
        os_version: Option<String>,
        kernel_version: Option<String>,
        total_memory: u64,
        cpu_count: u32,
        uptime: u64,
    ) -> (r: SystemInfo)
        ensures
            r@.hostname == (match hostname {
                Some(s) => s@,
                None => ("unknown")@,
            }),
            r@.os_name == (match os_name {
                Some(s) => s@,
                None => ("unknown")@,
            }),
            r@.os_version == (match os_version {
                Some(s) => s@,
                None => ("unknown")@,
            }),
            r@.kernel_version == (match kernel_version {
                Some(s) => s@,
                None => ("unknown")@,
            }),
            r@.total_memory == total_memory,
            r@.cpu_count == cpu_count,
            r@.uptime == uptime,
    {
        SystemInfo {
            hostname: or_unknown(hostname),
            os_name: or_unknown(os_name),
            os_version: or_unknown(os_version),
            kernel_version: or_unknown(kernel_version),
            total_memory,
            cpu_count,
            uptime,
        }
    }
}

} // verus!
