use light_guide::sampler::{
    build_snapshot, cpu_mean_tenths, mem_usage_tenths, next_tick_deadline, ticks_elapsed,
};
use light_guide::types::SystemInfo;

#[test]
fn zero_total_memory_yields_zero_usage() {
    assert_eq!(mem_usage_tenths(0, 0), 0);
    assert_eq!(mem_usage_tenths(123456, 0), 0);
    let m = build_snapshot(&vec![500], 123456, 0, 42);
    assert_eq!(m.memory_usage, 0);
}

#[test]
fn memory_usage_is_used_over_total() {
    assert_eq!(mem_usage_tenths(41, 100), 410);
    assert_eq!(mem_usage_tenths(1, 3), 333); // one third is 33.3%
    assert_eq!(mem_usage_tenths(100, 100), 1000);
    // a reading of more used than total clamps to one hundred percent
    assert_eq!(mem_usage_tenths(200, 100), 1000);
}

#[test]
fn cpu_mean_is_the_arithmetic_mean_across_cores() {
    assert_eq!(cpu_mean_tenths(&vec![100, 200, 300]), 200);
    assert_eq!(cpu_mean_tenths(&vec![1000, 0]), 500);
    assert_eq!(cpu_mean_tenths(&vec![7]), 7);
    // no cores reported degrades to zero, not a crash
    assert_eq!(cpu_mean_tenths(&vec![]), 0);
}

#[test]
fn snapshot_reports_best_effort_zeroes() {
    let m = build_snapshot(&vec![123, 123], 41, 100, 99);
    assert_eq!(m.cpu_usage, 123);
    assert_eq!(m.memory_usage, 410);
    assert_eq!(m.disk_usage, 0);
    assert_eq!(m.network_in, 0);
    assert_eq!(m.network_out, 0);
    assert_eq!(m.timestamp, 99);
}

#[test]
fn fixed_rate_schedule_counts_whole_periods() {
    // with a five-second period, twelve seconds hold exactly two ticks
    assert_eq!(ticks_elapsed(12, 5), 2);
    assert_eq!(ticks_elapsed(0, 5), 0);
    assert_eq!(ticks_elapsed(4, 5), 0);
    assert_eq!(ticks_elapsed(5, 5), 1);
    assert_eq!(ticks_elapsed(10, 1), 10);
}

#[test]
fn next_deadline_is_one_period_after_the_previous_tick() {
    assert_eq!(next_tick_deadline(100, 5), Some(105));
    assert_eq!(next_tick_deadline(u64::MAX, 1), None);
}

#[test]
fn missing_host_facts_degrade_to_unknown() {
    let i = SystemInfo::from_parts(None, Some("linux".to_string()), None, None, 1, 2, 3);
    assert_eq!(i.hostname, "unknown");
    assert_eq!(i.os_name, "linux");
    assert_eq!(i.os_version, "unknown");
    assert_eq!(i.kernel_version, "unknown");
    assert_eq!(i.total_memory, 1);
    assert_eq!(i.cpu_count, 2);
    assert_eq!(i.uptime, 3);
}
