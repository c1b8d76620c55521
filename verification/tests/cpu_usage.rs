use system_probe::system::logic::{cpu_idle_ticks, cpu_total_ticks, total_cpu_usage};
use system_probe::system::structures::{CpuTimeSnapshot, CpuUsage};

fn basic_reading(user: u64, nice: u64, system: u64, idle: u64, iowait: Option<u64>) -> CpuTimeSnapshot {
    CpuTimeSnapshot {
        user,
        nice,
        system,
        idle,
        iowait,
        irq: None,
        softirq: None,
        steal: None,
        guest: None,
        guest_nice: None,
    }
}

fn full_reading(counters: [u64; 10]) -> CpuTimeSnapshot {
    CpuTimeSnapshot {
        user: counters[0],
        nice: counters[1],
        system: counters[2],
        idle: counters[3],
        iowait: Some(counters[4]),
        irq: Some(counters[5]),
        softirq: Some(counters[6]),
        steal: Some(counters[7]),
        guest: Some(counters[8]),
        guest_nice: Some(counters[9]),
    }
}

fn as_fraction(usage: CpuUsage) -> f64 {
    match usage {
        CpuUsage::Unmeasurable => 0.0,
        CpuUsage::Measured { idle_delta, total_delta } => 1.0 - (idle_delta as f64 / total_delta as f64),
    }
}

#[test]
fn total_ticks_sums_every_counter() {
    let reading = full_reading([1, 20, 300, 4_000, 50_000, 600_000, 7_000_000, 80_000_000, 900_000_000, 1_000_000_000]);
    assert_eq!(cpu_total_ticks(&reading), 1_987_654_321);
}

#[test]
fn total_ticks_skips_absent_counters() {
    let reading = basic_reading(100, 0, 50, 850, None);
    assert_eq!(cpu_total_ticks(&reading), 1000);
    let with_iowait = basic_reading(100, 0, 50, 850, Some(7));
    assert_eq!(cpu_total_ticks(&with_iowait), 1007);
}

#[test]
fn total_ticks_of_mixed_presence() {
    let mut reading = basic_reading(1, 2, 3, 4, None);
    reading.softirq = Some(10);
    reading.guest_nice = Some(20);
    assert_eq!(cpu_total_ticks(&reading), 40);
    reading.irq = Some(100);
    reading.steal = Some(200);
    reading.guest = Some(400);
    assert_eq!(cpu_total_ticks(&reading), 740);
}

#[test]
fn total_ticks_does_not_overflow() {
    let reading = full_reading([u64::MAX; 10]);
    assert_eq!(cpu_total_ticks(&reading), 10 * (u64::MAX as u128));
    assert_eq!(cpu_idle_ticks(&reading), 2 * (u64::MAX as u128));
}

#[test]
fn idle_ticks_are_idle_plus_iowait() {
    assert_eq!(cpu_idle_ticks(&basic_reading(100, 0, 50, 850, None)), 850);
    assert_eq!(cpu_idle_ticks(&basic_reading(100, 0, 50, 850, Some(0))), 850);
    assert_eq!(cpu_idle_ticks(&basic_reading(100, 0, 50, 850, Some(25))), 875);
    let mut reading = basic_reading(1, 2, 3, 4, Some(5));
    reading.irq = Some(1000);
    reading.steal = Some(1000);
    assert_eq!(cpu_idle_ticks(&reading), 9);
}

#[test]
fn usage_of_two_readings_end_to_end() {
    let first = basic_reading(100, 0, 50, 850, None);
    let second = basic_reading(120, 0, 60, 900, None);
    assert_eq!(cpu_total_ticks(&first), 1000);
    assert_eq!(cpu_idle_ticks(&first), 850);
    assert_eq!(cpu_total_ticks(&second), 1080);
    assert_eq!(cpu_idle_ticks(&second), 900);
    let usage = total_cpu_usage(&first, &second);
    assert_eq!(usage, CpuUsage::Measured { idle_delta: 50, total_delta: 80 });
    assert_eq!(as_fraction(usage), 0.375);
}

#[test]
fn usage_matches_direct_computation() {
    let first = full_reading([500, 20, 300, 9_000, 100, 5, 6, 7, 8, 9]);
    let second = full_reading([650, 25, 340, 9_700, 130, 6, 8, 7, 10, 9]);
    let total_delta = cpu_total_ticks(&second) - cpu_total_ticks(&first);
    let idle_delta = cpu_idle_ticks(&second) - cpu_idle_ticks(&first);
    assert_eq!(total_delta, 930);
    assert_eq!(idle_delta, 730);
    let usage = total_cpu_usage(&first, &second);
    assert_eq!(usage, CpuUsage::Measured { idle_delta: 730, total_delta: 930 });
    assert_eq!(as_fraction(usage), 1.0 - 730.0 / 930.0);
}

#[test]
fn fully_busy_and_fully_idle() {
    let first = basic_reading(10, 0, 0, 10, None);
    let busy = basic_reading(110, 0, 0, 10, None);
    let idle = basic_reading(10, 0, 0, 110, None);
    assert_eq!(total_cpu_usage(&first, &busy), CpuUsage::Measured { idle_delta: 0, total_delta: 100 });
    assert_eq!(as_fraction(total_cpu_usage(&first, &busy)), 1.0);
    assert_eq!(total_cpu_usage(&first, &idle), CpuUsage::Measured { idle_delta: 100, total_delta: 100 });
    assert_eq!(as_fraction(total_cpu_usage(&first, &idle)), 0.0);
}

#[test]
fn unchanged_counters_are_unmeasurable() {
    let reading = basic_reading(100, 0, 50, 850, Some(3));
    let usage = total_cpu_usage(&reading, &reading);
    assert_eq!(usage, CpuUsage::Unmeasurable);
    assert_eq!(as_fraction(usage), 0.0);
}

#[test]
fn equal_totals_are_unmeasurable_even_if_counters_moved() {
    let first = basic_reading(100, 0, 50, 850, None);
    let second = basic_reading(150, 0, 50, 800, None);
    assert_eq!(total_cpu_usage(&first, &second), CpuUsage::Unmeasurable);
}

#[test]
fn absent_counter_equals_zero_counter() {
    let first_absent = basic_reading(100, 0, 50, 850, None);
    let first_zero = basic_reading(100, 0, 50, 850, Some(0));
    let second_absent = basic_reading(120, 0, 60, 900, None);
    let second_zero = basic_reading(120, 0, 60, 900, Some(0));
    let expected = CpuUsage::Measured { idle_delta: 50, total_delta: 80 };
    assert_eq!(total_cpu_usage(&first_absent, &second_absent), expected);
    assert_eq!(total_cpu_usage(&first_zero, &second_absent), expected);
    assert_eq!(total_cpu_usage(&first_absent, &second_zero), expected);
    assert_eq!(total_cpu_usage(&first_zero, &second_zero), expected);
}

#[test]
fn all_optional_counters_absent_or_zero() {
    let absent = basic_reading(7, 8, 9, 10, None);
    let zero = full_reading([7, 8, 9, 10, 0, 0, 0, 0, 0, 0]);
    assert_eq!(cpu_total_ticks(&absent), cpu_total_ticks(&zero));
    assert_eq!(cpu_idle_ticks(&absent), cpu_idle_ticks(&zero));
    let later = full_reading([17, 8, 9, 40, 10, 0, 0, 0, 0, 0]);
    assert_eq!(total_cpu_usage(&absent, &later), total_cpu_usage(&zero, &later));
    assert_eq!(total_cpu_usage(&absent, &later), CpuUsage::Measured { idle_delta: 40, total_delta: 50 });
}

#[test]
fn iowait_counts_as_idle() {
    let first = basic_reading(0, 0, 0, 100, Some(100));
    let second = basic_reading(50, 0, 0, 120, Some(130));
    assert_eq!(total_cpu_usage(&first, &second), CpuUsage::Measured { idle_delta: 50, total_delta: 100 });
    assert_eq!(as_fraction(total_cpu_usage(&first, &second)), 0.5);
}

#[test]
fn total_going_backward_is_unmeasurable() {
    let first = basic_reading(5_000, 0, 500, 90_000, Some(40));
    let second = basic_reading(10, 0, 2, 300, Some(1));
    assert_eq!(total_cpu_usage(&first, &second), CpuUsage::Unmeasurable);
}

#[test]
fn idle_going_backward_clamps_to_zero() {
    let first = basic_reading(100, 0, 0, 900, Some(50));
    let second = basic_reading(1_200, 0, 0, 10, None);
    assert_eq!(cpu_total_ticks(&first), 1050);
    assert_eq!(cpu_total_ticks(&second), 1210);
    assert_eq!(total_cpu_usage(&first, &second), CpuUsage::Measured { idle_delta: 0, total_delta: 160 });
    assert_eq!(as_fraction(total_cpu_usage(&first, &second)), 1.0);
}

#[test]
fn idle_ahead_of_total_is_not_clamped() {
    let first = basic_reading(100, 0, 0, 100, None);
    let second = basic_reading(10, 0, 0, 200, None);
    let usage = total_cpu_usage(&first, &second);
    assert_eq!(usage, CpuUsage::Measured { idle_delta: 100, total_delta: 10 });
    assert_eq!(as_fraction(usage), -9.0);
}

#[test]
fn deltas_at_the_limits() {
    let first = basic_reading(0, 0, 0, 0, None);
    let second = full_reading([u64::MAX; 10]);
    assert_eq!(
        total_cpu_usage(&first, &second),
        CpuUsage::Measured { idle_delta: 2 * (u64::MAX as u128), total_delta: 10 * (u64::MAX as u128) }
    );
    assert_eq!(total_cpu_usage(&second, &first), CpuUsage::Unmeasurable);
}
