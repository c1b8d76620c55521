//! CPU utilisation from two readings of the tick counters.

use crate::system::gibibytes::gib_text;
use crate::system::structures::{
    counter_ticks, CpuTimeSnapshot, CpuUsage, MemorySnapshot, __Memory,
};
use vstd::prelude::*;

verus! {

/// The ticks of an optional counter, widened for summing.
fn ticks_or_zero(counter: Option<u64>) -> (ticks: u128)
    ensures
        ticks == counter_ticks(counter),
{
    match counter {
        Some(v) => v as u128,
        None => 0,
    }
}

/// Sums every counter of a reading. The sum is taken in 128 bits, where ten
/// 64-bit counters cannot overflow.
pub fn cpu_total_ticks(ct: &CpuTimeSnapshot) -> (total: u128)
    ensures
        total == ct.total_ticks(),
{
    let mut total: u128 = ct.user as u128 + ct.nice as u128 + ct.system as u128 + ct.idle as u128;
    total = total + ticks_or_zero(ct.iowait);
    total = total + ticks_or_zero(ct.irq);
    total = total + ticks_or_zero(ct.softirq);
    total = total + ticks_or_zero(ct.steal);
    total = total + ticks_or_zero(ct.guest);
    total = total + ticks_or_zero(ct.guest_nice);
    total
}

/// Sums the counters of a reading that count as idle time: `idle` and, where
/// present, `iowait`.
pub fn cpu_idle_ticks(ct: &CpuTimeSnapshot) -> (idle: u128)
    ensures
        idle == ct.idle_ticks(),
{
    ct.idle as u128 + ticks_or_zero(ct.iowait)
}

/// The idle ticks of a reading are part of its ticks, and ten counters of 64
/// bits sum to less than 2⁶⁸: sums and deltas fit in 128 bits with room to
/// spare.
pub proof fn lemma_sums_are_bounded(reading: CpuTimeSnapshot)
    ensures
        reading.idle_ticks() <= reading.total_ticks() <= 10 * u64::MAX,
{
}

/// How far a cumulative counter advanced between two readings. A counter
/// that reads lower the second time (it was reset, or the readings are
/// inconsistent) has advanced by nothing: it never moves backward.
pub open spec fn saturating_delta(later: nat, earlier: nat) -> nat {
    if later >= earlier {
        (later - earlier) as nat
    } else {
        0
    }
}

/// The utilisation that two readings give, `first` taken before `second`.
///
/// Idle and total ticks are each the clamped advance of the corresponding sum.
/// Where the total did not advance there is nothing to measure.
pub open spec fn usage_between(first: CpuTimeSnapshot, second: CpuTimeSnapshot) -> CpuUsage {
    let total_delta = saturating_delta(second.total_ticks(), first.total_ticks());
    let idle_delta = saturating_delta(second.idle_ticks(), first.idle_ticks());
    if total_delta == 0 {
        CpuUsage::Unmeasurable
    } else {
        CpuUsage::Measured { idle_delta: idle_delta as u128, total_delta: total_delta as u128 }
    }
}

/// Computes the CPU utilisation between two readings of the tick counters,
/// `first` taken before `second`.
///
/// The result holds the two deltas exactly; the utilisation as a fraction is
/// `1 - idle_delta / total_delta`. It is not clamped: readings in which idle
/// time advanced by more than the total give a fraction below zero.
pub fn total_cpu_usage(first: &CpuTimeSnapshot, second: &CpuTimeSnapshot) -> (usage: CpuUsage)
    ensures
        usage == usage_between(*first, *second),
        usage.wf(),
        usage is Unmeasurable <==> second.total_ticks() <= first.total_ticks(),
        usage matches CpuUsage::Measured { idle_delta, total_delta } ==> {
            &&& total_delta == second.total_ticks() - first.total_ticks()
            &&& idle_delta == saturating_delta(second.idle_ticks(), first.idle_ticks())
        },
{
    let total1 = cpu_total_ticks(first);
    let idle1 = cpu_idle_ticks(first);
    let total2 = cpu_total_ticks(second);
    let idle2 = cpu_idle_ticks(second);

    let total_delta = total2.saturating_sub(total1);
    let idle_delta = idle2.saturating_sub(idle1);

    if total_delta == 0 {
        CpuUsage::Unmeasurable
    } else {
        CpuUsage::Measured { idle_delta, total_delta }
    }
}

/// Where neither sum went backward, the deltas are the plain differences of
/// the sums: the utilisation is `1 - (idle2 - idle1) / (total2 - total1)`,
/// unless the total stood still and there is nothing to measure.
pub proof fn lemma_usage_is_ratio_of_differences(first: CpuTimeSnapshot, second: CpuTimeSnapshot)
    requires
        second.total_ticks() >= first.total_ticks(),
        second.idle_ticks() >= first.idle_ticks(),
    ensures
        second.total_ticks() == first.total_ticks() ==> usage_between(first, second)
            == CpuUsage::Unmeasurable,
        second.total_ticks() > first.total_ticks() ==> usage_between(first, second) == (
        CpuUsage::Measured {
            idle_delta: (second.idle_ticks() - first.idle_ticks()) as u128,
            total_delta: (second.total_ticks() - first.total_ticks()) as u128,
        }),
        second.total_ticks() - first.total_ticks() <= u128::MAX,
        second.idle_ticks() - first.idle_ticks() <= u128::MAX,
{
}

/// Where no single counter went backward, idle time did not advance by more
/// than the total: a measured utilisation lies between zero and one.
pub proof fn lemma_usage_is_between_zero_and_one(first: CpuTimeSnapshot, second: CpuTimeSnapshot)
    requires
        second.not_behind(first),
    ensures
        usage_between(first, second) matches CpuUsage::Measured { idle_delta, total_delta }
            ==> idle_delta <= total_delta,
{
}

/// Counters that stood still, or a total that went backward, give no
/// measurement. Nothing else does.
pub proof fn lemma_unmeasurable_iff_total_stood_still(
    first: CpuTimeSnapshot,
    second: CpuTimeSnapshot,
)
    ensures
        usage_between(first, second) is Unmeasurable <==> second.total_ticks()
            <= first.total_ticks(),
        usage_between(first, first) is Unmeasurable,
{
}

/// An absent counter is the same as that counter at zero: readings that
/// differ in nothing else give the same sums and the same utilisation.
pub proof fn lemma_absent_counter_is_zero(
    first: CpuTimeSnapshot,
    first_alike: CpuTimeSnapshot,
    second: CpuTimeSnapshot,
    second_alike: CpuTimeSnapshot,
)
    requires
        first.same_ticks_as(first_alike),
        second.same_ticks_as(second_alike),
    ensures
        first.total_ticks() == first_alike.total_ticks(),
        first.idle_ticks() == first_alike.idle_ticks(),
        usage_between(first, second) == usage_between(first_alike, second_alike),
{
}

/// A counter's advance is its difference where it moved forward, and zero
/// where it reads lower the second time. It is never negative.
pub proof fn lemma_delta_is_clamped_at_zero(later: nat, earlier: nat)
    ensures
        later >= earlier ==> saturating_delta(later, earlier) == later - earlier,
        later <= earlier ==> saturating_delta(later, earlier) == 0,
{
}

/// Idle time that went backward leaves a measurement without idle ticks; a
/// total that went backward leaves no measurement.
pub proof fn lemma_backward_sums_clamp_to_zero(first: CpuTimeSnapshot, second: CpuTimeSnapshot)
    ensures
        second.total_ticks() < first.total_ticks() ==> usage_between(first, second)
            == CpuUsage::Unmeasurable,
        second.idle_ticks() < first.idle_ticks() && second.total_ticks() > first.total_ticks()
            ==> usage_between(first, second) == (CpuUsage::Measured {
            idle_delta: 0,
            total_delta: (second.total_ticks() - first.total_ticks()) as u128,
        }),
{
}

/// Turns what the provider answered when asked for the memory totals into
/// the report.
///
/// A reading becomes the report of its two byte counts. A failure is handed
/// on as it came.
pub fn memory_usage<E>(reading: Result<MemorySnapshot, E>) -> (report: Result<__Memory, E>)
    ensures
        match reading {
            Ok(snapshot) => {
                &&& report matches Ok(memory)
                &&& memory@.total == gib_text(snapshot.mem_total as nat)
                &&& memory@.free == gib_text(snapshot.mem_free as nat)
            },
            Err(error) => report == Err::<__Memory, E>(error),
        },
{
    match reading {
        Ok(snapshot) => Ok(__Memory::new(snapshot.mem_total, snapshot.mem_free)),
        Err(error) => Err(error),
    }
}

} // verus!
