//! The values the probe works on.

use crate::system::gibibytes::{format_gib, gib_text};
use vstd::prelude::*;

verus! {

/// One reading of the kernel's cumulative CPU tick counters.
///
/// The first four counters exist on every kernel. The others came later and
/// are absent on a kernel that does not report them; an absent counter counts
/// as zero ticks.
#[derive(Clone, Copy, Debug, PartialEq, Eq)]
pub struct CpuTimeSnapshot {
    /// Ticks spent in user mode.
    pub user: u64,
    /// Ticks spent in user mode at low priority.
    pub nice: u64,
    /// Ticks spent in system mode.
    pub system: u64,
    /// Ticks spent idle.
    pub idle: u64,
    /// Ticks spent waiting for I/O to complete.
    pub iowait: Option<u64>,
    /// Ticks spent servicing interrupts.
    pub irq: Option<u64>,
    /// Ticks spent servicing soft interrupts.
    pub softirq: Option<u64>,
    /// Ticks stolen by other guests of a hypervisor.
    pub steal: Option<u64>,
    /// Ticks spent running a guest.
    pub guest: Option<u64>,
    /// Ticks spent running a guest at low priority.
    pub guest_nice: Option<u64>,
}

/// What a counter adds to a sum of ticks: its value, or nothing where it is
/// absent.
pub open spec fn counter_ticks(counter: Option<u64>) -> nat {
    match counter {
        Some(ticks) => ticks as nat,
        None => 0,
    }
}

impl CpuTimeSnapshot {
    /// All ticks of the reading: the sum of its ten counters.
    pub open spec fn total_ticks(&self) -> nat {
        self.user as nat + self.nice as nat + self.system as nat + self.idle as nat
            + counter_ticks(self.iowait) + counter_ticks(self.irq) + counter_ticks(self.softirq)
            + counter_ticks(self.steal) + counter_ticks(self.guest) + counter_ticks(
            self.guest_nice,
        )
    }

    /// The ticks of the reading in which no work was done: idle time and the
    /// time spent waiting for I/O.
    pub open spec fn idle_ticks(&self) -> nat {
        self.idle as nat + counter_ticks(self.iowait)
    }

    /// Both readings count the same ticks in every counter. They may still
    /// differ where one gives a counter as absent and the other as zero.
    pub open spec fn same_ticks_as(&self, other: CpuTimeSnapshot) -> bool {
        &&& self.user == other.user
        &&& self.nice == other.nice
        &&& self.system == other.system
        &&& self.idle == other.idle
        &&& counter_ticks(self.iowait) == counter_ticks(other.iowait)
        &&& counter_ticks(self.irq) == counter_ticks(other.irq)
        &&& counter_ticks(self.softirq) == counter_ticks(other.softirq)
        &&& counter_ticks(self.steal) == counter_ticks(other.steal)
        &&& counter_ticks(self.guest) == counter_ticks(other.guest)
        &&& counter_ticks(self.guest_nice) == counter_ticks(other.guest_nice)
    }

    /// No counter of this reading is behind the same counter of `earlier`.
    pub open spec fn not_behind(&self, earlier: CpuTimeSnapshot) -> bool {
        &&& self.user >= earlier.user
        &&& self.nice >= earlier.nice
        &&& self.system >= earlier.system
        &&& self.idle >= earlier.idle
        &&& counter_ticks(self.iowait) >= counter_ticks(earlier.iowait)
        &&& counter_ticks(self.irq) >= counter_ticks(earlier.irq)
        &&& counter_ticks(self.softirq) >= counter_ticks(earlier.softirq)
        &&& counter_ticks(self.steal) >= counter_ticks(earlier.steal)
        &&& counter_ticks(self.guest) >= counter_ticks(earlier.guest)
        &&& counter_ticks(self.guest_nice) >= counter_ticks(earlier.guest_nice)
    }
}

/// CPU utilisation between two readings.
#[derive(Clone, Copy, Debug, PartialEq, Eq)]
pub enum CpuUsage {
    /// The counters did not advance between the readings, so there is nothing
    /// to divide by. Callers report a utilisation of zero.
    Unmeasurable,
    /// `total_delta` ticks passed, `idle_delta` of them without work: the
    /// utilisation is `1 - idle_delta / total_delta`.
    Measured { idle_delta: u128, total_delta: u128 },
}

impl CpuUsage {
    /// A measured utilisation has ticks to divide by.
    pub open spec fn wf(&self) -> bool {
        match *self {
            CpuUsage::Unmeasurable => true,
            CpuUsage::Measured { idle_delta, total_delta } => total_delta > 0,
        }
    }
}

/// One reading of the kernel's memory totals, in bytes.
///
/// A provider that works reports no more free than total memory. Nothing
/// here depends on that.
#[derive(Clone, Copy, Debug, PartialEq, Eq)]
pub struct MemorySnapshot {
    /// Total usable memory.
    pub mem_total: u64,
    /// Memory that nothing uses.
    pub mem_free: u64,
}

/// Total and free memory as text, each in gibibytes with two decimals, as in
/// `15.53 GiB`. Fixed once made.
#[derive(Debug, PartialEq, Eq)]
pub struct __Memory {
    total: String,
    free: String,
}

/// What a memory report reads.
pub ghost struct MemoryText {
    pub total: Seq<char>,
    pub free: Seq<char>,
}

impl View for __Memory {
    type V = MemoryText;

    closed spec fn view(&self) -> MemoryText {
        MemoryText { total: self.total@, free: self.free@ }
    }
}

impl __Memory {
    /// Makes the report for `total` and `free` bytes of memory.
    pub fn new(total: u64, free: u64) -> (report: Self)
        ensures
            report@.total == gib_text(total as nat),
            report@.free == gib_text(free as nat),
    {
        __Memory { total: format_gib(total), free: format_gib(free) }
    }

    /// The total memory, as text.
    pub fn total(&self) -> (text: &str)
        ensures
            text@ == self@.total,
    {
        self.total.as_str()
    }

    /// The free memory, as text.
    pub fn free(&self) -> (text: &str)
        ensures
            text@ == self@.free,
    {
        self.free.as_str()
    }
}

} // verus!
