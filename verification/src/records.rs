//! The snapshot records: identity, memory, disks and cores.
//!
//! A record is a plain value: it is made by the query that returns it and
//! never changes afterwards. Text fields are compared by their characters,
//! through the view of each record.

use crate::percent::{lemma_share_of_the_whole, Percent, FULL};
use vstd::prelude::*;

verus! {

/// What stands in a text field whose reading is not available.
pub const UNKNOWN: &'static str = "Unknown";

/// The identity of the host and its headline figures.
#[derive(Debug, Clone)]
pub struct SystemInfo {
    pub os: String,
    pub os_version: String,
    pub kernel_version: String,
    pub hostname: String,
    pub cpu_count: usize,
    pub total_memory: u64,
    pub used_memory: u64,
    pub uptime: u64,
}

/// A [`SystemInfo`] with its text fields as sequences of characters.
pub struct SystemInfoView {
    pub os: Seq<char>,
    pub os_version: Seq<char>,
    pub kernel_version: Seq<char>,
    pub hostname: Seq<char>,
    pub cpu_count: usize,
    pub total_memory: u64,
    pub used_memory: u64,
    pub uptime: u64,
}

impl View for SystemInfo {
    type V = SystemInfoView;

    open spec fn view(&self) -> SystemInfoView {
        SystemInfoView {
            os: self.os@,
            os_version: self.os_version@,
            kernel_version: self.kernel_version@,
            hostname: self.hostname@,
            cpu_count: self.cpu_count,
            total_memory: self.total_memory,
            used_memory: self.used_memory,
            uptime: self.uptime,
        }
    }
}

/// Memory in bytes, and the share of it that is in use.
#[derive(Debug, Clone, Copy, PartialEq, Eq, Structural)]
pub struct MemoryInfo {
    pub total: u64,
    pub used: u64,
    pub available: u64,
    pub usage_percent: Percent,
}

/// One mounted disk: its capacity in bytes and the share of it that is taken.
#[derive(Debug, Clone)]
pub struct DiskInfo {
    pub name: String,
    pub mount_point: String,
    pub total_space: u64,
    pub available_space: u64,
    pub usage_percent: Percent,
}

/// A [`DiskInfo`] with its text fields as sequences of characters.
pub struct DiskInfoView {
    pub name: Seq<char>,
    pub mount_point: Seq<char>,
    pub total_space: u64,
    pub available_space: u64,
    pub usage_percent: Percent,
}

impl View for DiskInfo {
    type V = DiskInfoView;

    open spec fn view(&self) -> DiskInfoView {
        DiskInfoView {
            name: self.name@,
            mount_point: self.mount_point@,
            total_space: self.total_space,
            available_space: self.available_space,
            usage_percent: self.usage_percent,
        }
    }
}

/// One logical core: its label, its load and its clock in MHz.
#[derive(Debug, Clone)]
pub struct CpuInfo {
    pub name: String,
    pub usage: Percent,
    pub frequency: u64,
}

/// A [`CpuInfo`] with its label as a sequence of characters.
pub struct CpuInfoView {
    pub name: Seq<char>,
    pub usage: Percent,
    pub frequency: u64,
}

impl View for CpuInfo {
    type V = CpuInfoView;

    open spec fn view(&self) -> CpuInfoView {
        CpuInfoView { name: self.name@, usage: self.usage, frequency: self.frequency }
    }
}

/// The views of the disks, in order.
pub open spec fn disk_views(disks: Seq<DiskInfo>) -> Seq<DiskInfoView> {
    Seq::new(disks.len(), |i: int| disks[i]@)
}

/// The views of the cores, in order.
pub open spec fn cpu_views(cpus: Seq<CpuInfo>) -> Seq<CpuInfoView> {
    Seq::new(cpus.len(), |i: int| cpus[i]@)
}

/// The reading, or the sentinel where there is none.
pub open spec fn spec_or_unknown(reading: Option<Seq<char>>) -> Seq<char> {
    match reading {
        Some(text) => text,
        None => UNKNOWN@,
    }
}

/// The characters of an optional text.
pub open spec fn reading_view(reading: Option<String>) -> Option<Seq<char>> {
    match reading {
        Some(text) => Some(text@),
        None => None,
    }
}

/// The reading, or the sentinel `Unknown` where the host gave none.
pub fn or_unknown(reading: Option<String>) -> (text: String)
    ensures
        text@ == spec_or_unknown(reading_view(reading)),
{
    match reading {
        Some(text) => text,
        None => String::from_str(UNKNOWN),
    }
}

/// How much of `total` is taken when `available` of it is left: the
/// difference, and nothing where more is reported available than there is.
pub open spec fn taken(total: u64, available: u64) -> u64 {
    if available >= total {
        0
    } else {
        (total - available) as u64
    }
}

impl SystemInfoView {
    /// The identity made of these readings, with the sentinel for each text
    /// that is missing.
    pub open spec fn from_readings(
        os: Option<Seq<char>>,
        os_version: Option<Seq<char>>,
        kernel_version: Option<Seq<char>>,
        hostname: Option<Seq<char>>,
        cpu_count: usize,
        total_memory: u64,
        used_memory: u64,
        uptime: u64,
    ) -> SystemInfoView {
        SystemInfoView {
            os: spec_or_unknown(os),
            os_version: spec_or_unknown(os_version),
            kernel_version: spec_or_unknown(kernel_version),
            hostname: spec_or_unknown(hostname),
            cpu_count,
            total_memory,
            used_memory,
            uptime,
        }
    }
}

impl SystemInfo {
    /// The identity made of these readings. A text that the host could not
    /// give is replaced by the sentinel; it is never left out.
    pub fn from_readings(
        os: Option<String>,
        os_version: Option<String>,
        kernel_version: Option<String>,
        hostname: Option<String>,
        cpu_count: usize,
        total_memory: u64,
        used_memory: u64,
        uptime: u64,
    ) -> (info: SystemInfo)
        ensures
            info@ == SystemInfoView::from_readings(
                reading_view(os),
                reading_view(os_version),
                reading_view(kernel_version),
                reading_view(hostname),
                cpu_count,
                total_memory,
                used_memory,
                uptime,
            ),
    {
        SystemInfo {
            os: or_unknown(os),
            os_version: or_unknown(os_version),
            kernel_version: or_unknown(kernel_version),
            hostname: or_unknown(hostname),
            cpu_count,
            total_memory,
            used_memory,
            uptime,
        }
    }
}

/// How much of `total` counts as used when `used` is reported: `used`, and
/// no more than `total` where more is reported used than there is.
pub open spec fn counted(total: u64, used: u64) -> u64 {
    if used > total {
        total
    } else {
        used
    }
}

impl MemoryInfo {
    /// The snapshot of these three counters.
    pub open spec fn spec_new(total: u64, used: u64, available: u64) -> MemoryInfo {
        MemoryInfo {
            total,
            used,
            available,
            usage_percent: Percent::spec_of(counted(total, used), total),
        }
    }

    /// The usage is the share in the total of the used bytes, held at the
    /// total.
    pub open spec fn wf(self) -> bool {
        self.usage_percent == Percent::spec_of(counted(self.total, self.used), self.total)
    }

    /// The snapshot of these three counters. The counters are kept as they
    /// are reported. The usage is `used / total` as a percentage, held at one
    /// hundred percent where more is reported used than the total, and zero
    /// where `total` is zero.
    #[verifier::when_used_as_spec(spec_new)]
    pub fn new(total: u64, used: u64, available: u64) -> (m: MemoryInfo)
        ensures
            m == MemoryInfo::spec_new(total, used, available),
            m.wf(),
            m.usage_percent.within_full(),
            used <= total ==> m.usage_percent == Percent::spec_of(used, total),
            total > 0 && used > total ==> m.usage_percent.hundredths == FULL,
            total == 0 ==> m.usage_percent == Percent::spec_zero(),
    {
        proof {
            if total > 0 {
                lemma_share_of_the_whole(total as nat);
            }
        }
        let counted = if used > total {
            total
        } else {
            used
        };
        MemoryInfo { total, used, available, usage_percent: Percent::of(counted, total) }
    }
}

impl DiskInfoView {
    /// The mount with this name, place and capacity.
    pub open spec fn new(
        name: Seq<char>,
        mount_point: Seq<char>,
        total_space: u64,
        available_space: u64,
    ) -> DiskInfoView {
        DiskInfoView {
            name,
            mount_point,
            total_space,
            available_space,
            usage_percent: Percent::spec_of(taken(total_space, available_space), total_space),
        }
    }

    /// The usage is the share of the taken bytes in the total.
    pub open spec fn wf(self) -> bool {
        self.usage_percent == Percent::spec_of(
            taken(self.total_space, self.available_space),
            self.total_space,
        )
    }
}

impl DiskInfo {
    /// The mount with this name, place and capacity. The usage is
    /// `(total - available) / total` as a percentage, with the difference held
    /// at zero where more is available than the total, and zero where the
    /// total is zero.
    pub fn new(name: String, mount_point: String, total_space: u64, available_space: u64) -> (d:
        DiskInfo)
        ensures
            d@ == DiskInfoView::new(name@, mount_point@, total_space, available_space),
            d@.wf(),
            d.usage_percent.within_full(),
    {
        let used = total_space.saturating_sub(available_space);
        DiskInfo {
            name,
            mount_point,
            total_space,
            available_space,
            usage_percent: Percent::of(used, total_space),
        }
    }
}

} // verus!
