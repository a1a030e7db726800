//! Where the telemetry comes from.
//!
//! A [`TelemetrySource`] is either live or sandboxed. The live source keeps a
//! `sysinfo::System` and reads it; what the operating system answers is not
//! known to the verifier, so the contracts speak of what the `System` holds
//! after its last refresh. The sandboxed source has no access to the host and
//! answers every query with the same fixed, empty values.

use crate::percent::Percent;
use crate::records::{
    cpu_views, disk_views, CpuInfo, CpuInfoView, DiskInfo, DiskInfoView, MemoryInfo, SystemInfo,
    SystemInfoView,
};
use vstd::prelude::*;

verus! {

/// `sysinfo::System`: what one process has read of the host. It is opaque
/// here; [`cached_memory`] and [`cached_cores`] name what it holds.
#[verifier::external_type_specification]
#[verifier::external_body]
pub struct ExSystem(sysinfo::System);

/// `sysinfo::Disks`: a listing of mounted disks. It is opaque here;
/// [`listed_disks`] names what it lists.
#[verifier::external_type_specification]
#[verifier::external_body]
pub struct ExDisks(sysinfo::Disks);

/// `sysinfo::Disk`: one entry of a listing, declared because `Disks` hands it
/// out; it is only reached through the listing.
#[verifier::external_type_specification]
#[verifier::external_body]
pub struct ExDisk(sysinfo::Disk);

/// The memory counters of a host, in bytes.
pub struct MemoryReading {
    pub total: u64,
    pub used: u64,
    pub available: u64,
}

/// What a host reports of one logical core. The load is the bit pattern of a
/// single-precision number of percents.
pub struct CoreReading {
    pub name: Seq<char>,
    pub usage_bits: u32,
    pub frequency: u64,
}

/// What a host reports of one mounted disk.
pub struct DiskReading {
    pub name: Seq<char>,
    pub mount_point: Seq<char>,
    pub total_space: u64,
    pub available_space: u64,
}

/// The memory counters that a `System` holds since its last refresh.
pub uninterp spec fn cached_memory(sys: sysinfo::System) -> MemoryReading;

/// The cores that a `System` holds since its last refresh, in its order.
pub uninterp spec fn cached_cores(sys: sysinfo::System) -> Seq<CoreReading>;

/// The disks that a `Disks` lists, in its order, with names and mount points
/// as text in which what is not Unicode is replaced.
pub uninterp spec fn listed_disks(disks: sysinfo::Disks) -> Seq<DiskReading>;

/// `System::new_all`: a `System` with everything loaded. Nothing is claimed of
/// what it holds.
#[verifier::external_body]
fn system_new_all() -> sysinfo::System {
    sysinfo::System::new_all()
}

/// `System::refresh_all`. Nothing is claimed of what the `System` holds
/// afterwards.
#[verifier::external_body]
fn system_refresh_all(sys: &mut sysinfo::System) {
    sys.refresh_all()
}

/// `System::refresh_memory`. Nothing is claimed of what the `System` holds
/// afterwards.
#[verifier::external_body]
fn system_refresh_memory(sys: &mut sysinfo::System) {
    sys.refresh_memory()
}

/// `System::refresh_cpu_all`. Nothing is claimed of what the `System` holds
/// afterwards.
#[verifier::external_body]
fn system_refresh_cpu_all(sys: &mut sysinfo::System) {
    sys.refresh_cpu_all()
}

/// `System::total_memory`: reads the total that the `System` holds.
#[verifier::external_body]
fn system_total_memory(sys: &sysinfo::System) -> (bytes: u64)
    ensures
        bytes == cached_memory(*sys).total,
{
    sys.total_memory()
}

/// `System::available_memory`: reads the available bytes that the `System`
/// holds.
#[verifier::external_body]
fn system_available_memory(sys: &sysinfo::System) -> (bytes: u64)
    ensures
        bytes == cached_memory(*sys).available,
{
    sys.available_memory()
}

/// `System::used_memory`: the used bytes that the `System` holds. On some
/// hosts it is computed as the total less the available bytes, which fails
/// where more is available than the total: such a `System` is left out.
#[verifier::external_body]
fn system_used_memory(sys: &sysinfo::System) -> (bytes: u64)
    requires
        cached_memory(*sys).available <= cached_memory(*sys).total,
    ensures
        bytes == cached_memory(*sys).used,
{
    sys.used_memory()
}

/// The length of `System::cpus`.
#[verifier::external_body]
fn system_core_count(sys: &sysinfo::System) -> (n: usize)
    ensures
        n == cached_cores(*sys).len(),
{
    sys.cpus().len()
}

/// `Cpu::name` of the core at `index` of `System::cpus`.
#[verifier::external_body]
fn system_core_name(sys: &sysinfo::System, index: usize) -> (name: String)
    requires
        index < cached_cores(*sys).len(),
    ensures
        name@ == cached_cores(*sys)[index as int].name,
{
    sys.cpus()[index].name().to_string()
}

/// `Cpu::cpu_usage` of the core at `index` of `System::cpus`, as the bit
/// pattern of the number.
#[verifier::external_body]
fn system_core_usage_bits(sys: &sysinfo::System, index: usize) -> (bits: u32)
    requires
        index < cached_cores(*sys).len(),
    ensures
        bits == cached_cores(*sys)[index as int].usage_bits,
{
    sys.cpus()[index].cpu_usage().to_bits()
}

/// `Cpu::frequency` of the core at `index` of `System::cpus`.
#[verifier::external_body]
fn system_core_frequency(sys: &sysinfo::System, index: usize) -> (mhz: u64)
    requires
        index < cached_cores(*sys).len(),
    ensures
        mhz == cached_cores(*sys)[index as int].frequency,
{
    sys.cpus()[index].frequency()
}

/// `System::name`: the name of the operating system, where the host gives it.
#[verifier::external_body]
fn host_os_name() -> Option<String> {
    sysinfo::System::name()
}

/// `System::os_version`: the version of the operating system, where the host
/// gives it.
#[verifier::external_body]
fn host_os_version() -> Option<String> {
    sysinfo::System::os_version()
}

/// `System::kernel_version`: the version of the kernel, where the host gives
/// it.
#[verifier::external_body]
fn host_kernel_version() -> Option<String> {
    sysinfo::System::kernel_version()
}

/// `System::host_name`: the name of the host, where the host gives it.
#[verifier::external_body]
fn host_name() -> Option<String> {
    sysinfo::System::host_name()
}

/// `System::uptime`: seconds since the host started.
#[verifier::external_body]
fn host_uptime() -> u64 {
    sysinfo::System::uptime()
}

/// `Disks::new_with_refreshed_list`: the disks mounted now. Nothing is claimed
/// of what is listed.
#[verifier::external_body]
fn disks_refreshed() -> sysinfo::Disks {
    sysinfo::Disks::new_with_refreshed_list()
}

/// The length of `Disks::list`.
#[verifier::external_body]
fn disks_count(disks: &sysinfo::Disks) -> (n: usize)
    ensures
        n == listed_disks(*disks).len(),
{
    disks.list().len()
}

/// `Disk::name` of the disk at `index` of `Disks::list`, as text.
#[verifier::external_body]
fn disks_name(disks: &sysinfo::Disks, index: usize) -> (name: String)
    requires
        index < listed_disks(*disks).len(),
    ensures
        name@ == listed_disks(*disks)[index as int].name,
{
    disks.list()[index].name().to_string_lossy().to_string()
}

/// `Disk::mount_point` of the disk at `index` of `Disks::list`, as text.
#[verifier::external_body]
fn disks_mount_point(disks: &sysinfo::Disks, index: usize) -> (place: String)
    requires
        index < listed_disks(*disks).len(),
    ensures
        place@ == listed_disks(*disks)[index as int].mount_point,
{
    disks.list()[index].mount_point().to_string_lossy().to_string()
}

/// `Disk::total_space` of the disk at `index` of `Disks::list`.
#[verifier::external_body]
fn disks_total_space(disks: &sysinfo::Disks, index: usize) -> (bytes: u64)
    requires
        index < listed_disks(*disks).len(),
    ensures
        bytes == listed_disks(*disks)[index as int].total_space,
{
    disks.list()[index].total_space()
}

/// `Disk::available_space` of the disk at `index` of `Disks::list`.
#[verifier::external_body]
fn disks_available_space(disks: &sysinfo::Disks, index: usize) -> (bytes: u64)
    requires
        index < listed_disks(*disks).len(),
    ensures
        bytes == listed_disks(*disks)[index as int].available_space,
{
    disks.list()[index].available_space()
}

/// The used bytes of a reading, and nothing where the reading has more bytes
/// available than it has in total.
pub open spec fn used_of(reading: MemoryReading) -> u64 {
    if reading.available <= reading.total {
        reading.used
    } else {
        0
    }
}

/// The memory record of a reading.
pub open spec fn memory_of(reading: MemoryReading) -> MemoryInfo {
    MemoryInfo::spec_new(reading.total, used_of(reading), reading.available)
}

/// The core record of a reading.
pub open spec fn core_of(reading: CoreReading) -> CpuInfoView {
    CpuInfoView {
        name: reading.name,
        usage: Percent::spec_from_single_bits(reading.usage_bits),
        frequency: reading.frequency,
    }
}

/// The core records of the readings, one for each and in their order.
pub open spec fn cores_of(readings: Seq<CoreReading>) -> Seq<CpuInfoView> {
    Seq::new(readings.len(), |i: int| core_of(readings[i]))
}

/// The disk record of a reading.
pub open spec fn disk_of(reading: DiskReading) -> DiskInfoView {
    DiskInfoView::new(
        reading.name,
        reading.mount_point,
        reading.total_space,
        reading.available_space,
    )
}

/// The disk records of the readings, one for each and in their order.
pub open spec fn disks_of(readings: Seq<DiskReading>) -> Seq<DiskInfoView> {
    Seq::new(readings.len(), |i: int| disk_of(readings[i]))
}

/// These are the disk records of some listing: one for each disk that it
/// lists, in its order. Which listing it is, the host decides.
pub open spec fn records_of_a_listing(disks: Seq<DiskInfoView>) -> bool {
    exists|listing: sysinfo::Disks| disks == disks_of(#[trigger] listed_disks(listing))
}

/// Every disk's usage is the share of its taken bytes, and so at most one
/// hundred percent.
pub open spec fn disks_wf(disks: Seq<DiskInfoView>) -> bool {
    forall|i: int|
        0 <= i < disks.len() ==> (#[trigger] disks[i]).wf() && disks[i].usage_percent.within_full()
}

/// The used bytes that `sys` holds, read only where the reading is sound.
fn read_used_memory(sys: &sysinfo::System) -> (bytes: u64)
    ensures
        bytes == used_of(cached_memory(*sys)),
{
    if system_available_memory(sys) <= system_total_memory(sys) {
        system_used_memory(sys)
    } else {
        0
    }
}

/// The disk records of a listing, one for each disk and in the listing's
/// order.
pub fn disk_records(listing: &sysinfo::Disks) -> (disks: Vec<DiskInfo>)
    ensures
        disk_views(disks@) == disks_of(listed_disks(*listing)),
        disks_wf(disk_views(disks@)),
{
    let count = disks_count(listing);
    let mut disks: Vec<DiskInfo> = Vec::new();
    let mut i: usize = 0;
    while i < count
        invariant
            i <= count,
            count == listed_disks(*listing).len(),
            disks@.len() == i,
            forall|j: int|
                0 <= j < i ==> (#[trigger] disks@[j])@ == disk_of(listed_disks(*listing)[j]),
            forall|j: int|
                0 <= j < i ==> (#[trigger] disks@[j])@.wf() && disks@[j].usage_percent.within_full(),
        decreases count - i,
    {
        let disk = DiskInfo::new(
            disks_name(listing, i),
            disks_mount_point(listing, i),
            disks_total_space(listing, i),
            disks_available_space(listing, i),
        );
        disks.push(disk);
        i += 1;
    }
    disks
}

/// The source that asks the operating system.
pub struct LiveSource {
    sys: sysinfo::System,
}

impl LiveSource {
    /// The memory record of what this source holds.
    pub closed spec fn memory(&self) -> MemoryInfo {
        memory_of(cached_memory(self.sys))
    }

    /// The core records of what this source holds.
    pub closed spec fn cores(&self) -> Seq<CpuInfoView> {
        cores_of(cached_cores(self.sys))
    }

    /// A source with everything loaded and refreshed once.
    pub fn new() -> (source: LiveSource) {
        let mut sys = system_new_all();
        system_refresh_all(&mut sys);
        LiveSource { sys }
    }

    /// Reads memory, cores and processes anew.
    pub fn refresh_all(&mut self) {
        system_refresh_all(&mut self.sys);
    }

    /// Reads the memory counters anew.
    pub fn refresh_memory(&mut self) {
        system_refresh_memory(&mut self.sys);
    }

    /// Reads the load and the clock of each core anew.
    pub fn refresh_cpu(&mut self) {
        system_refresh_cpu_all(&mut self.sys);
    }

    /// The identity of the host. Each text is what the host gives now, or the
    /// sentinel; the figures are those that this source holds.
    pub fn query_identity(&self) -> (info: SystemInfo)
        ensures
            info.cpu_count == self.cores().len(),
            info.total_memory == self.memory().total,
            info.used_memory == self.memory().used,
    {
        SystemInfo::from_readings(
            host_os_name(),
            host_os_version(),
            host_kernel_version(),
            host_name(),
            system_core_count(&self.sys),
            system_total_memory(&self.sys),
            read_used_memory(&self.sys),
            host_uptime(),
        )
    }

    /// The memory record of what this source holds.
    pub fn query_memory(&self) -> (m: MemoryInfo)
        ensures
            m == self.memory(),
            m.wf(),
            m.usage_percent.within_full(),
    {
        MemoryInfo::new(
            system_total_memory(&self.sys),
            read_used_memory(&self.sys),
            system_available_memory(&self.sys),
        )
    }

    /// The disks mounted now, listed anew at each call: the records of the
    /// listing that the host gives, one for each of its disks and in its
    /// order.
    pub fn list_disks(&self) -> (disks: Vec<DiskInfo>)
        ensures
            records_of_a_listing(disk_views(disks@)),
            disks_wf(disk_views(disks@)),
    {
        let listing = disks_refreshed();
        let disks = disk_records(&listing);
        assert(disk_views(disks@) == disks_of(#[trigger] listed_disks(listing)));
        disks
    }

    /// One record for each core that this source holds, in its order.
    pub fn query_cpus(&self) -> (cpus: Vec<CpuInfo>)
        ensures
            cpu_views(cpus@) == self.cores(),
    {
        let count = system_core_count(&self.sys);
        let mut cpus: Vec<CpuInfo> = Vec::new();
        let mut i: usize = 0;
        while i < count
            invariant
                i <= count,
                count == cached_cores(self.sys).len(),
                cpus@.len() == i,
                forall|j: int|
                    0 <= j < i ==> (#[trigger] cpus@[j])@ == core_of(cached_cores(self.sys)[j]),
            decreases count - i,
        {
            let core = CpuInfo {
                name: system_core_name(&self.sys, i),
                usage: Percent::from_single_bits(system_core_usage_bits(&self.sys, i)),
                frequency: system_core_frequency(&self.sys, i),
            };
            cpus.push(core);
            i += 1;
        }
        cpus
    }
}

/// The name of the operating system that the sandboxed source reports.
pub const SANDBOX_OS: &'static str = "WASM";

/// What the sandboxed source reports for a version.
pub const SANDBOX_VERSION: &'static str = "N/A";

/// The name of the host that the sandboxed source reports.
pub const SANDBOX_HOST: &'static str = "browser";

/// The identity that the sandboxed source reports.
pub open spec fn sandbox_identity() -> SystemInfoView {
    SystemInfoView {
        os: SANDBOX_OS@,
        os_version: SANDBOX_VERSION@,
        kernel_version: SANDBOX_VERSION@,
        hostname: SANDBOX_HOST@,
        cpu_count: 0,
        total_memory: 0,
        used_memory: 0,
        uptime: 0,
    }
}

/// The memory record that the sandboxed source reports: nothing of nothing.
pub open spec fn sandbox_memory() -> MemoryInfo {
    MemoryInfo::spec_new(0, 0, 0)
}

/// The source without access to a host. Every answer is fixed.
#[derive(Debug, Clone, Copy)]
pub struct SandboxedSource {}

impl SandboxedSource {
    /// Markers in place of the texts, and zero for every figure.
    pub fn query_identity(&self) -> (info: SystemInfo)
        ensures
            info@ == sandbox_identity(),
    {
        SystemInfo {
            os: String::from_str(SANDBOX_OS),
            os_version: String::from_str(SANDBOX_VERSION),
            kernel_version: String::from_str(SANDBOX_VERSION),
            hostname: String::from_str(SANDBOX_HOST),
            cpu_count: 0,
            total_memory: 0,
            used_memory: 0,
            uptime: 0,
        }
    }

    /// Zero for every counter, and a usage of zero.
    pub fn query_memory(&self) -> (m: MemoryInfo)
        ensures
            m == sandbox_memory(),
            m.wf(),
            m.usage_percent == Percent::spec_zero(),
    {
        MemoryInfo::new(0, 0, 0)
    }

    /// No disks.
    pub fn list_disks(&self) -> (disks: Vec<DiskInfo>)
        ensures
            disks@.len() == 0,
    {
        Vec::new()
    }

    /// No cores.
    pub fn query_cpus(&self) -> (cpus: Vec<CpuInfo>)
        ensures
            cpus@.len() == 0,
    {
        Vec::new()
    }
}

/// The one source behind a monitor: live or sandboxed.
pub enum TelemetrySource {
    Live(LiveSource),
    Sandboxed(SandboxedSource),
}

impl TelemetrySource {
    /// Whether this source asks the operating system.
    pub open spec fn is_live(&self) -> bool {
        self is Live
    }

    /// The memory record that this source answers with.
    pub open spec fn memory(&self) -> MemoryInfo {
        match self {
            TelemetrySource::Live(live) => live.memory(),
            TelemetrySource::Sandboxed(_) => sandbox_memory(),
        }
    }

    /// The core records that this source answers with.
    pub open spec fn cores(&self) -> Seq<CpuInfoView> {
        match self {
            TelemetrySource::Live(live) => live.cores(),
            TelemetrySource::Sandboxed(_) => Seq::empty(),
        }
    }

    /// The live source, loaded and refreshed once.
    pub fn live() -> (source: TelemetrySource)
        ensures
            source.is_live(),
    {
        TelemetrySource::Live(LiveSource::new())
    }

    /// The sandboxed source.
    pub fn sandboxed() -> (source: TelemetrySource)
        ensures
            !source.is_live(),
    {
        TelemetrySource::Sandboxed(SandboxedSource {  })
    }

    /// Reads everything anew. The sandboxed source is left as it is.
    pub fn refresh_all(&mut self)
        ensures
            final(self).is_live() == old(self).is_live(),
            !old(self).is_live() ==> *final(self) == *old(self),
    {
        match self {
            TelemetrySource::Live(live) => live.refresh_all(),
            TelemetrySource::Sandboxed(_) => {},
        }
    }

    /// Reads the memory counters anew. The sandboxed source is left as it is.
    pub fn refresh_memory(&mut self)
        ensures
            final(self).is_live() == old(self).is_live(),
            !old(self).is_live() ==> *final(self) == *old(self),
    {
        match self {
            TelemetrySource::Live(live) => live.refresh_memory(),
            TelemetrySource::Sandboxed(_) => {},
        }
    }

    /// Reads the cores anew. The sandboxed source is left as it is.
    pub fn refresh_cpu(&mut self)
        ensures
            final(self).is_live() == old(self).is_live(),
            !old(self).is_live() ==> *final(self) == *old(self),
    {
        match self {
            TelemetrySource::Live(live) => live.refresh_cpu(),
            TelemetrySource::Sandboxed(_) => {},
        }
    }

    /// The identity of the host.
    pub fn query_identity(&self) -> (info: SystemInfo)
        ensures
            info.cpu_count == self.cores().len(),
            info.total_memory == self.memory().total,
            info.used_memory == self.memory().used,
            !self.is_live() ==> info@ == sandbox_identity(),
    {
        match self {
            TelemetrySource::Live(live) => live.query_identity(),
            TelemetrySource::Sandboxed(sandbox) => sandbox.query_identity(),
        }
    }

    /// The memory record.
    pub fn query_memory(&self) -> (m: MemoryInfo)
        ensures
            m == self.memory(),
            m.wf(),
            m.usage_percent.within_full(),
    {
        match self {
            TelemetrySource::Live(live) => live.query_memory(),
            TelemetrySource::Sandboxed(sandbox) => sandbox.query_memory(),
        }
    }

    /// The disks mounted now: for the live source the records of the listing
    /// that the host gives, one for each of its disks and in its order; for
    /// the sandboxed source none.
    pub fn list_disks(&self) -> (disks: Vec<DiskInfo>)
        ensures
            self.is_live() ==> records_of_a_listing(disk_views(disks@)),
            !self.is_live() ==> disks@.len() == 0,
            disks_wf(disk_views(disks@)),
    {
        match self {
            TelemetrySource::Live(live) => live.list_disks(),
            TelemetrySource::Sandboxed(sandbox) => sandbox.list_disks(),
        }
    }

    /// One record for each core, in the host's order. The sandboxed source has
    /// none.
    pub fn query_cpus(&self) -> (cpus: Vec<CpuInfo>)
        ensures
            cpu_views(cpus@) == self.cores(),
    {
        match self {
            TelemetrySource::Live(live) => live.query_cpus(),
            TelemetrySource::Sandboxed(sandbox) => sandbox.query_cpus(),
        }
    }
}

} // verus!
