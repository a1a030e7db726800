//! The text of each record and of each sequence of records.

use crate::encode::{
    decimal_text, empty_record_text, percent_number, quote, RecordWriter, SequenceWriter,
};
use crate::grammar::{
    decimal, empty_record, empty_sequence, is_key, is_member, is_record, is_sequence,
    lemma_decimal_is_whole_number, lemma_empty_encodings,
    lemma_member_is_member, lemma_percent_is_number, lemma_quoted_is_string,
    lemma_record_is_record, lemma_sequence_is_sequence, member, percent_text, quoted, record,
    sequence,
};
use crate::records::{
    cpu_views, disk_views, CpuInfo, CpuInfoView, DiskInfo, DiskInfoView, MemoryInfo, SystemInfo,
    SystemInfoView,
};
use vstd::prelude::*;

verus! {

/// The members of a system record, in the order in which they are written.
pub open spec fn system_members(v: SystemInfoView) -> Seq<Seq<char>> {
    seq![
        member("os"@, quoted(v.os)),
        member("os_version"@, quoted(v.os_version)),
        member("kernel_version"@, quoted(v.kernel_version)),
        member("hostname"@, quoted(v.hostname)),
        member("cpu_count"@, decimal(v.cpu_count as nat)),
        member("total_memory"@, decimal(v.total_memory as nat)),
        member("used_memory"@, decimal(v.used_memory as nat)),
        member("uptime"@, decimal(v.uptime as nat)),
    ]
}

/// The members of a memory record, in the order in which they are written.
pub open spec fn memory_members(m: MemoryInfo) -> Seq<Seq<char>> {
    seq![
        member("total"@, decimal(m.total as nat)),
        member("used"@, decimal(m.used as nat)),
        member("available"@, decimal(m.available as nat)),
        member("usage_percent"@, percent_text(m.usage_percent.hundredths as nat)),
    ]
}

/// The members of a disk record, in the order in which they are written.
pub open spec fn disk_members(v: DiskInfoView) -> Seq<Seq<char>> {
    seq![
        member("name"@, quoted(v.name)),
        member("mount_point"@, quoted(v.mount_point)),
        member("total_space"@, decimal(v.total_space as nat)),
        member("available_space"@, decimal(v.available_space as nat)),
        member("usage_percent"@, percent_text(v.usage_percent.hundredths as nat)),
    ]
}

/// The members of a core record, in the order in which they are written.
pub open spec fn cpu_members(v: CpuInfoView) -> Seq<Seq<char>> {
    seq![
        member("name"@, quoted(v.name)),
        member("usage"@, percent_text(v.usage.hundredths as nat)),
        member("frequency"@, decimal(v.frequency as nat)),
    ]
}

/// The text of a system record.
pub open spec fn system_text(v: SystemInfoView) -> Seq<char> {
    record(system_members(v))
}

/// The text of a memory record.
pub open spec fn memory_text(m: MemoryInfo) -> Seq<char> {
    record(memory_members(m))
}

/// The text of a disk record.
pub open spec fn disk_text(v: DiskInfoView) -> Seq<char> {
    record(disk_members(v))
}

/// The text of a core record.
pub open spec fn cpu_text(v: CpuInfoView) -> Seq<char> {
    record(cpu_members(v))
}

/// The text of each disk, in order.
pub open spec fn disk_items(disks: Seq<DiskInfoView>) -> Seq<Seq<char>> {
    Seq::new(disks.len(), |i: int| disk_text(disks[i]))
}

/// The text of each core, in order.
pub open spec fn cpu_items(cpus: Seq<CpuInfoView>) -> Seq<Seq<char>> {
    Seq::new(cpus.len(), |i: int| cpu_text(cpus[i]))
}

/// The text of a sequence of disk records.
pub open spec fn disks_text(disks: Seq<DiskInfoView>) -> Seq<char> {
    sequence(disk_items(disks))
}

/// The text of a sequence of core records.
pub open spec fn cpus_text(cpus: Seq<CpuInfoView>) -> Seq<char> {
    sequence(cpu_items(cpus))
}

/// Every name of a member is a key.
proof fn lemma_keys()
    ensures
        is_key("os"@),
        is_key("os_version"@),
        is_key("kernel_version"@),
        is_key("hostname"@),
        is_key("cpu_count"@),
        is_key("total_memory"@),
        is_key("used_memory"@),
        is_key("uptime"@),
        is_key("total"@),
        is_key("used"@),
        is_key("available"@),
        is_key("usage_percent"@),
        is_key("name"@),
        is_key("mount_point"@),
        is_key("total_space"@),
        is_key("available_space"@),
        is_key("usage"@),
        is_key("frequency"@),
{
    reveal_strlit("os");
    reveal_strlit("os_version");
    reveal_strlit("kernel_version");
    reveal_strlit("hostname");
    reveal_strlit("cpu_count");
    reveal_strlit("total_memory");
    reveal_strlit("used_memory");
    reveal_strlit("uptime");
    reveal_strlit("total");
    reveal_strlit("used");
    reveal_strlit("available");
    reveal_strlit("usage_percent");
    reveal_strlit("name");
    reveal_strlit("mount_point");
    reveal_strlit("total_space");
    reveal_strlit("available_space");
    reveal_strlit("usage");
    reveal_strlit("frequency");
}

/// A member with a key and a number for its value is well formed.
proof fn lemma_number_member(key: Seq<char>, n: nat)
    requires
        is_key(key),
    ensures
        is_member(member(key, decimal(n))),
{
    lemma_decimal_is_whole_number(n);
    lemma_member_is_member(key, decimal(n));
}

/// A member with a key and a percentage for its value is well formed.
proof fn lemma_percent_member(key: Seq<char>, hundredths: nat)
    requires
        is_key(key),
    ensures
        is_member(member(key, percent_text(hundredths))),
{
    lemma_percent_is_number(hundredths);
    lemma_member_is_member(key, percent_text(hundredths));
}

/// A member with a key and a string for its value is well formed.
proof fn lemma_string_member(key: Seq<char>, s: Seq<char>)
    requires
        is_key(key),
    ensures
        is_member(member(key, quoted(s))),
{
    lemma_quoted_is_string(s);
    lemma_member_is_member(key, quoted(s));
}

/// The text of every system record is a well-formed record.
pub proof fn lemma_system_text_is_record(v: SystemInfoView)
    ensures
        is_record(system_text(v)),
{
    lemma_keys();
    lemma_string_member("os"@, v.os);
    lemma_string_member("os_version"@, v.os_version);
    lemma_string_member("kernel_version"@, v.kernel_version);
    lemma_string_member("hostname"@, v.hostname);
    lemma_number_member("cpu_count"@, v.cpu_count as nat);
    lemma_number_member("total_memory"@, v.total_memory as nat);
    lemma_number_member("used_memory"@, v.used_memory as nat);
    lemma_number_member("uptime"@, v.uptime as nat);
    lemma_record_is_record(system_members(v));
}

/// The text of every memory record is a well-formed record.
pub proof fn lemma_memory_text_is_record(m: MemoryInfo)
    ensures
        is_record(memory_text(m)),
{
    lemma_keys();
    lemma_number_member("total"@, m.total as nat);
    lemma_number_member("used"@, m.used as nat);
    lemma_number_member("available"@, m.available as nat);
    lemma_percent_member("usage_percent"@, m.usage_percent.hundredths as nat);
    lemma_record_is_record(memory_members(m));
}

/// The text of every disk record is a well-formed record.
pub proof fn lemma_disk_text_is_record(v: DiskInfoView)
    ensures
        is_record(disk_text(v)),
{
    lemma_keys();
    lemma_string_member("name"@, v.name);
    lemma_string_member("mount_point"@, v.mount_point);
    lemma_number_member("total_space"@, v.total_space as nat);
    lemma_number_member("available_space"@, v.available_space as nat);
    lemma_percent_member("usage_percent"@, v.usage_percent.hundredths as nat);
    lemma_record_is_record(disk_members(v));
}

/// The text of every core record is a well-formed record.
pub proof fn lemma_cpu_text_is_record(v: CpuInfoView)
    ensures
        is_record(cpu_text(v)),
{
    lemma_keys();
    lemma_string_member("name"@, v.name);
    lemma_percent_member("usage"@, v.usage.hundredths as nat);
    lemma_number_member("frequency"@, v.frequency as nat);
    lemma_record_is_record(cpu_members(v));
}

/// The text of every sequence of disks is a well-formed sequence of
/// well-formed disk records, the empty sequence included.
pub proof fn lemma_disks_text_is_sequence(disks: Seq<DiskInfoView>)
    ensures
        is_sequence(disks_text(disks)),
{
    let items = disk_items(disks);
    assert forall|i: int| 0 <= i < items.len() implies is_record(#[trigger] items[i]) by {
        lemma_disk_text_is_record(disks[i]);
    }
    lemma_sequence_is_sequence(items);
}

/// The text of every sequence of cores is a well-formed sequence of
/// well-formed core records, the empty sequence included.
pub proof fn lemma_cpus_text_is_sequence(cpus: Seq<CpuInfoView>)
    ensures
        is_sequence(cpus_text(cpus)),
{
    let items = cpu_items(cpus);
    assert forall|i: int| 0 <= i < items.len() implies is_record(#[trigger] items[i]) by {
        lemma_cpu_text_is_record(cpus[i]);
    }
    lemma_sequence_is_sequence(items);
}

impl SystemInfo {
    /// This record as text, for use as one item of a sequence.
    pub fn wire_item(&self) -> (text: Option<String>)
        ensures
            text matches Some(t) && t@ == system_text(self@),
    {
        let mut w = RecordWriter::new();
        w.put("os", quote(self.os.as_str()));
        w.put("os_version", quote(self.os_version.as_str()));
        w.put("kernel_version", quote(self.kernel_version.as_str()));
        w.put("hostname", quote(self.hostname.as_str()));
        w.put("cpu_count", Some(decimal_text(self.cpu_count as u64)));
        w.put("total_memory", Some(decimal_text(self.total_memory)));
        w.put("used_memory", Some(decimal_text(self.used_memory)));
        w.put("uptime", Some(decimal_text(self.uptime)));
        proof {
            assert(w.members() =~= system_members(self@));
        }
        w.into_text()
    }

    /// This record as text.
    pub fn to_wire(&self) -> (text: String)
        ensures
            text@ == system_text(self@),
            is_record(text@),
    {
        proof {
            lemma_system_text_is_record(self@);
        }
        record_or_empty(self.wire_item())
    }
}

impl MemoryInfo {
    /// This record as text.
    pub fn to_wire(&self) -> (text: String)
        ensures
            text@ == memory_text(*self),
            is_record(text@),
    {
        let mut w = RecordWriter::new();
        w.put("total", Some(decimal_text(self.total)));
        w.put("used", Some(decimal_text(self.used)));
        w.put("available", Some(decimal_text(self.available)));
        w.put("usage_percent", Some(percent_number(self.usage_percent)));
        proof {
            assert(w.members() =~= memory_members(*self));
            lemma_memory_text_is_record(*self);
        }
        w.finish()
    }
}

impl DiskInfo {
    /// This record as text, for use as one item of a sequence.
    pub fn wire_item(&self) -> (text: Option<String>)
        ensures
            text matches Some(t) && t@ == disk_text(self@),
    {
        let mut w = RecordWriter::new();
        w.put("name", quote(self.name.as_str()));
        w.put("mount_point", quote(self.mount_point.as_str()));
        w.put("total_space", Some(decimal_text(self.total_space)));
        w.put("available_space", Some(decimal_text(self.available_space)));
        w.put("usage_percent", Some(percent_number(self.usage_percent)));
        proof {
            assert(w.members() =~= disk_members(self@));
        }
        w.into_text()
    }

    /// This record as text.
    pub fn to_wire(&self) -> (text: String)
        ensures
            text@ == disk_text(self@),
            is_record(text@),
    {
        proof {
            lemma_disk_text_is_record(self@);
        }
        record_or_empty(self.wire_item())
    }
}

impl CpuInfo {
    /// This record as text, for use as one item of a sequence.
    pub fn wire_item(&self) -> (text: Option<String>)
        ensures
            text matches Some(t) && t@ == cpu_text(self@),
    {
        let mut w = RecordWriter::new();
        w.put("name", quote(self.name.as_str()));
        w.put("usage", Some(percent_number(self.usage)));
        w.put("frequency", Some(decimal_text(self.frequency)));
        proof {
            assert(w.members() =~= cpu_members(self@));
        }
        w.into_text()
    }

    /// This record as text.
    pub fn to_wire(&self) -> (text: String)
        ensures
            text@ == cpu_text(self@),
            is_record(text@),
    {
        proof {
            lemma_cpu_text_is_record(self@);
        }
        record_or_empty(self.wire_item())
    }
}

/// The text of a record, or the empty record where there is none.
pub fn record_or_empty(item: Option<String>) -> (text: String)
    ensures
        text@ == match item {
            Some(t) => t@,
            None => empty_record(),
        },
{
    match item {
        Some(t) => t,
        None => empty_record_text(),
    }
}

/// The disks as one sequence, in their order. No disks make the empty
/// sequence.
pub fn disks_to_wire(disks: &Vec<DiskInfo>) -> (text: String)
    ensures
        text@ == disks_text(disk_views(disks@)),
        disks@.len() == 0 ==> text@ == empty_sequence(),
        is_sequence(text@),
{
    let mut w = SequenceWriter::new();
    let mut i: usize = 0;
    while i < disks.len()
        invariant
            i <= disks.len(),
            w.wf(),
            !w.failed(),
            w.items() == disk_items(disk_views(disks@)).take(i as int),
        decreases disks.len() - i,
    {
        w.put(disks[i].wire_item());
        i += 1;
    }
    proof {
        assert(disk_items(disk_views(disks@)).take(i as int) =~= disk_items(disk_views(disks@)));
        lemma_disks_text_is_sequence(disk_views(disks@));
        lemma_empty_encodings();
    }
    w.finish()
}

/// The cores as one sequence, in their order. No cores make the empty
/// sequence.
pub fn cpus_to_wire(cpus: &Vec<CpuInfo>) -> (text: String)
    ensures
        text@ == cpus_text(cpu_views(cpus@)),
        cpus@.len() == 0 ==> text@ == empty_sequence(),
        is_sequence(text@),
{
    let mut w = SequenceWriter::new();
    let mut i: usize = 0;
    while i < cpus.len()
        invariant
            i <= cpus.len(),
            w.wf(),
            !w.failed(),
            w.items() == cpu_items(cpu_views(cpus@)).take(i as int),
        decreases cpus.len() - i,
    {
        w.put(cpus[i].wire_item());
        i += 1;
    }
    proof {
        assert(cpu_items(cpu_views(cpus@)).take(i as int) =~= cpu_items(cpu_views(cpus@)));
        lemma_cpus_text_is_sequence(cpu_views(cpus@));
        lemma_empty_encodings();
    }
    w.finish()
}

} // verus!
