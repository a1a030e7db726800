//! The monitor: one source, four queries and a refresh.

use crate::grammar::{empty_sequence, is_record, is_sequence};
use crate::records::{DiskInfoView, SystemInfoView};
use crate::source::{
    disks_wf, records_of_a_listing, sandbox_identity, sandbox_memory, TelemetrySource,
};
use crate::wire::{
    cpus_text, cpus_to_wire, disks_text, disks_to_wire, memory_text, system_text,
};
use vstd::prelude::*;

verus! {

/// Answers queries about the host with records encoded as text.
///
/// A query first has the source read anew what it is about, so every answer
/// is of the moment of the call. No query fails.
pub struct SystemMonitor {
    source: TelemetrySource,
}

impl SystemMonitor {
    /// The source behind this monitor.
    pub closed spec fn source(&self) -> TelemetrySource {
        self.source
    }

    /// Whether this monitor asks the operating system.
    pub open spec fn is_live(&self) -> bool {
        self.source().is_live()
    }

    /// A monitor on the live source, loaded and refreshed once.
    pub fn new() -> (monitor: SystemMonitor)
        ensures
            monitor.is_live(),
    {
        SystemMonitor { source: TelemetrySource::live() }
    }

    /// A monitor on the sandboxed source.
    pub fn sandboxed() -> (monitor: SystemMonitor)
        ensures
            !monitor.is_live(),
    {
        SystemMonitor { source: TelemetrySource::sandboxed() }
    }

    /// Has the source read everything anew. A sandboxed monitor is left as it
    /// is.
    pub fn refresh(&mut self)
        ensures
            final(self).is_live() == old(self).is_live(),
            !old(self).is_live() ==> final(self).source() == old(self).source(),
    {
        self.source.refresh_all();
    }

    /// The identity of the host as one record.
    ///
    /// The text is a well-formed record, never empty: the record of an
    /// identity whose figures are those that the source holds after a full
    /// refresh. For a sandboxed monitor it is the record of the fixed
    /// identity.
    pub fn get_system_info(&mut self) -> (text: String)
        ensures
            final(self).is_live() == old(self).is_live(),
            !old(self).is_live() ==> final(self).source() == old(self).source(),
            is_record(text@),
            text@.len() > 0,
            exists|info: SystemInfoView|
                {
                    &&& text@ == #[trigger] system_text(info)
                    &&& info.cpu_count == final(self).source().cores().len()
                    &&& info.total_memory == final(self).source().memory().total
                    &&& info.used_memory == final(self).source().memory().used
                },
            !old(self).is_live() ==> text@ == system_text(sandbox_identity()),
    {
        self.source.refresh_all();
        let info = self.source.query_identity();
        info.to_wire()
    }

    /// The memory of the host as one record: that of the counters which the
    /// source holds after it has read them anew, with a usage that is the
    /// share of the used bytes in the total and never more than one hundred
    /// percent.
    pub fn get_memory_info(&mut self) -> (text: String)
        ensures
            final(self).is_live() == old(self).is_live(),
            !old(self).is_live() ==> final(self).source() == old(self).source(),
            text@ == memory_text(final(self).source().memory()),
            final(self).source().memory().wf(),
            final(self).source().memory().usage_percent.within_full(),
            !old(self).is_live() ==> text@ == memory_text(sandbox_memory()),
            is_record(text@),
    {
        self.source.refresh_memory();
        let memory = self.source.query_memory();
        memory.to_wire()
    }

    /// The disks mounted now as one sequence, in the host's order.
    ///
    /// The text is a well-formed sequence: for a live monitor that of the
    /// disk records of the listing that the host gives, one for each of its
    /// disks and in its order, each with a usage that is the share of its
    /// taken bytes; for a sandboxed monitor the empty sequence.
    pub fn list_disks(&self) -> (text: String)
        ensures
            is_sequence(text@),
            self.is_live() ==> exists|disks: Seq<DiskInfoView>|
                {
                    &&& text@ == #[trigger] disks_text(disks)
                    &&& records_of_a_listing(disks)
                    &&& disks_wf(disks)
                },
            !self.is_live() ==> text@ == empty_sequence(),
    {
        let disks = self.source.list_disks();
        disks_to_wire(&disks)
    }

    /// The cores of the host as one sequence: one record for each core that
    /// the source holds after it has read them anew, in its order. For a
    /// sandboxed monitor it is the empty sequence.
    pub fn get_cpu_info(&mut self) -> (text: String)
        ensures
            final(self).is_live() == old(self).is_live(),
            !old(self).is_live() ==> final(self).source() == old(self).source(),
            text@ == cpus_text(final(self).source().cores()),
            !old(self).is_live() ==> text@ == empty_sequence(),
            is_sequence(text@),
    {
        self.source.refresh_cpu();
        let cpus = self.source.query_cpus();
        cpus_to_wire(&cpus)
    }
}

impl Default for SystemMonitor {
    fn default() -> (monitor: SystemMonitor)
        ensures
            monitor.is_live(),
    {
        SystemMonitor::new()
    }
}

} // verus!
