//! Plain-value snapshots of host state, as the probe layer hands them over.
//!
//! Every type here is a transient value, built fresh for one request.
//! CPU usage is carried in hundredths of a percent (0 ..= 10_000), so the
//! whole model stays in integers.

use vstd::prelude::*;

verus! {

/// Greatest CPU usage value: 100.00 percent, in hundredths of a percent.
pub const USAGE_CENTI_PERCENT_MAX: u32 = 10000;

/// One read of the memory figures: total and available bytes, taken as
/// close together as feasible.
pub struct MemoryProbe {
    pub total_bytes: u64,
    pub available_bytes: u64,
}

impl MemoryProbe {
    /// Available memory never exceeds the total.
    pub open spec fn wf(self) -> bool {
        self.available_bytes <= self.total_bytes
    }

    /// Accepts the pair only when available does not exceed total; a pair
    /// skewed the other way is refused rather than underflowing later.
    pub fn new(total_bytes: u64, available_bytes: u64) -> (r: Option<MemoryProbe>)
        ensures
            r is Some <==> available_bytes <= total_bytes,
            r matches Some(m) ==> m == (MemoryProbe { total_bytes, available_bytes })
                && m.wf(),
    {
        if available_bytes <= total_bytes {
            Some(MemoryProbe { total_bytes, available_bytes })
        } else {
            None
        }
    }
}

/// The aggregate virtual CPU: identity, frequency, and instantaneous usage.
pub struct CpuAggregate {
    pub model: String,
    pub manufacturer: String,
    pub frequency_mhz: u64,
    /// Usage in hundredths of a percent, 0 ..= 10_000.
    pub usage_centi_percent: u32,
}

impl CpuAggregate {
    pub open spec fn wf(self) -> bool {
        self.usage_centi_percent <= USAGE_CENTI_PERCENT_MAX
    }

    /// Accepts the reading only when the usage lies in 0 ..= 100.00 percent.
    pub fn new(model: String, manufacturer: String, frequency_mhz: u64, usage_centi_percent: u32)
        -> (r: Option<CpuAggregate>)
        ensures
            r is Some <==> usage_centi_percent <= USAGE_CENTI_PERCENT_MAX,
            r matches Some(c) ==> c
                == (CpuAggregate { model, manufacturer, frequency_mhz, usage_centi_percent })
                && c.wf(),
    {
        if usage_centi_percent <= USAGE_CENTI_PERCENT_MAX {
            Some(CpuAggregate { model, manufacturer, frequency_mhz, usage_centi_percent })
        } else {
            None
        }
    }
}

/// One logical core, indexed by its ordinal in the OS's enumeration order.
pub struct CpuCore {
    pub model: String,
    pub manufacturer: String,
    pub frequency_mhz: u64,
}

impl CpuCore {
    /// A core the OS can describe has a non-empty model and manufacturer.
    pub open spec fn wf(self) -> bool {
        self.model@.len() > 0 && self.manufacturer@.len() > 0
    }

    /// Accepts the description only when both identity strings are non-empty.
    pub fn new(model: String, manufacturer: String, frequency_mhz: u64) -> (r: Option<CpuCore>)
        ensures
            r is Some <==> (model@.len() > 0 && manufacturer@.len() > 0),
            r matches Some(c) ==> c == (CpuCore { model, manufacturer, frequency_mhz })
                && c.wf(),
    {
        if model.as_str().unicode_len() > 0 && manufacturer.as_str().unicode_len() > 0 {
            Some(CpuCore { model, manufacturer, frequency_mhz })
        } else {
            None
        }
    }
}

/// Resident and virtual memory of one process, in bytes.
#[derive(Debug)]
pub struct ProcessMemory {
    pub resident_bytes: u64,
    pub virtual_bytes: u64,
}

/// One row of the process table, with its separately fetched details.
#[derive(Debug)]
pub struct ProcessRecord {
    pub pid: i64,
    pub parent_pid: i64,
    pub command: String,
    pub arguments: String,
    pub memory: ProcessMemory,
}

impl ProcessRecord {
    /// Process identifiers the OS hands out are non-negative.
    pub open spec fn wf(self) -> bool {
        self.pid >= 0 && self.parent_pid >= 0
    }

    /// Accepts the row only when both identifiers are non-negative.
    pub fn new(
        pid: i64,
        parent_pid: i64,
        command: String,
        arguments: String,
        memory: ProcessMemory,
    ) -> (r: Option<ProcessRecord>)
        ensures
            r is Some <==> (pid >= 0 && parent_pid >= 0),
            r matches Some(p) ==> p
                == (ProcessRecord { pid, parent_pid, command, arguments, memory })
                && p.wf(),
    {
        if pid >= 0 && parent_pid >= 0 {
            Some(ProcessRecord { pid, parent_pid, command, arguments, memory })
        } else {
            None
        }
    }
}

impl Clone for ProcessMemory {
    fn clone(&self) -> (r: Self)
        ensures
            r == *self,
    {
        ProcessMemory { resident_bytes: self.resident_bytes, virtual_bytes: self.virtual_bytes }
    }
}

impl Clone for ProcessRecord {
    fn clone(&self) -> (r: Self)
        ensures
            r == *self,
    {
        ProcessRecord {
            pid: self.pid,
            parent_pid: self.parent_pid,
            command: self.command.clone(),
            arguments: self.arguments.clone(),
            memory: self.memory.clone(),
        }
    }
}

/// What enumerating one row of the process table came to: either every
/// detail was fetched, or the process vanished mid-query. A vanished row
/// is a normal race, not a fault of the whole enumeration.
pub enum ProcessFetch {
    Complete(ProcessRecord),
    Gone,
}

impl ProcessFetch {
    /// A complete row is well-formed; a vanished one carries nothing.
    pub open spec fn wf(self) -> bool {
        match self {
            ProcessFetch::Complete(p) => p.wf(),
            ProcessFetch::Gone => true,
        }
    }
}

/// What looking up one requested pid came to.
pub enum ProcessLookup {
    /// The pid was found and every detail was fetched.
    Found(ProcessRecord),
    /// The pid is not in the process table.
    Missing,
    /// The pid was found but some detail sub-fetch failed.
    Incomplete,
}

/// One consistent view of the host, assembled from a single probe pass.
/// The core list and the aggregate come from the same enumeration, so the
/// logical CPU count is the length of the core list.
pub struct HostSnapshot {
    pub memory: MemoryProbe,
    pub aggregate: CpuAggregate,
    pub cores: Vec<CpuCore>,
}

impl HostSnapshot {
    pub open spec fn wf(self) -> bool {
        &&& self.memory.wf()
        &&& self.aggregate.wf()
        &&& forall|i: int| 0 <= i < self.cores@.len() ==> self.cores@[i].wf()
    }
}

} // verus!
