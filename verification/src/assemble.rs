//! Composing probe values into the four response shapes.
//!
//! Single-entity views (status, summary, one core, one process) are
//! all-or-nothing; the bulk process view skips rows whose details could
//! not be fetched rather than failing the whole list.

use vstd::prelude::*;
use vstd::arithmetic::div_mod::lemma_div_is_ordered;

use crate::error::ProbeError;
use crate::model::CpuCore;
use crate::model::HostSnapshot;
use crate::model::MemoryProbe;
use crate::model::ProcessFetch;
use crate::model::ProcessLookup;
use crate::model::ProcessRecord;

verus! {

/// Memory figures of the whole host, in decimal megabytes.
#[derive(Debug)]
pub struct MemoryStatus {
    pub total_mb: u64,
    pub used_mb: u64,
}

/// The overall status response: CPU count, aggregate usage, memory.
#[derive(Debug)]
pub struct SystemStatus {
    pub cpus: u64,
    /// Aggregate usage in hundredths of a percent, 0 ..= 10_000.
    pub cpu_usage_centi_percent: u32,
    pub memory: MemoryStatus,
}

/// The aggregate CPU response: identity, frequency and usage.
#[derive(Debug)]
pub struct CpuSummary {
    pub model: String,
    pub manufacturer: String,
    pub speed_mhz: u64,
    /// Usage in hundredths of a percent, 0 ..= 10_000.
    pub usage_centi_percent: u32,
}

/// The single-core response: identity and frequency of one logical core.
#[derive(Debug)]
pub struct CpuCoreDetail {
    pub model: String,
    pub manufacturer: String,
    pub speed_mhz: u64,
}

/// Decimal megabytes in a byte count: truncating division by 1,000,000.
pub open spec fn bytes_to_mb(bytes: int) -> int {
    bytes / 1000000
}

/// Bytes of used memory: total less available.
pub open spec fn used_bytes_of(m: MemoryProbe) -> int {
    m.total_bytes - m.available_bytes
}

/// The status response a snapshot assembles to. The CPU count is the
/// length of the core enumeration; memory is converted to megabytes
/// after the subtraction.
pub open spec fn status_of(snap: HostSnapshot) -> SystemStatus {
    SystemStatus {
        cpus: snap.cores@.len() as u64,
        cpu_usage_centi_percent: snap.aggregate.usage_centi_percent,
        memory: MemoryStatus {
            total_mb: bytes_to_mb(snap.memory.total_bytes as int) as u64,
            used_mb: bytes_to_mb(used_bytes_of(snap.memory)) as u64,
        },
    }
}

/// The aggregate CPU response a snapshot assembles to: a passthrough of
/// the aggregate probe.
pub open spec fn summary_of(snap: HostSnapshot) -> CpuSummary {
    CpuSummary {
        model: snap.aggregate.model,
        manufacturer: snap.aggregate.manufacturer,
        speed_mhz: snap.aggregate.frequency_mhz,
        usage_centi_percent: snap.aggregate.usage_centi_percent,
    }
}

/// The single-core response one core assembles to.
pub open spec fn core_detail_of(c: CpuCore) -> CpuCoreDetail {
    CpuCoreDetail { model: c.model, manufacturer: c.manufacturer, speed_mhz: c.frequency_mhz }
}

/// What a core-detail request for `index` answers: the detail for a valid
/// index, `IndexOutOfRange` for any other.
pub open spec fn core_lookup(cores: Seq<CpuCore>, index: int) -> Result<CpuCoreDetail, ProbeError> {
    if 0 <= index < cores.len() {
        Ok(core_detail_of(cores[index]))
    } else {
        Err(ProbeError::IndexOutOfRange)
    }
}

/// The rows of the bulk process response: the payloads of the complete
/// fetches, in enumeration order; vanished rows are skipped.
pub open spec fn complete_records(s: Seq<ProcessFetch>) -> Seq<ProcessRecord>
    decreases s.len(),
{
    if s.len() == 0 {
        Seq::empty()
    } else {
        match s.last() {
            ProcessFetch::Complete(p) => complete_records(s.drop_last()).push(p),
            ProcessFetch::Gone => complete_records(s.drop_last()),
        }
    }
}

/// Whether the enumeration holds `p` as a completely fetched row.
pub open spec fn enumerated_as_complete(s: Seq<ProcessFetch>, p: ProcessRecord) -> bool {
    exists|i: int| 0 <= i < s.len() && s[i] == ProcessFetch::Complete(p)
}

/// What a single-process request answers for each lookup outcome: the
/// record when everything was fetched, `NoSuchProcess` for an absent pid,
/// `ProcessUnavailable` when a detail sub-fetch failed. All-or-nothing:
/// no partial record is ever returned.
pub open spec fn detail_response(lookup: ProcessLookup) -> Result<ProcessRecord, ProbeError> {
    match lookup {
        ProcessLookup::Found(p) => Ok(p),
        ProcessLookup::Missing => Err(ProbeError::NoSuchProcess),
        ProcessLookup::Incomplete => Err(ProbeError::ProcessUnavailable),
    }
}

/// Assembles the overall status response. Used memory can never exceed
/// the total, since available memory never exceeds it in a well-formed
/// probe.
pub fn build_status(snap: &HostSnapshot) -> (r: SystemStatus)
    requires
        snap.wf(),
    ensures
        r == status_of(*snap),
        r.memory.used_mb <= r.memory.total_mb,
{
    let used_bytes: u64 = snap.memory.total_bytes - snap.memory.available_bytes;
    proof {
        lemma_div_is_ordered(used_bytes as int, snap.memory.total_bytes as int, 1000000);
    }
    SystemStatus {
        cpus: snap.cores.len() as u64,
        cpu_usage_centi_percent: snap.aggregate.usage_centi_percent,
        memory: MemoryStatus {
            total_mb: snap.memory.total_bytes / 1000000,
            used_mb: used_bytes / 1000000,
        },
    }
}

/// Assembles the aggregate CPU response: a passthrough of the aggregate
/// probe.
pub fn build_cpu_summary(snap: &HostSnapshot) -> (r: CpuSummary)
    requires
        snap.wf(),
    ensures
        r == summary_of(*snap),
        r.usage_centi_percent <= crate::model::USAGE_CENTI_PERCENT_MAX,
{
    CpuSummary {
        model: snap.aggregate.model.clone(),
        manufacturer: snap.aggregate.manufacturer.clone(),
        speed_mhz: snap.aggregate.frequency_mhz,
        usage_centi_percent: snap.aggregate.usage_centi_percent,
    }
}

/// Assembles the response for one core. Succeeds exactly on indices below
/// the core count; any other index is the client's error.
pub fn build_core_detail(snap: &HostSnapshot, index: usize) -> (r: Result<
    CpuCoreDetail,
    ProbeError,
>)
    requires
        snap.wf(),
    ensures
        r == core_lookup(snap.cores@, index as int),
        r is Ok <==> index < snap.cores@.len(),
        r matches Ok(d) ==> d.model@.len() > 0 && d.manufacturer@.len() > 0,
{
    if index < snap.cores.len() {
        let c = &snap.cores[index];
        Ok(CpuCoreDetail {
            model: c.model.clone(),
            manufacturer: c.manufacturer.clone(),
            speed_mhz: c.frequency_mhz,
        })
    } else {
        Err(ProbeError::IndexOutOfRange)
    }
}

/// Assembles the bulk process response with the skip-on-error policy:
/// every completely fetched row is kept in enumeration order, every
/// vanished row is dropped, and the list as a whole never fails.
pub fn build_process_list(fetched: &Vec<ProcessFetch>) -> (r: Vec<ProcessRecord>)
    ensures
        r@ == complete_records(fetched@),
{
    let mut out: Vec<ProcessRecord> = Vec::new();
    let mut i: usize = 0;
    while i < fetched.len()
        invariant
            i <= fetched@.len(),
            out@ == complete_records(fetched@.take(i as int)),
        decreases fetched@.len() - i,
    {
        match &fetched[i] {
            ProcessFetch::Complete(p) => {
                out.push(p.clone());
            },
            ProcessFetch::Gone => {},
        }
        i = i + 1;
        proof {
            let taken = fetched@.take(i as int);
            assert(taken.drop_last() =~= fetched@.take(i - 1));
            assert(taken.last() == fetched@[i - 1]);
        }
    }
    proof {
        assert(fetched@.take(fetched@.len() as int) =~= fetched@);
    }
    out
}

/// Assembles the response for one requested pid: all-or-nothing, with the
/// error kind that matches the lookup outcome.
pub fn build_process_detail(lookup: ProcessLookup) -> (r: Result<ProcessRecord, ProbeError>)
    ensures
        r == detail_response(lookup),
        r is Ok <==> lookup is Found,
{
    match lookup {
        ProcessLookup::Found(p) => Ok(p),
        ProcessLookup::Missing => Err(ProbeError::NoSuchProcess),
        ProcessLookup::Incomplete => Err(ProbeError::ProcessUnavailable),
    }
}

} // verus!
