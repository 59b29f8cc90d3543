//! The guarantees the assembled responses give, stated over the same spec
//! functions the assemblers' contracts use.

use vstd::prelude::*;
use vstd::arithmetic::div_mod::lemma_div_is_ordered;

use crate::assemble::complete_records;
use crate::assemble::core_lookup;
use crate::assemble::detail_response;
use crate::assemble::enumerated_as_complete;
use crate::assemble::status_of;
use crate::assemble::summary_of;
use crate::error::ProbeError;
use crate::model::CpuCore;
use crate::model::HostSnapshot;
use crate::model::ProcessFetch;
use crate::model::ProcessLookup;
use crate::model::USAGE_CENTI_PERCENT_MAX;

verus! {

/// Every index below the core count is served a detail whose identity
/// strings are non-empty.
pub proof fn lemma_valid_core_index_served(cores: Seq<CpuCore>, index: int)
    requires
        forall|i: int| 0 <= i < cores.len() ==> cores[i].wf(),
        0 <= index < cores.len(),
    ensures
        core_lookup(cores, index) is Ok,
        core_lookup(cores, index)->Ok_0.model@.len() > 0,
        core_lookup(cores, index)->Ok_0.manufacturer@.len() > 0,
{
}

/// Every index at or past the core count is refused, and the refusal is
/// the client's error, never a success.
pub proof fn lemma_out_of_range_core_index_refused(cores: Seq<CpuCore>, index: int)
    requires
        index >= cores.len(),
    ensures
        core_lookup(cores, index) == Err::<crate::assemble::CpuCoreDetail, ProbeError>(
            ProbeError::IndexOutOfRange,
        ),
        ProbeError::IndexOutOfRange.is_client_error(),
{
}

/// Used memory never exceeds total memory in the status response: used
/// bytes are total less available, and available never exceeds total.
pub proof fn lemma_status_memory_used_within_total(snap: HostSnapshot)
    requires
        snap.wf(),
    ensures
        status_of(snap).memory.used_mb <= status_of(snap).memory.total_mb,
{
    lemma_div_is_ordered(
        snap.memory.total_bytes - snap.memory.available_bytes,
        snap.memory.total_bytes as int,
        1000000,
    );
}

/// The CPU count in the status response equals the number of entries a
/// full per-core enumeration of the same snapshot returns.
pub proof fn lemma_status_counts_every_core(snap: HostSnapshot)
    requires
        snap.wf(),
    ensures
        status_of(snap).cpus == snap.cores@.len(),
        forall|index: int|
            0 <= index < status_of(snap).cpus ==> core_lookup(snap.cores@, index) is Ok,
{
    assert(snap.cores.len() == snap.cores@.len());
}

/// The bulk process view is total: whatever mix of complete and vanished
/// rows an enumeration yields, it assembles to a well-formed list, never
/// longer than the enumeration, with every kept row well-formed.
pub proof fn lemma_process_list_well_formed(s: Seq<ProcessFetch>)
    requires
        forall|i: int| 0 <= i < s.len() ==> s[i].wf(),
    ensures
        complete_records(s).len() <= s.len(),
        forall|j: int| 0 <= j < complete_records(s).len() ==> complete_records(s)[j].wf(),
    decreases s.len(),
{
    if s.len() == 0 {
    } else {
        let rest = s.drop_last();
        assert(forall|i: int| 0 <= i < rest.len() ==> rest[i] == s[i]);
        lemma_process_list_well_formed(rest);
        assert(s.last().wf());
    }
}

/// No row of the bulk process view is made up: every row it serves stands
/// in the enumeration as a completely fetched process.
pub proof fn lemma_process_list_rows_enumerated(s: Seq<ProcessFetch>)
    ensures
        forall|j: int|
            0 <= j < complete_records(s).len() ==> enumerated_as_complete(
                s,
                #[trigger] complete_records(s)[j],
            ),
    decreases s.len(),
{
    if s.len() > 0 {
        let rest = s.drop_last();
        lemma_process_list_rows_enumerated(rest);
        let res = complete_records(s);
        let rres = complete_records(rest);
        assert(forall|i: int| 0 <= i < rest.len() ==> rest[i] == s[i]);
        assert forall|j: int| 0 <= j < res.len() implies enumerated_as_complete(s, res[j]) by {
            if j < rres.len() {
                assert(enumerated_as_complete(rest, rres[j]));
                let i = choose|i: int|
                    0 <= i < rest.len() && rest[i] == ProcessFetch::Complete(rres[j]);
                assert(s[i] == ProcessFetch::Complete(res[j]));
            } else {
                match s.last() {
                    ProcessFetch::Complete(p) => {
                        assert(res == rres.push(p));
                        assert(s[s.len() - 1] == ProcessFetch::Complete(res[j]));
                    },
                    ProcessFetch::Gone => {
                        assert(res == rres);
                    },
                }
            }
        }
    }
}

/// A lookup that found no complete record is answered with an error, never
/// with a success carrying made-up fields; an absent pid in particular
/// is the client's error.
pub proof fn lemma_unresolved_lookup_refused(lookup: ProcessLookup)
    requires
        !(lookup is Found),
    ensures
        detail_response(lookup) is Err,
        detail_response(lookup)->Err_0.http_status_spec() >= 400,
        lookup is Missing ==> detail_response(lookup)->Err_0 == ProbeError::NoSuchProcess
            && ProbeError::NoSuchProcess.is_client_error(),
{
}

/// Every usage figure a well-formed snapshot assembles to lies in
/// 0 ..= 100.00 percent; the unsigned fields are non-negative by type.
pub proof fn lemma_usage_within_range(snap: HostSnapshot)
    requires
        snap.wf(),
    ensures
        status_of(snap).cpu_usage_centi_percent <= USAGE_CENTI_PERCENT_MAX,
        summary_of(snap).usage_centi_percent <= USAGE_CENTI_PERCENT_MAX,
{
}

} // verus!
