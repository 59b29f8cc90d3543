//! Host telemetry snapshot assembly.
//!
//! The library models a read-only telemetry service: a probe layer reads
//! host facts (CPU identity and usage, memory figures, the process table)
//! and hands them over as plain values; the assembler composes those values
//! into the response shapes the service serves, applying unit conversions
//! and the error policies for single-entity and bulk views.

mod assemble;
mod error;
mod laws;
mod model;

pub use assemble::CpuCoreDetail;
pub use assemble::CpuSummary;
pub use assemble::MemoryStatus;
pub use assemble::SystemStatus;
pub use assemble::build_core_detail;
pub use assemble::build_cpu_summary;
pub use assemble::build_process_detail;
pub use assemble::build_process_list;
pub use assemble::build_status;
pub use assemble::bytes_to_mb;
pub use assemble::complete_records;
pub use assemble::core_detail_of;
pub use assemble::core_lookup;
pub use assemble::detail_response;
pub use assemble::enumerated_as_complete;
pub use assemble::status_of;
pub use assemble::summary_of;
pub use assemble::used_bytes_of;
pub use error::ProbeError;
pub use laws::lemma_out_of_range_core_index_refused;
pub use laws::lemma_process_list_rows_enumerated;
pub use laws::lemma_process_list_well_formed;
pub use laws::lemma_status_counts_every_core;
pub use laws::lemma_status_memory_used_within_total;
pub use laws::lemma_unresolved_lookup_refused;
pub use laws::lemma_usage_within_range;
pub use laws::lemma_valid_core_index_served;
pub use model::CpuAggregate;
pub use model::CpuCore;
pub use model::HostSnapshot;
pub use model::MemoryProbe;
pub use model::ProcessFetch;
pub use model::ProcessLookup;
pub use model::ProcessMemory;
pub use model::ProcessRecord;
pub use model::USAGE_CENTI_PERCENT_MAX;
