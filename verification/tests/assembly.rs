use host_telemetry::CpuAggregate;
use host_telemetry::CpuCore;
use host_telemetry::HostSnapshot;
use host_telemetry::MemoryProbe;
use host_telemetry::ProbeError;
use host_telemetry::ProcessFetch;
use host_telemetry::ProcessLookup;
use host_telemetry::ProcessMemory;
use host_telemetry::ProcessRecord;
use host_telemetry::build_core_detail;
use host_telemetry::build_cpu_summary;
use host_telemetry::build_process_detail;
use host_telemetry::build_process_list;
use host_telemetry::build_status;

fn make_core(model: &str, maker: &str, mhz: u64) -> CpuCore {
    CpuCore::new(String::from(model), String::from(maker), mhz).unwrap()
}

fn snapshot(total: u64, available: u64, n_cores: usize, usage: u32) -> HostSnapshot {
    let mut cores = Vec::new();
    for _ in 0..n_cores {
        cores.push(make_core("model-a", "maker-a", 2400));
    }
    HostSnapshot {
        memory: MemoryProbe::new(total, available).unwrap(),
        aggregate: CpuAggregate::new(String::from("model-a"), String::from("maker-a"), 2400, usage)
            .unwrap(),
        cores,
    }
}

fn record(pid: i64, ppid: i64, command: &str) -> ProcessRecord {
    ProcessRecord::new(
        pid,
        ppid,
        String::from(command),
        String::from(command),
        ProcessMemory { resident_bytes: 1024, virtual_bytes: 4096 },
    )
    .unwrap()
}

#[test]
fn status_four_cores_half_memory_used() {
    let snap = snapshot(16_000_000_000, 8_000_000_000, 4, 1234);
    let status = build_status(&snap);
    assert_eq!(status.cpus, 4);
    assert_eq!(status.memory.total_mb, 16000);
    assert_eq!(status.memory.used_mb, 8000);
    assert_eq!(status.cpu_usage_centi_percent, 1234);
}

#[test]
fn status_used_never_exceeds_total() {
    let cases: [(u64, u64); 4] = [
        (16_000_000_000, 8_000_000_000),
        (1_500_000, 700_000),
        (999_999, 0),
        (2_000_000, 2_000_000),
    ];
    for (total, available) in cases {
        let snap = snapshot(total, available, 2, 0);
        let status = build_status(&snap);
        assert!(status.memory.used_mb <= status.memory.total_mb);
    }
}

#[test]
fn status_converts_after_subtracting() {
    // 1,500,000 - 700,000 = 800,000 bytes used: rounds down to 0 MB.
    let snap = snapshot(1_500_000, 700_000, 1, 0);
    let status = build_status(&snap);
    assert_eq!(status.memory.total_mb, 1);
    assert_eq!(status.memory.used_mb, 0);
}

#[test]
fn status_all_memory_available_means_none_used() {
    let snap = snapshot(4_000_000, 4_000_000, 1, 0);
    let status = build_status(&snap);
    assert_eq!(status.memory.total_mb, 4);
    assert_eq!(status.memory.used_mb, 0);
}

#[test]
fn status_counts_match_core_enumeration() {
    for n in [1usize, 2, 4, 8] {
        let snap = snapshot(1_000_000, 500_000, n, 0);
        let status = build_status(&snap);
        assert_eq!(status.cpus as usize, n);
        for index in 0..n {
            assert!(build_core_detail(&snap, index).is_ok());
        }
        assert!(build_core_detail(&snap, n).is_err());
    }
}

#[test]
fn memory_probe_rejects_available_above_total() {
    assert!(MemoryProbe::new(1_000_000, 1_000_001).is_none());
    assert!(MemoryProbe::new(1_000_000, 1_000_000).is_some());
}

#[test]
fn summary_passes_aggregate_through() {
    let snap = snapshot(1_000_000, 0, 2, 4321);
    let summary = build_cpu_summary(&snap);
    assert_eq!(summary.model, "model-a");
    assert_eq!(summary.manufacturer, "maker-a");
    assert_eq!(summary.speed_mhz, 2400);
    assert_eq!(summary.usage_centi_percent, 4321);
}

#[test]
fn aggregate_rejects_usage_above_full() {
    assert!(
        CpuAggregate::new(String::from("m"), String::from("v"), 1000, 10_001).is_none()
    );
    assert!(
        CpuAggregate::new(String::from("m"), String::from("v"), 1000, 10_000).is_some()
    );
}

#[test]
fn valid_core_indices_served_with_identity() {
    let snap = snapshot(1_000_000, 0, 4, 0);
    for index in 0..4 {
        let detail = build_core_detail(&snap, index).unwrap();
        assert!(!detail.model.is_empty());
        assert!(!detail.manufacturer.is_empty());
        assert_eq!(detail.speed_mhz, 2400);
    }
}

#[test]
fn core_index_past_count_refused() {
    let snap = snapshot(1_000_000, 0, 4, 0);
    let err = build_core_detail(&snap, 5).unwrap_err();
    assert_eq!(err, ProbeError::IndexOutOfRange);
    assert_eq!(err.http_status(), 404);
}

#[test]
fn core_index_at_count_refused() {
    let snap = snapshot(1_000_000, 0, 4, 0);
    let err = build_core_detail(&snap, 4).unwrap_err();
    assert_eq!(err, ProbeError::IndexOutOfRange);
}

#[test]
fn core_rejects_empty_identity() {
    assert!(CpuCore::new(String::from(""), String::from("v"), 1000).is_none());
    assert!(CpuCore::new(String::from("m"), String::from(""), 1000).is_none());
    assert!(CpuCore::new(String::from("m"), String::from("v"), 1000).is_some());
}

#[test]
fn process_list_skips_vanished_rows() {
    let fetched = vec![
        ProcessFetch::Complete(record(10, 1, "first")),
        ProcessFetch::Gone,
        ProcessFetch::Complete(record(20, 1, "second")),
        ProcessFetch::Gone,
    ];
    let rows = build_process_list(&fetched);
    assert_eq!(rows.len(), 2);
    assert_eq!(rows[0].pid, 10);
    assert_eq!(rows[0].command, "first");
    assert_eq!(rows[1].pid, 20);
    assert_eq!(rows[1].command, "second");
}

#[test]
fn process_list_of_only_vanished_rows_is_empty() {
    let fetched = vec![ProcessFetch::Gone, ProcessFetch::Gone];
    assert!(build_process_list(&fetched).is_empty());
}

#[test]
fn process_list_of_empty_enumeration_is_empty() {
    let fetched: Vec<ProcessFetch> = Vec::new();
    assert!(build_process_list(&fetched).is_empty());
}

#[test]
fn process_list_repeated_calls_stay_well_formed() {
    let fetched = vec![
        ProcessFetch::Complete(record(10, 1, "first")),
        ProcessFetch::Gone,
    ];
    let first = build_process_list(&fetched);
    let second = build_process_list(&fetched);
    assert_eq!(first.len(), 1);
    assert_eq!(second.len(), 1);
    assert_eq!(first[0].pid, second[0].pid);
}

#[test]
fn missing_pid_refused_as_not_found() {
    let response = build_process_detail(ProcessLookup::Missing);
    let err = response.unwrap_err();
    assert_eq!(err, ProbeError::NoSuchProcess);
    assert_eq!(err.http_status(), 404);
}

#[test]
fn incomplete_lookup_refused_as_probe_failure() {
    let response = build_process_detail(ProcessLookup::Incomplete);
    let err = response.unwrap_err();
    assert_eq!(err, ProbeError::ProcessUnavailable);
    assert_eq!(err.http_status(), 500);
}

#[test]
fn found_pid_served_in_full() {
    let response = build_process_detail(ProcessLookup::Found(record(42, 7, "worker")));
    let row = response.unwrap();
    assert_eq!(row.pid, 42);
    assert_eq!(row.parent_pid, 7);
    assert_eq!(row.command, "worker");
    assert_eq!(row.arguments, "worker");
    assert_eq!(row.memory.resident_bytes, 1024);
    assert_eq!(row.memory.virtual_bytes, 4096);
}

#[test]
fn process_record_rejects_negative_identifiers() {
    let memory = ProcessMemory { resident_bytes: 0, virtual_bytes: 0 };
    assert!(
        ProcessRecord::new(-1, 0, String::from("c"), String::from("c"), memory.clone()).is_none()
    );
    assert!(
        ProcessRecord::new(0, -1, String::from("c"), String::from("c"), memory.clone()).is_none()
    );
    assert!(
        ProcessRecord::new(0, 0, String::from("c"), String::from("c"), memory).is_some()
    );
}

#[test]
fn every_error_maps_to_a_failure_status() {
    let errors = [
        ProbeError::ProbeUnavailable,
        ProbeError::IndexOutOfRange,
        ProbeError::NoSuchProcess,
        ProbeError::ProcessGone,
        ProbeError::ProcessUnavailable,
    ];
    for err in errors {
        let code = err.http_status();
        assert!(code >= 400);
        assert!(!err.describe().is_empty());
    }
}

#[test]
fn probe_failures_map_to_server_errors() {
    assert_eq!(ProbeError::ProbeUnavailable.http_status(), 500);
    assert_eq!(ProbeError::ProcessUnavailable.http_status(), 500);
    assert_eq!(ProbeError::NoSuchProcess.http_status(), 404);
    assert_eq!(ProbeError::ProcessGone.http_status(), 404);
}

#[test]
fn error_descriptions_are_exact() {
    assert_eq!(ProbeError::ProbeUnavailable.describe(), "host probe unavailable");
    assert_eq!(ProbeError::IndexOutOfRange.describe(), "cpu index out of range");
    assert_eq!(ProbeError::NoSuchProcess.describe(), "no such process");
    assert_eq!(
        ProbeError::ProcessGone.describe(),
        "process exited during enumeration"
    );
    assert_eq!(
        ProbeError::ProcessUnavailable.describe(),
        "process details unavailable"
    );
}
