use serde_json::Value;
use system_monitor::{SandboxedSource, SystemMonitor, TelemetrySource};

#[test]
fn sandboxed_monitor_is_made_without_a_host() {
    let _monitor = SystemMonitor::sandboxed();
    let _source = TelemetrySource::sandboxed();
}

#[test]
fn sandboxed_cpu_info_is_the_empty_sequence() {
    let mut monitor = SystemMonitor::sandboxed();
    assert_eq!(monitor.get_cpu_info(), "[]");
    let parsed: Value = serde_json::from_str(&monitor.get_cpu_info()).expect("a sequence");
    assert_eq!(parsed.as_array().map(Vec::len), Some(0));
}

#[test]
fn sandboxed_memory_info_is_all_zero() {
    let mut monitor = SystemMonitor::sandboxed();
    let text = monitor.get_memory_info();
    assert_eq!(text, "{\"total\":0,\"used\":0,\"available\":0,\"usage_percent\":0.0}");
    let parsed: Value = serde_json::from_str(&text).expect("a record");
    assert_eq!(parsed["total"].as_u64(), Some(0));
    assert_eq!(parsed["used"].as_u64(), Some(0));
    assert_eq!(parsed["available"].as_u64(), Some(0));
    assert_eq!(parsed["usage_percent"].as_f64(), Some(0.0));
}

#[test]
fn sandboxed_system_info_is_the_fixed_identity() {
    let mut monitor = SystemMonitor::sandboxed();
    assert_eq!(
        monitor.get_system_info(),
        "{\"os\":\"WASM\",\"os_version\":\"N/A\",\"kernel_version\":\"N/A\",\
         \"hostname\":\"browser\",\"cpu_count\":0,\"total_memory\":0,\"used_memory\":0,\
         \"uptime\":0}"
    );
}

#[test]
fn sandboxed_disks_are_the_empty_sequence() {
    let monitor = SystemMonitor::sandboxed();
    assert_eq!(monitor.list_disks(), "[]");
}

#[test]
fn sandboxed_refresh_changes_nothing() {
    let mut monitor = SystemMonitor::sandboxed();
    let before = (
        monitor.get_system_info(),
        monitor.get_memory_info(),
        monitor.list_disks(),
        monitor.get_cpu_info(),
    );
    monitor.refresh();
    monitor.refresh();
    let after = (
        monitor.get_system_info(),
        monitor.get_memory_info(),
        monitor.list_disks(),
        monitor.get_cpu_info(),
    );
    assert_eq!(before, after);
}

#[test]
fn sandboxed_source_answers_with_fixed_records() {
    let source = SandboxedSource {};
    let identity = source.query_identity();
    assert_eq!(identity.os, "WASM");
    assert_eq!(identity.os_version, "N/A");
    assert_eq!(identity.kernel_version, "N/A");
    assert_eq!(identity.hostname, "browser");
    assert_eq!(identity.cpu_count, 0);
    assert_eq!(identity.total_memory, 0);
    assert_eq!(identity.used_memory, 0);
    assert_eq!(identity.uptime, 0);
    let memory = source.query_memory();
    assert_eq!((memory.total, memory.used, memory.available), (0, 0, 0));
    assert_eq!(memory.usage_percent.hundredths, 0);
    assert!(source.list_disks().is_empty());
    assert!(source.query_cpus().is_empty());
}

#[test]
fn sandboxed_source_behind_the_common_interface() {
    let mut source = TelemetrySource::sandboxed();
    source.refresh_all();
    source.refresh_memory();
    source.refresh_cpu();
    assert_eq!(source.query_identity().os, "WASM");
    assert_eq!(source.query_memory().total, 0);
    assert!(source.list_disks().is_empty());
    assert!(source.query_cpus().is_empty());
}
