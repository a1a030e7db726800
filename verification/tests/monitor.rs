use serde_json::Value;
use system_monitor::SystemMonitor;

fn number(value: &Value, key: &str) -> f64 {
    value
        .get(key)
        .and_then(Value::as_f64)
        .unwrap_or_else(|| panic!("no number under {key}"))
}

#[test]
fn test_system_monitor_creation() {
    let _monitor = SystemMonitor::new();
}

#[test]
fn test_get_system_info() {
    let mut monitor = SystemMonitor::new();
    let info = monitor.get_system_info();
    assert!(!info.is_empty());

    let parsed: Value = serde_json::from_str(&info).expect("Should be valid JSON");
    assert!(parsed.is_object());
}

#[test]
fn test_get_memory_info() {
    let mut monitor = SystemMonitor::new();
    let info = monitor.get_memory_info();
    assert!(!info.is_empty());

    let parsed: Value = serde_json::from_str(&info).expect("Should be valid JSON");
    let total = parsed.get("total").and_then(Value::as_u64).unwrap();
    let used = parsed.get("used").and_then(Value::as_u64).unwrap();
    assert!(parsed.get("available").and_then(Value::as_u64).is_some());
    let usage_percent = number(&parsed, "usage_percent");
    assert!(total >= used);
    assert!(usage_percent >= 0.0 && usage_percent <= 100.0);
}

#[test]
fn test_list_disks() {
    let monitor = SystemMonitor::new();
    let disks = monitor.list_disks();
    assert!(!disks.is_empty());

    let parsed: Value = serde_json::from_str(&disks).expect("Should be valid JSON");
    for disk in parsed.as_array().expect("a sequence") {
        let usage_percent = number(disk, "usage_percent");
        assert!(usage_percent >= 0.0 && usage_percent <= 100.0);
        assert!(disk.get("name").and_then(Value::as_str).is_some());
        assert!(disk.get("mount_point").and_then(Value::as_str).is_some());
        assert!(disk.get("total_space").and_then(Value::as_u64).is_some());
        assert!(disk.get("available_space").and_then(Value::as_u64).is_some());
    }
}

#[test]
fn test_get_cpu_info() {
    let mut monitor = SystemMonitor::new();
    let info = monitor.get_cpu_info();
    assert!(!info.is_empty());

    let parsed: Value = serde_json::from_str(&info).expect("Should be valid JSON");
    let cores = parsed.as_array().expect("a sequence");
    assert!(!cores.is_empty());
}

#[test]
fn default_monitor_is_live() {
    let mut monitor = SystemMonitor::default();
    let parsed: Value = serde_json::from_str(&monitor.get_cpu_info()).expect("a sequence");
    assert!(parsed.is_array());
}

#[test]
fn live_system_info_has_every_field() {
    let mut monitor = SystemMonitor::new();
    let parsed: Value = serde_json::from_str(&monitor.get_system_info()).expect("a record");
    let fields = parsed.as_object().expect("a record");
    assert_eq!(fields.len(), 8);
    for key in ["os", "os_version", "kernel_version", "hostname"] {
        assert!(fields[key].is_string(), "{key}");
    }
    for key in ["cpu_count", "total_memory", "used_memory", "uptime"] {
        assert!(fields[key].is_u64(), "{key}");
    }
    assert!(fields["total_memory"].as_u64() >= fields["used_memory"].as_u64());
}

#[test]
fn live_memory_usage_is_the_share_of_used_in_total() {
    let mut monitor = SystemMonitor::new();
    let parsed: Value = serde_json::from_str(&monitor.get_memory_info()).expect("a record");
    let total = parsed["total"].as_u64().unwrap();
    let used = parsed["used"].as_u64().unwrap();
    let usage = number(&parsed, "usage_percent");
    assert!(total > 0);
    let expected = (u128::from(used) * 10_000 / u128::from(total)) as f64 / 100.0;
    assert!((usage - expected).abs() < 1e-9);
}

#[test]
fn live_cpu_info_has_one_entry_for_each_core() {
    let mut monitor = SystemMonitor::new();
    let identity: Value = serde_json::from_str(&monitor.get_system_info()).expect("a record");
    let cores: Value = serde_json::from_str(&monitor.get_cpu_info()).expect("a sequence");
    let cores = cores.as_array().expect("a sequence");
    assert!(!cores.is_empty());
    assert_eq!(identity["cpu_count"].as_u64(), Some(cores.len() as u64));
    for core in cores {
        let fields = core.as_object().expect("a record");
        assert_eq!(fields.len(), 3);
        assert!(fields["name"].is_string());
        assert!(fields["frequency"].is_u64());
        let usage = number(core, "usage");
        assert!(usage >= 0.0 && usage <= 100.0);
    }
}

#[test]
fn live_disk_usage_is_the_share_of_taken_in_total() {
    let monitor = SystemMonitor::new();
    let parsed: Value = serde_json::from_str(&monitor.list_disks()).expect("a sequence");
    for disk in parsed.as_array().expect("a sequence") {
        let total = disk["total_space"].as_u64().unwrap();
        let available = disk["available_space"].as_u64().unwrap();
        let usage = number(disk, "usage_percent");
        let expected = if total == 0 {
            0.0
        } else {
            let taken = total.saturating_sub(available);
            (u128::from(taken) * 10_000 / u128::from(total)) as f64 / 100.0
        };
        assert!((usage - expected).abs() < 1e-9);
    }
}

#[test]
fn refresh_then_two_memory_queries_agree() {
    let mut monitor = SystemMonitor::new();
    monitor.refresh();
    let first: Value = serde_json::from_str(&monitor.get_memory_info()).expect("a record");
    let second: Value = serde_json::from_str(&monitor.get_memory_info()).expect("a record");
    assert_eq!(first["total"], second["total"]);
    for reading in [&first, &second] {
        let usage = number(reading, "usage_percent");
        assert!(usage >= 0.0 && usage <= 100.0);
        assert!(reading["used"].as_u64() <= reading["total"].as_u64());
    }
}

#[test]
fn live_source_behind_the_common_interface() {
    let mut source = system_monitor::TelemetrySource::live();
    source.refresh_cpu();
    let cores = source.query_cpus();
    let identity = source.query_identity();
    assert_eq!(identity.cpu_count, cores.len());
    source.refresh_memory();
    let memory = source.query_memory();
    assert_eq!(
        memory.usage_percent,
        system_monitor::Percent::of(memory.used, memory.total)
    );
    for disk in source.list_disks() {
        assert!(disk.usage_percent.hundredths <= 10_000);
    }
}
