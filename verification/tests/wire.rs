use serde_json::Value;
use system_monitor::encode::{
    answer_text, decimal_text, empty_record_text, empty_sequence_text, percent_number, quote,
    RecordWriter, SequenceWriter,
};
use system_monitor::wire::{cpus_to_wire, disks_to_wire, record_or_empty};
use system_monitor::{CpuInfo, DiskInfo, MemoryInfo, Percent, SystemInfo};

fn percent(hundredths: u64) -> Percent {
    Percent { hundredths }
}

#[test]
fn numbers_in_decimal_digits() {
    assert_eq!(decimal_text(0), "0");
    assert_eq!(decimal_text(7), "7");
    assert_eq!(decimal_text(10), "10");
    assert_eq!(decimal_text(1_000_000), "1000000");
    assert_eq!(decimal_text(9_876_543_210), "9876543210");
    assert_eq!(decimal_text(u64::MAX), "18446744073709551615");
}

#[test]
fn percentages_as_decimal_numbers() {
    assert_eq!(percent_number(percent(0)), "0.0");
    assert_eq!(percent_number(percent(5)), "0.05");
    assert_eq!(percent_number(percent(50)), "0.5");
    assert_eq!(percent_number(percent(105)), "1.05");
    assert_eq!(percent_number(percent(1250)), "12.5");
    assert_eq!(percent_number(percent(3658)), "36.58");
    assert_eq!(percent_number(percent(9999)), "99.99");
    assert_eq!(percent_number(percent(10_000)), "100.0");
    assert_eq!(percent_number(percent(20_000)), "200.0");
    assert_eq!(percent_number(percent(u64::MAX)), "184467440737095516.15");
}

#[test]
fn percentages_read_back_as_the_same_value() {
    for hundredths in [0u64, 1, 9, 10, 99, 100, 101, 2500, 3333, 9990, 10_000] {
        let text = percent_number(percent(hundredths));
        let value: f64 = text.parse().expect("a number");
        assert!((value * 100.0 - hundredths as f64).abs() < 1e-9, "{text}");
    }
}

#[test]
fn strings_between_quotes() {
    assert_eq!(quote("").as_deref(), Some("\"\""));
    assert_eq!(quote("sda1").as_deref(), Some("\"sda1\""));
    assert_eq!(quote("/mnt/data").as_deref(), Some("\"/mnt/data\""));
    assert_eq!(quote("N/A").as_deref(), Some("\"N/A\""));
}

#[test]
fn strings_with_escapes() {
    assert_eq!(quote("a\"b").as_deref(), Some("\"a\\\"b\""));
    assert_eq!(quote("a\\b").as_deref(), Some("\"a\\\\b\""));
    assert_eq!(quote("a\nb").as_deref(), Some("\"a\\nb\""));
    assert_eq!(quote("a\tb").as_deref(), Some("\"a\\tb\""));
    assert_eq!(quote("a\rb").as_deref(), Some("\"a\\rb\""));
    assert_eq!(quote("\u{8}\u{c}").as_deref(), Some("\"\\b\\f\""));
    assert_eq!(quote("\u{0}").as_deref(), Some("\"\\u0000\""));
    assert_eq!(quote("\u{1}\u{1f}").as_deref(), Some("\"\\u0001\\u001f\""));
    assert_eq!(quote("\u{b}\u{e}").as_deref(), Some("\"\\u000b\\u000e\""));
}

#[test]
fn strings_with_characters_that_stay() {
    assert_eq!(quote(" ~\u{7f}").as_deref(), Some("\" ~\u{7f}\""));
    assert_eq!(quote("caf\u{e9} \u{65e5}\u{672c}").as_deref(), Some("\"caf\u{e9} \u{65e5}\u{672c}\""));
    assert_eq!(quote("'/<>&").as_deref(), Some("\"'/<>&\""));
}

#[test]
fn record_writer_frames_members() {
    let mut w = RecordWriter::new();
    w.put("a", Some(String::from("1")));
    w.put("b_c", Some(String::from("\"x\"")));
    assert_eq!(w.finish(), "{\"a\":1,\"b_c\":\"x\"}");

    let mut single = RecordWriter::new();
    single.put("only", Some(String::from("0.5")));
    assert_eq!(single.into_text().as_deref(), Some("{\"only\":0.5}"));

    assert_eq!(RecordWriter::new().finish(), "{}");
}

#[test]
fn record_writer_degrades_to_the_empty_record() {
    let mut w = RecordWriter::new();
    w.put("a", Some(String::from("1")));
    w.put("b", None);
    w.put("c", Some(String::from("3")));
    assert_eq!(w.finish(), "{}");

    let mut failed = RecordWriter::new();
    failed.put("a", None);
    assert_eq!(failed.into_text(), None);
}

#[test]
fn sequence_writer_frames_items() {
    let mut w = SequenceWriter::new();
    w.put(Some(String::from("{}")));
    w.put(Some(String::from("{\"a\":1}")));
    assert_eq!(w.finish(), "[{},{\"a\":1}]");
    assert_eq!(SequenceWriter::new().finish(), "[]");
}

#[test]
fn sequence_writer_degrades_to_the_empty_sequence() {
    let mut w = SequenceWriter::new();
    w.put(Some(String::from("{}")));
    w.put(None);
    assert_eq!(w.finish(), "[]");
}

#[test]
fn empty_encodings() {
    assert_eq!(empty_record_text(), "{}");
    assert_eq!(empty_sequence_text(), "[]");
    assert_eq!(record_or_empty(None), "{}");
    assert_eq!(record_or_empty(Some(String::from("{\"a\":1}"))), "{\"a\":1}");
}

#[test]
fn memory_record_text() {
    let m = MemoryInfo::new(16_000, 4_000, 12_000);
    assert_eq!(
        m.to_wire(),
        "{\"total\":16000,\"used\":4000,\"available\":12000,\"usage_percent\":25.0}"
    );
    assert_eq!(
        MemoryInfo::new(3, 1, 2).to_wire(),
        "{\"total\":3,\"used\":1,\"available\":2,\"usage_percent\":33.33}"
    );
    assert_eq!(
        MemoryInfo::new(0, 0, 0).to_wire(),
        "{\"total\":0,\"used\":0,\"available\":0,\"usage_percent\":0.0}"
    );
}

#[test]
fn system_record_text() {
    let info = SystemInfo::from_readings(
        Some(String::from("Ubuntu")),
        None,
        Some(String::from("6.8.0")),
        Some(String::from("host \"a\"")),
        4,
        8192,
        1024,
        77,
    );
    assert_eq!(
        info.to_wire(),
        "{\"os\":\"Ubuntu\",\"os_version\":\"Unknown\",\"kernel_version\":\"6.8.0\",\
         \"hostname\":\"host \\\"a\\\"\",\"cpu_count\":4,\"total_memory\":8192,\
         \"used_memory\":1024,\"uptime\":77}"
    );
    assert_eq!(info.wire_item(), Some(info.to_wire()));
}

#[test]
fn disk_record_text() {
    let d = DiskInfo::new(String::from("/dev/sda1"), String::from("/"), 1000, 250);
    assert_eq!(
        d.to_wire(),
        "{\"name\":\"/dev/sda1\",\"mount_point\":\"/\",\"total_space\":1000,\
         \"available_space\":250,\"usage_percent\":75.0}"
    );
    let odd = DiskInfo::new(String::from("odd"), String::from("C:\\"), 100, 500);
    assert_eq!(
        odd.to_wire(),
        "{\"name\":\"odd\",\"mount_point\":\"C:\\\\\",\"total_space\":100,\
         \"available_space\":500,\"usage_percent\":0.0}"
    );
}

#[test]
fn core_record_text() {
    let core = CpuInfo {
        name: String::from("cpu0"),
        usage: Percent::from_single_bits(12.5f32.to_bits()),
        frequency: 2400,
    };
    assert_eq!(core.to_wire(), "{\"name\":\"cpu0\",\"usage\":12.5,\"frequency\":2400}");
    assert_eq!(core.wire_item(), Some(core.to_wire()));
}

#[test]
fn sequences_of_records() {
    let disks = vec![
        DiskInfo::new(String::from("a"), String::from("/"), 10, 5),
        DiskInfo::new(String::from("b"), String::from("/home"), 0, 0),
    ];
    assert_eq!(
        disks_to_wire(&disks),
        "[{\"name\":\"a\",\"mount_point\":\"/\",\"total_space\":10,\"available_space\":5,\
         \"usage_percent\":50.0},{\"name\":\"b\",\"mount_point\":\"/home\",\"total_space\":0,\
         \"available_space\":0,\"usage_percent\":0.0}]"
    );
    let cores = vec![
        CpuInfo { name: String::from("cpu0"), usage: percent(0), frequency: 0 },
        CpuInfo { name: String::from("cpu1"), usage: percent(10_000), frequency: 3000 },
    ];
    assert_eq!(
        cpus_to_wire(&cores),
        "[{\"name\":\"cpu0\",\"usage\":0.0,\"frequency\":0},\
         {\"name\":\"cpu1\",\"usage\":100.0,\"frequency\":3000}]"
    );
}

#[test]
fn empty_sequences_of_records() {
    assert_eq!(disks_to_wire(&Vec::new()), "[]");
    assert_eq!(cpus_to_wire(&Vec::new()), "[]");
}

#[test]
fn records_parse_back_field_by_field() {
    let name = "disk \"one\"\n\ttab \\ \u{1} caf\u{e9}";
    let d = DiskInfo::new(String::from(name), String::from("/mnt/\u{7f}"), u64::MAX, 1);
    let parsed: Value = serde_json::from_str(&d.to_wire()).expect("a record");
    let fields = parsed.as_object().expect("a record");
    assert_eq!(fields.len(), 5);
    assert_eq!(fields["name"].as_str(), Some(name));
    assert_eq!(fields["mount_point"].as_str(), Some("/mnt/\u{7f}"));
    assert_eq!(fields["total_space"].as_u64(), Some(u64::MAX));
    assert_eq!(fields["available_space"].as_u64(), Some(1));
    assert_eq!(fields["usage_percent"].as_f64(), Some(99.99));
}

#[test]
fn system_record_parses_back_field_by_field() {
    let info = SystemInfo::from_readings(
        Some(String::from("Dar\u{0}win")),
        Some(String::from("15.1.1")),
        None,
        Some(String::from("m\\b")),
        12,
        u64::MAX,
        0,
        1,
    );
    let parsed: Value = serde_json::from_str(&info.to_wire()).expect("a record");
    let fields = parsed.as_object().expect("a record");
    assert_eq!(fields.len(), 8);
    assert_eq!(fields["os"].as_str(), Some("Dar\u{0}win"));
    assert_eq!(fields["os_version"].as_str(), Some("15.1.1"));
    assert_eq!(fields["kernel_version"].as_str(), Some("Unknown"));
    assert_eq!(fields["hostname"].as_str(), Some("m\\b"));
    assert_eq!(fields["cpu_count"].as_u64(), Some(12));
    assert_eq!(fields["total_memory"].as_u64(), Some(u64::MAX));
    assert_eq!(fields["used_memory"].as_u64(), Some(0));
    assert_eq!(fields["uptime"].as_u64(), Some(1));
}

#[test]
fn memory_records_with_the_same_counters_have_the_same_text() {
    let first = MemoryInfo::new(4096, 1024, 3072);
    let second = MemoryInfo::new(4096, 1024, 3072);
    assert_eq!(first, second);
    assert_eq!(first.to_wire(), second.to_wire());
}

#[test]
fn memory_records_that_differ_have_different_text() {
    let records = [
        MemoryInfo::new(0, 0, 0),
        MemoryInfo::new(1, 0, 0),
        MemoryInfo::new(1, 1, 0),
        MemoryInfo::new(1, 0, 1),
        MemoryInfo::new(10, 1, 0),
        MemoryInfo::new(101, 0, 10),
        MemoryInfo::new(1010, 0, 0),
        MemoryInfo { total: 1, used: 0, available: 0, usage_percent: percent(10) },
        MemoryInfo { total: 1, used: 0, available: 0, usage_percent: percent(1) },
        MemoryInfo { total: 1, used: 0, available: 0, usage_percent: percent(100) },
    ];
    for (i, first) in records.iter().enumerate() {
        for (j, second) in records.iter().enumerate() {
            assert_eq!(first.to_wire() == second.to_wire(), i == j, "{i} {j}");
        }
    }
}

#[test]
fn answer_of_the_encoder_as_text() {
    assert_eq!(answer_text(Ok(String::from("\"a\""))).as_deref(), Some("\"a\""));
    assert_eq!(answer_text(Ok(String::new())).as_deref(), Some(""));
    let failure = serde_json::from_str::<Value>("{").expect_err("not a record");
    assert_eq!(answer_text(Err(failure)), None);
}

#[test]
fn memory_record_text_beyond_the_total() {
    assert_eq!(
        MemoryInfo::new(100, 150, 0).to_wire(),
        "{\"total\":100,\"used\":150,\"available\":0,\"usage_percent\":100.0}"
    );
}

#[test]
fn records_as_items_always_have_text() {
    let info = SystemInfo::from_readings(None, None, None, None, 0, 0, 0, 0);
    assert_eq!(
        info.wire_item().as_deref(),
        Some(
            "{\"os\":\"Unknown\",\"os_version\":\"Unknown\",\"kernel_version\":\"Unknown\",\
             \"hostname\":\"Unknown\",\"cpu_count\":0,\"total_memory\":0,\"used_memory\":0,\
             \"uptime\":0}"
        )
    );
    let disk = DiskInfo::new(String::from("\u{0}\"\\"), String::from("\n"), 200, 50);
    assert_eq!(
        disk.wire_item().as_deref(),
        Some(
            "{\"name\":\"\\u0000\\\"\\\\\",\"mount_point\":\"\\n\",\"total_space\":200,\
             \"available_space\":50,\"usage_percent\":75.0}"
        )
    );
}

#[test]
fn disks_with_odd_readings_are_kept_in_the_sequence() {
    let disks = vec![
        DiskInfo::new(String::from("sda1"), String::from("/"), 100, 150),
        DiskInfo::new(String::from("data"), String::from("/mnt"), 200, 50),
        DiskInfo::new(String::from("none"), String::from("/proc"), 0, 0),
    ];
    let parsed: Value = serde_json::from_str(&disks_to_wire(&disks)).expect("a sequence");
    let items = parsed.as_array().expect("a sequence");
    assert_eq!(items.len(), 3);
    assert_eq!(items[0]["name"].as_str(), Some("sda1"));
    assert_eq!(items[0]["mount_point"].as_str(), Some("/"));
    assert_eq!(items[0]["total_space"].as_u64(), Some(100));
    assert_eq!(items[0]["available_space"].as_u64(), Some(150));
    assert_eq!(items[0]["usage_percent"].as_f64(), Some(0.0));
    assert_eq!(items[1]["name"].as_str(), Some("data"));
    assert_eq!(items[1]["total_space"].as_u64(), Some(200));
    assert_eq!(items[1]["available_space"].as_u64(), Some(50));
    assert_eq!(items[1]["usage_percent"].as_f64(), Some(75.0));
    assert_eq!(items[2]["name"].as_str(), Some("none"));
    assert_eq!(items[2]["total_space"].as_u64(), Some(0));
    assert_eq!(items[2]["usage_percent"].as_f64(), Some(0.0));
}
