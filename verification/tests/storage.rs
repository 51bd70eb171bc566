use devinsight::level::{LogEntry, LogLevel};
use devinsight::storage::{
    count_log_files, generate_filename, get_directory_size, is_log_file, log_file_name,
    LogStorage, StoredLog, Timestamp,
};

fn record(secs: i64, nanos: u32, message: &str) -> StoredLog {
    StoredLog {
        timestamp: Timestamp { secs, nanos },
        level: String::from("INFO"),
        tag: String::from("Tag"),
        message: String::from(message),
        device_id: None,
    }
}

fn storage(max_size: u64) -> LogStorage {
    LogStorage::new(String::from("logs"), max_size, String::from("logs/logcat_a.jsonl"))
}

#[test]
fn new_storage_starts_an_empty_file() {
    let s = storage(3);
    assert_eq!(s.base_path, "logs");
    assert_eq!(s.current_file, "logs/logcat_a.jsonl");
    assert_eq!(s.max_size, 3);
    assert_eq!(s.current_size, 0);
}

#[test]
fn file_is_full_at_the_threshold() {
    let mut s = storage(1);
    assert!(!s.store_log(1024 * 1024 - 1));
    assert_eq!(s.current_size, 1024 * 1024 - 1);
    assert!(s.store_log(1));
    assert_eq!(s.current_size, 1024 * 1024);
    s.rotate_log(String::from("logs/logcat_b.jsonl"));
    assert_eq!(s.current_size, 0);
    assert_eq!(s.current_file, "logs/logcat_b.jsonl");
    assert_eq!(s.max_size, 1);
    assert!(!s.store_log(100));
}

#[test]
fn one_rotation_where_the_sizes_cross_the_threshold() {
    let mut s = storage(1);
    let sizes = [400_000usize, 400_000, 200_000, 48_575, 300, 10, 1_048_576, 5];
    let mut rotated_at = Vec::new();
    let mut old_sizes = Vec::new();
    for (i, len) in sizes.iter().enumerate() {
        if s.store_log(*len) {
            rotated_at.push(i);
            old_sizes.push(s.current_size);
            s.rotate_log(format!("logs/logcat_{}.jsonl", i));
        }
    }
    assert_eq!(rotated_at, vec![4, 6]);
    assert_eq!(old_sizes, vec![1_048_875, 1_048_586]);
    assert!(old_sizes[0] < 1_048_576 + 300);
    assert_eq!(s.current_size, 5);
    assert_eq!(s.current_file, "logs/logcat_6.jsonl");
}

#[test]
fn threshold_of_zero_fills_every_file() {
    let mut s = storage(0);
    assert!(s.store_log(0));
    assert!(s.store_log(9));
}

#[test]
fn large_threshold_is_not_cut_short() {
    let mut s = storage(u64::MAX);
    assert!(!s.store_log(usize::MAX / 2));
    let mut t = storage(1 << 44);
    t.current_size = u64::MAX - 1;
    assert!(!t.store_log(1));
}

#[test]
fn report_names_the_current_file() {
    let mut s = storage(1);
    s.rotate_log(String::from("logs/logcat_b.jsonl"));
    let update = s.send_storage_update(123, 2);
    assert_eq!(update.current_file, "logs/logcat_b.jsonl");
    assert_eq!(update.total_size, 123);
    assert_eq!(update.file_count, 2);
}

#[test]
fn query_takes_both_ends_of_the_range() {
    let s = storage(1);
    let records = vec![
        record(99, 999_999_999, "before"),
        record(100, 0, "at start"),
        record(150, 5, "inside"),
        record(200, 7, "at end"),
        record(200, 8, "after"),
        record(120, 0, "inside, out of order"),
        record(-5, 0, "long before"),
    ];
    let found = s.query_logs(
        records,
        Timestamp { secs: 100, nanos: 0 },
        Timestamp { secs: 200, nanos: 7 },
    );
    let messages: Vec<&str> = found.iter().map(|r| r.message.as_str()).collect();
    assert_eq!(messages, vec!["at start", "inside", "at end", "inside, out of order"]);
}

#[test]
fn query_with_an_empty_range_finds_nothing() {
    let s = storage(1);
    let found = s.query_logs(
        vec![record(5, 0, "a")],
        Timestamp { secs: 6, nanos: 0 },
        Timestamp { secs: 4, nanos: 0 },
    );
    assert!(found.is_empty());
    assert!(s.query_logs(Vec::new(), Timestamp { secs: 0, nanos: 0 }, Timestamp { secs: 9, nanos: 0 }).is_empty());
}

#[test]
fn times_are_ordered_by_seconds_then_nanoseconds() {
    let a = Timestamp { secs: 1, nanos: 900 };
    let b = Timestamp { secs: 2, nanos: 0 };
    assert!(a.is_not_after(&b));
    assert!(!b.is_not_after(&a));
    assert!(a.is_not_after(&a));
    assert!(Timestamp { secs: -1, nanos: 5 }.is_not_after(&Timestamp { secs: 0, nanos: 0 }));
    assert!(!Timestamp { secs: 3, nanos: 6 }.is_not_after(&Timestamp { secs: 3, nanos: 5 }));
}

#[test]
fn log_files_end_in_jsonl() {
    assert!(is_log_file("logcat_20240321_102345.jsonl"));
    assert!(is_log_file("a.jsonl"));
    assert!(is_log_file("..jsonl"));
    assert!(!is_log_file(".jsonl"));
    assert!(!is_log_file("jsonl"));
    assert!(!is_log_file("a.json"));
    assert!(!is_log_file("a.jsonl.bak"));
    assert!(!is_log_file("a.JSONL"));
    assert!(!is_log_file(""));
    let names: Vec<String> = ["a.jsonl", "b.txt", ".jsonl", "c.d.jsonl", "jsonl"]
        .iter()
        .map(|s| s.to_string())
        .collect();
    assert_eq!(count_log_files(&names), 2);
    assert_eq!(count_log_files(&Vec::new()), 0);
}

#[test]
fn directory_size_is_the_sum_of_its_files() {
    assert_eq!(get_directory_size(&vec![]), Some(0));
    assert_eq!(get_directory_size(&vec![1, 2, 3, 1_000_000]), Some(1_000_006));
    assert_eq!(get_directory_size(&vec![u64::MAX - 1, 1]), Some(u64::MAX));
    assert_eq!(get_directory_size(&vec![u64::MAX, 0, 1]), None);
    assert_eq!(get_directory_size(&vec![1 << 63, 1 << 63]), None);
}

#[test]
fn file_name_wraps_the_stamp() {
    assert_eq!(log_file_name("20240321_102345"), "logcat_20240321_102345.jsonl");
    assert_eq!(log_file_name(""), "logcat_.jsonl");
    let name = generate_filename();
    assert!(name.starts_with("logcat_"));
    assert!(name.ends_with(".jsonl"));
    assert_eq!(name.len(), "logcat_20240321_102345.jsonl".len());
    assert!(is_log_file(&name));
    let stamp = &name[7..22];
    assert!(stamp.chars().enumerate().all(|(i, c)| if i == 8 { c == '_' } else { c.is_ascii_digit() }));
}

#[test]
fn record_of_an_entry_names_its_level() {
    let entry = LogEntry {
        level: LogLevel::Warning,
        timestamp: String::from("03-21 10:23:45"),
        tag: String::from("Net"),
        message: String::from("slow"),
    };
    let record = StoredLog::of_entry(&entry, Timestamp { secs: 1711016625, nanos: 678000000 });
    assert_eq!(record.timestamp, Timestamp { secs: 1711016625, nanos: 678000000 });
    assert_eq!(record.level, "WARN");
    assert_eq!(record.tag, "Net");
    assert_eq!(record.message, "slow");
    assert_eq!(record.device_id, None);
}

#[test]
fn storage_tells_whether_a_record_fits_its_counter() {
    let mut s = storage(1);
    assert!(s.can_store(usize::MAX));
    s.current_size = u64::MAX - 3;
    assert!(s.can_store(3));
    assert!(!s.can_store(4));
}
