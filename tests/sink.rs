use commonlib::entry::FileLog;
use commonlib::level::LogLevel;
use commonlib::sink::{log_file_name, FileSink, SinkAction};

const DAY: i64 = 86_400_000;

fn record(ts: i64, msg: &str) -> FileLog {
    FileLog {
        timestamp: ts,
        level: LogLevel::Info,
        category: None,
        message: Some(msg.to_string()),
        error: None,
        ms: None,
    }
}

#[test]
fn file_name_of_day() {
    assert_eq!(log_file_name("20240102"), "20240102-log.json");
}

#[test]
fn same_day_entries_are_appended() {
    let mut sink = FileSink::open("19700101".to_string(), vec![record(5, "old")]);
    assert!(matches!(sink.offer(record(10, "a")), SinkAction::Appended));
    assert!(matches!(sink.offer(record(DAY - 1, "b")), SinkAction::Appended));
    assert_eq!(sink.entries, vec![record(5, "old"), record(10, "a"), record(DAY - 1, "b")]);
    assert_eq!(sink.day, "19700101");
}

#[test]
fn rollover_closes_the_old_day_first() {
    let mut sink = FileSink::open("19700101".to_string(), Vec::new());
    assert!(matches!(sink.offer(record(1000, "day one")), SinkAction::Appended));
    match sink.offer(record(DAY + 1000, "day two")) {
        SinkAction::RollOver { closed_day, closed, next_day } => {
            assert_eq!(closed_day, "19700101");
            assert_eq!(closed, vec![record(1000, "day one")]);
            assert_eq!(next_day, "19700102");
            assert_ne!(log_file_name(&closed_day), log_file_name(&next_day));
        }
        _ => panic!("no rollover"),
    }
    assert!(sink.is_waiting());
    sink.resume(vec![record(DAY, "loaded")]);
    assert!(!sink.is_waiting());
    assert_eq!(sink.day, "19700102");
    assert_eq!(sink.entries, vec![record(DAY, "loaded"), record(DAY + 1000, "day two")]);
}

#[test]
fn earlier_day_also_rolls_over() {
    let mut sink = FileSink::open("19700102".to_string(), Vec::new());
    match sink.offer(record(0, "late")) {
        SinkAction::RollOver { next_day, .. } => assert_eq!(next_day, "19700101"),
        _ => panic!("no rollover"),
    }
}

#[test]
fn unplaceable_entry_is_handed_back() {
    let mut sink = FileSink::open("19700101".to_string(), vec![record(1, "x")]);
    match sink.offer(record(i64::MAX, "far")) {
        SinkAction::Unplaceable(e) => assert_eq!(e, record(i64::MAX, "far")),
        _ => panic!("placed"),
    }
    assert_eq!(sink.entries, vec![record(1, "x")]);
    assert!(!sink.is_waiting());
}
