use commonlib::buffer::LogBuffer;
use commonlib::dispatch::{Dispatch, Dispatcher};
use commonlib::entry::LogFields;
use commonlib::filter::{EnvOverrides, LevelFilter};
use commonlib::level::LogLevel;

fn unset_env() -> EnvOverrides {
    EnvOverrides { level: String::new(), force: String::new() }
}

#[test]
fn end_to_end_warn_level() {
    let d = Dispatcher { filter: LevelFilter::new(LogLevel::Warn), file_logging: true };
    let mut buffer = LogBuffer::new();

    let mut info = LogFields::new();
    info.record_str("message", "ignored");
    let r = d.on_event(&mut buffer, Some("app"), LogLevel::Info, info, 0, false, &unset_env());
    assert!(matches!(r, Dispatch::Skipped));
    assert_eq!(buffer.len(), 0);

    let mut fields = LogFields::new();
    fields.record_str("category", "DB");
    fields.record_str("message", "conn failed");
    let r = d.on_event(&mut buffer, Some("app"), LogLevel::Error, fields, 0, false, &unset_env());
    match r {
        Dispatch::Written(line) => {
            assert!(line.to_stderr);
            assert!(line.text.contains("ERROR"));
            assert!(line.text.contains("DB"));
            assert!(line.text.contains("conn failed"));
            assert_eq!(line.text, "ERROR · DB          · 1970-01-01 00:00:00 · conn failed");
        }
        _ => panic!("the error event was not written"),
    }
    assert_eq!(buffer.len(), 1);
    let entry = &buffer.entries[0];
    assert_eq!(entry.level, LogLevel::Error);
    assert_eq!(entry.category.as_deref(), Some("DB"));
    assert_eq!(entry.message.as_deref(), Some("conn failed"));
    assert_eq!(entry.timestamp, 0);
}

#[test]
fn no_buffering_without_file_logging() {
    let d = Dispatcher { filter: LevelFilter::new(LogLevel::Info), file_logging: false };
    let mut buffer = LogBuffer::new();
    let r = d.on_event(&mut buffer, None, LogLevel::Info, LogFields::new(), 86_400_000, false, &unset_env());
    match r {
        Dispatch::Written(line) => {
            assert!(!line.to_stderr);
            assert!(line.text.contains("1970-01-02 00:00:00"));
        }
        _ => panic!("the info event was not written"),
    }
    assert_eq!(buffer.len(), 0);
}

#[test]
fn off_events_are_skipped() {
    let d = Dispatcher { filter: LevelFilter::new(LogLevel::Trace), file_logging: true };
    let mut buffer = LogBuffer::new();
    let r = d.on_event(&mut buffer, None, LogLevel::Off, LogFields::new(), 0, false, &unset_env());
    assert!(matches!(r, Dispatch::Skipped));
    assert_eq!(buffer.len(), 0);
}

#[test]
fn out_of_range_timestamp_is_unstamped() {
    let d = Dispatcher { filter: LevelFilter::new(LogLevel::Trace), file_logging: true };
    let mut buffer = LogBuffer::new();
    let r = d.on_event(&mut buffer, None, LogLevel::Info, LogFields::new(), i64::MAX, false, &unset_env());
    assert!(matches!(r, Dispatch::Unstamped));
    assert_eq!(buffer.len(), 0);
}

#[test]
fn fields_are_recognized_by_both_spellings() {
    let mut f = LogFields::new();
    f.record_str("cat", "net");
    f.record_str("msg", "hello");
    f.record_debug("err", "Io(\"x\")");
    f.record_ms("stopwatch", 12);
    f.record_str("other", "ignored");
    assert_eq!(f.category.as_deref(), Some("NET"));
    assert_eq!(f.message.as_deref(), Some("hello"));
    assert_eq!(f.error.as_deref(), Some("Io(\"x\")"));
    assert_eq!(f.ms, Some(12));
    let mut g = LogFields::new();
    g.record_debug("message", "dbg");
    g.record_str("error", "plain");
    g.record_ms("ms", 3);
    assert_eq!(g.message.as_deref(), Some("dbg"));
    assert_eq!(g.error.as_deref(), Some("plain"));
    assert_eq!(g.ms, Some(3));
}
