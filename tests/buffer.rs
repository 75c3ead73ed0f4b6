use commonlib::buffer::LogBuffer;
use commonlib::entry::FileLog;
use commonlib::level::LogLevel;

fn buffered(ts: i64) -> FileLog {
    FileLog { timestamp: ts, level: LogLevel::Info, category: None, message: None, error: None, ms: None }
}

#[test]
fn drain_returns_appends_in_order_and_empties() {
    let mut b = LogBuffer::new();
    b.append(buffered(1));
    b.append(buffered(2));
    let d = b.drain();
    assert_eq!(d, vec![buffered(1), buffered(2)]);
    assert_eq!(b.len(), 0);
    assert!(b.drain().is_empty());
    b.append(buffered(3));
    assert_eq!(b.drain(), vec![buffered(3)]);
}

#[test]
fn interleaved_appends_and_drains_lose_nothing() {
    let mut b = LogBuffer::new();
    let mut drained: Vec<i64> = Vec::new();
    let mut appended: Vec<i64> = Vec::new();
    for i in 0..100i64 {
        b.append(buffered(i));
        appended.push(i);
        if i % 7 == 3 {
            drained.extend(b.drain().into_iter().map(|e| e.timestamp));
        }
    }
    drained.extend(b.drain().into_iter().map(|e| e.timestamp));
    assert_eq!(drained, appended);
}
