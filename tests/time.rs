use commonlib::time::{Stopwatch, Time, TimeUnit, TimeValue};

#[test]
fn whole_units() {
    let t = Time::from_nanos(3_456_789_012);
    assert_eq!(t.s(), TimeValue { unit: TimeUnit::Seconds, value: 3 });
    assert_eq!(t.ms(), TimeValue { unit: TimeUnit::Milliseconds, value: 3456 });
    assert_eq!(t.us(), TimeValue { unit: TimeUnit::Microseconds, value: 3_456_789 });
    assert_eq!(t.ns(), TimeValue { unit: TimeUnit::Nanoseconds, value: 3_456_789_012 });
}

#[test]
fn optimal_unit_choice() {
    assert_eq!(Time::from_nanos(999).optimal(), TimeValue { unit: TimeUnit::Nanoseconds, value: 999 });
    assert_eq!(Time::from_nanos(1_000).optimal(), TimeValue { unit: TimeUnit::Microseconds, value: 1 });
    assert_eq!(Time::from_nanos(2_500_000).optimal(), TimeValue { unit: TimeUnit::Milliseconds, value: 2 });
    assert_eq!(Time::from_nanos(61_000_000_000).optimal(), TimeValue { unit: TimeUnit::Seconds, value: 61 });
}

#[test]
fn value_text() {
    assert_eq!(TimeValue { unit: TimeUnit::Milliseconds, value: 12 }.to_text(), "12ms");
    assert_eq!(TimeValue { unit: TimeUnit::Microseconds, value: 0 }.to_text(), "0μs");
    assert_eq!(
        TimeValue { unit: TimeUnit::Nanoseconds, value: u128::MAX }.to_text(),
        "340282366920938463463374607431768211455ns"
    );
}

#[test]
fn stopwatch_runs_after_start() {
    let mut sw = Stopwatch::new();
    assert!(sw.elapsed().is_none());
    sw.start();
    let t = sw.elapsed().unwrap();
    assert!(t.nanos < 60_000_000_000);
    sw.stop();
}
