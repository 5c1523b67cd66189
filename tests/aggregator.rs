use speedtest::aggregator::{Aggregator, Event, RateSample};

const SECOND: u64 = 1_000_000;

#[test]
fn new_window_is_empty() {
    let a = Aggregator::new(7);
    assert_eq!(a.accumulated_bytes, 0);
    assert_eq!(a.window_start, 7);
}

#[test]
fn window_rate_is_sum_over_elapsed() {
    let mut a = Aggregator::new(0);
    assert_eq!(a.on_event(Event::ByteCount(10), 5), None);
    assert_eq!(a.on_event(Event::ByteCount(20), 900_000), None);
    assert_eq!(a.on_event(Event::ByteCount(30), 3), None);
    let s = a.on_event(Event::ReportTick, 2 * SECOND).unwrap();
    assert_eq!(s, RateSample { bytes: 60, elapsed_micros: 2 * SECOND });
    assert_eq!(s.render(), "30.0 B/s");
}

#[test]
fn window_rate_ignores_byte_count_timing() {
    let counts = [400u64, 100, 500];
    let mut early = Aggregator::new(0);
    let mut late = Aggregator::new(0);
    for (i, n) in counts.iter().enumerate() {
        early.on_event(Event::ByteCount(*n), i as u64);
        late.on_event(Event::ByteCount(*n), SECOND - 1 - i as u64);
    }
    assert_eq!(
        early.on_event(Event::ReportTick, SECOND),
        late.on_event(Event::ReportTick, SECOND)
    );
}

#[test]
fn tick_resets_window() {
    let mut a = Aggregator::new(0);
    a.on_event(Event::ByteCount(1000), 10);
    let first = a.on_event(Event::ReportTick, SECOND).unwrap();
    assert_eq!(first.bytes, 1000);
    assert_eq!(a.accumulated_bytes, 0);
    assert_eq!(a.window_start, SECOND);
    let second = a.on_event(Event::ReportTick, 2 * SECOND).unwrap();
    assert_eq!(second, RateSample { bytes: 0, elapsed_micros: SECOND });
    assert_eq!(second.render(), "0.0 B/s");
}

#[test]
fn tick_with_no_elapsed_time_is_skipped() {
    let mut a = Aggregator::new(0);
    a.on_event(Event::ByteCount(300), 10);
    a.on_event(Event::ReportTick, SECOND);
    a.on_event(Event::ByteCount(50), SECOND);
    assert_eq!(a.on_event(Event::ReportTick, SECOND), None);
    assert_eq!(a.accumulated_bytes, 50);
    assert_eq!(a.window_start, SECOND);
    let s = a.on_event(Event::ReportTick, 2 * SECOND).unwrap();
    assert_eq!(s, RateSample { bytes: 50, elapsed_micros: SECOND });
}

#[test]
fn tick_before_window_start_is_skipped() {
    let mut a = Aggregator::new(SECOND);
    a.on_event(Event::ByteCount(5), SECOND);
    assert_eq!(a.on_event(Event::ReportTick, 10), None);
    assert_eq!(a, Aggregator { accumulated_bytes: 5, window_start: SECOND });
}

#[test]
fn byte_counts_saturate() {
    let mut a = Aggregator::new(0);
    a.on_event(Event::ByteCount(u64::MAX - 1), 1);
    a.on_event(Event::ByteCount(5), 2);
    assert_eq!(a.accumulated_bytes, u64::MAX);
}

#[test]
fn finish_reports_open_window() {
    let mut a = Aggregator::new(0);
    a.on_event(Event::ByteCount(750), 1);
    assert_eq!(
        a.finish(SECOND / 2),
        Some(RateSample { bytes: 750, elapsed_micros: SECOND / 2 })
    );
    assert_eq!(a.finish(0), None);
    assert_eq!(a.accumulated_bytes, 750);
}

#[test]
fn three_chunks_over_two_seconds() {
    let trace = [
        (Event::ByteCount(100), 300_000),
        (Event::ReportTick, SECOND),
        (Event::ByteCount(200), 1_400_000),
        (Event::ByteCount(300), 1_800_000),
        (Event::ReportTick, 2 * SECOND),
    ];
    let mut a = Aggregator::new(0);
    let mut reports = Vec::new();
    for (ev, at) in trace {
        if let Some(s) = a.on_event(ev, at) {
            reports.push(s);
        }
    }
    assert_eq!(reports.len(), 2);
    assert_eq!(reports[0].bytes + reports[1].bytes, 600);
    assert_eq!(reports[0], RateSample { bytes: 100, elapsed_micros: SECOND });
    assert_eq!(reports[1], RateSample { bytes: 500, elapsed_micros: SECOND });
    assert_eq!(reports[0].render(), "100.0 B/s");
    assert_eq!(reports[1].render(), "500.0 B/s");
}

#[test]
fn full_bus_blocks_and_loses_nothing() {
    let capacity: usize = 8;
    let (tx, mut rx) = tokio::sync::mpsc::channel::<Event>(capacity);
    let mut sent = 0;
    while tx.try_send(Event::ByteCount(3)).is_ok() {
        sent += 1;
        assert!(sent <= capacity);
    }
    assert_eq!(sent, capacity);
    assert!(matches!(
        tx.try_send(Event::ReportTick),
        Err(tokio::sync::mpsc::error::TrySendError::Full(_))
    ));
    let mut a = Aggregator::new(0);
    let mut received = 0;
    while let Ok(ev) = rx.try_recv() {
        received += 1;
        a.on_event(ev, 1);
    }
    assert_eq!(received, capacity);
    assert_eq!(a.accumulated_bytes, 3 * capacity as u64);
    assert!(tx.try_send(Event::ReportTick).is_ok());
}
