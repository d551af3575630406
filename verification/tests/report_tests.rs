use echo_bench::recorder::Recorder;
use echo_bench::report::{
    decimal_string, fmt_hundredths, make_summary, mb_hundredths, mbps_hundredths, progress_line,
    secs_hundredths, summary_lines,
};

#[test]
fn mb_hundredths_exact_values() {
    assert_eq!(mb_hundredths(0), 0);
    assert_eq!(mb_hundredths(1_048_576), 100); // exactly 1.00 MB
    assert_eq!(mb_hundredths(524_288), 50); // exactly 0.50 MB
    assert_eq!(mb_hundredths(3_200_000), 305); // the ten-round echo total
    assert_eq!(mb_hundredths(1_600_000), 153); // the ten-upload total
}

#[test]
fn secs_hundredths_rounds_half_up() {
    assert_eq!(secs_hundredths(0), 0);
    assert_eq!(secs_hundredths(5500), 550);
    assert_eq!(secs_hundredths(5504), 550);
    assert_eq!(secs_hundredths(5505), 551);
    assert_eq!(secs_hundredths(999), 100);
}

#[test]
fn mbps_hundredths_exact_values() {
    // 3,200,000 bytes in 5.5 s: 3.05 MB / 5.5 s rounds to 0.55 MB/s
    assert_eq!(mbps_hundredths(3_200_000, 5500), 55);
    // one megabyte per second exactly
    assert_eq!(mbps_hundredths(1_048_576, 1000), 100);
    assert_eq!(mbps_hundredths(0, 1000), 0);
}

#[test]
fn summary_carries_all_figures() {
    let s = make_summary(3_200_000, 5500);
    assert_eq!(s.transferred_bytes, 3_200_000);
    assert_eq!(s.elapsed_ms, 5500);
    assert_eq!(s.mb_hundredths, 305);
    assert_eq!(s.secs_hundredths, 550);
    assert_eq!(s.mbps_hundredths, Some(55));
}

#[test]
fn summary_with_zero_elapsed_has_no_bandwidth() {
    let s = make_summary(1000, 0);
    assert_eq!(s.mbps_hundredths, None);
    assert_eq!(s.secs_hundredths, 0);
}

#[test]
fn decimal_string_digits() {
    assert_eq!(decimal_string(0), "0");
    assert_eq!(decimal_string(7), "7");
    assert_eq!(decimal_string(10), "10");
    assert_eq!(decimal_string(305), "305");
    assert_eq!(decimal_string(1_600_000), "1600000");
}

#[test]
fn fmt_hundredths_two_decimals() {
    assert_eq!(fmt_hundredths(305), "3.05");
    assert_eq!(fmt_hundredths(550), "5.50");
    assert_eq!(fmt_hundredths(55), "0.55");
    assert_eq!(fmt_hundredths(5), "0.05");
    assert_eq!(fmt_hundredths(0), "0.00");
    assert_eq!(fmt_hundredths(1234), "12.34");
}

#[test]
fn progress_line_text() {
    assert_eq!(progress_line(1, 160000), "[1] Received and echoed 160000 bytes");
    assert_eq!(progress_line(10, 42), "[10] Received and echoed 42 bytes");
}

#[test]
fn summary_block_lines() {
    let s = make_summary(3_200_000, 5500);
    let lines = summary_lines(&s);
    assert_eq!(lines.len(), 4);
    assert_eq!(lines[0], "[Benchmark Result]");
    assert_eq!(lines[1], "  Total transferred: 3.05 MB");
    assert_eq!(lines[2], "  Elapsed time     : 5.50 s");
    assert_eq!(lines[3], "  Bandwidth        : 0.55 MB/s");
}

#[test]
fn ten_uploads_trigger_one_exact_summary() {
    let mut rec = Recorder::new(10);
    for i in 0..10u64 {
        let out = rec.record(160_000, 1000 + i * 100);
        assert_eq!(out.count, i + 1);
        assert_eq!(out.first_event, i == 0);
        if i < 9 {
            assert!(out.summary.is_none());
        } else {
            let s = out.summary.expect("a summary is owed at the expected count");
            assert_eq!(s.transferred_bytes, 1_600_000); // one-directional, no doubling
            assert_eq!(s.elapsed_ms, 900);
            assert_eq!(s.mb_hundredths, 153); // 1.53 MB
        }
    }
    assert_eq!(rec.count, 10);
    assert_eq!(rec.total_bytes, 1_600_000);
    assert_eq!(rec.start_ms, Some(1000));
}

#[test]
fn first_event_wins_start_timestamp() {
    let mut rec = Recorder::new(3);
    let first = rec.record(10, 4200);
    assert!(first.first_event);
    assert_eq!(rec.start_ms, Some(4200));
    let second = rec.record(10, 9999);
    assert!(!second.first_event);
    // the start timestamp, once set, is never overwritten
    assert_eq!(rec.start_ms, Some(4200));
}

#[test]
fn recorder_reports_once_at_the_trigger() {
    let mut rec = Recorder::new(2);
    assert!(rec.record(100, 0).summary.is_none());
    // the summary is evaluated once, at the request that reaches the count
    let at_expected = rec.record(100, 500).summary;
    assert!(at_expected.is_some());
    let s = at_expected.unwrap();
    assert_eq!(s.transferred_bytes, 200);
    assert_eq!(s.elapsed_ms, 500);
    // later requests are still counted but never re-emit the summary
    assert!(rec.record(50, 1000).summary.is_none());
    assert!(rec.record(50, 1500).summary.is_none());
    assert_eq!(rec.count, 4);
    assert_eq!(rec.total_bytes, 300);
}
