use progress_stream::mem::BrokenStream;
use progress_stream::mem::Recorder;
use progress_stream::mem::VecSink;
use progress_stream::mem::VecSource;
use progress_stream::progress::Progress;
use progress_stream::stream::ByteSink;
use progress_stream::stream::ByteSource;
use progress_stream::stream::Printer;

#[test]
fn it_works() {
}

#[test]
fn read_reports_with_zero_interval() {
    // total=1000, interval=0, reads of sizes 100, 0, 50: the zero-byte
    // read must not report, the other two must.
    let src = VecSource::new(vec![7u8; 150]);
    let mut p = Progress::new(src, 1000, Recorder::new());

    let mut buf = vec![0u8; 100];
    assert_eq!(p.read(&mut buf), Ok(100));
    assert_eq!(p.current, 100);

    let mut empty: Vec<u8> = Vec::new();
    assert_eq!(p.read(&mut empty), Ok(0));
    assert_eq!(p.current, 100);

    let mut buf2 = vec![0u8; 100];
    assert_eq!(p.read(&mut buf2), Ok(50));
    assert_eq!(p.current, 150);

    assert_eq!(p.printer.reports, vec![(100, 1000), (150, 1000)]);
}

#[test]
fn write_reports_with_interval_200() {
    // total=500, interval=200, six writes of 50 bytes: the one report
    // fires after the fifth write, once 250 unreported bytes exceed 200.
    let mut p = Progress::new(VecSink::new(), 500, Recorder::new());
    p.set_interval(200);

    let chunk = vec![9u8; 50];
    for _ in 0..6 {
        assert_eq!(p.write(&chunk), Ok(50));
    }

    assert_eq!(p.current, 300);
    assert_eq!(p.printer.reports, vec![(250, 500)]);
    assert_eq!(p.inner.data.len(), 300);
}

#[test]
fn counter_matches_transferred_bytes() {
    // The counter equals the sum of the confirmed amounts, whatever the
    // mix of operation sizes.
    let src = VecSource::new((0u8..=255).collect());
    let mut p = Progress::new(src, 256, Recorder::new());
    let mut moved = 0u64;
    for size in [3usize, 0, 17, 1, 200, 100] {
        let mut buf = vec![0u8; size];
        let amt = p.read(&mut buf).unwrap();
        moved += amt as u64;
        assert_eq!(p.current, moved);
    }
    assert_eq!(moved, 256);
    assert_eq!(p.current, 256);
}

#[test]
fn reports_are_monotonic_and_never_overshoot() {
    let src = VecSource::new(vec![1u8; 400]);
    let mut p = Progress::new(src, 400, Recorder::new());
    p.set_interval(16);

    let mut moved = 0u64;
    for size in [10usize, 30, 5, 0, 120, 7, 7, 7, 200, 50] {
        let mut buf = vec![0u8; size];
        let amt = p.read(&mut buf).unwrap();
        moved += amt as u64;
        // No report ever exceeds the bytes confirmed so far.
        for &(current, total) in &p.printer.reports {
            assert!(current <= moved);
            assert_eq!(total, 400);
        }
    }
    // The reported values never decrease, and consecutive reports are
    // more than the interval apart.
    let reports = &p.printer.reports;
    assert!(!reports.is_empty());
    for w in reports.windows(2) {
        assert!(w[0].0 < w[1].0);
        assert!(w[1].0 - w[0].0 > 16);
    }
}

#[test]
fn failed_read_changes_nothing() {
    let mut p = Progress::new(BrokenStream::new(7), 100, Recorder::new());
    let mut buf = vec![0u8; 10];
    assert_eq!(p.read(&mut buf), Err(7));
    assert_eq!(p.current, 0);
    assert_eq!(p.last_reported, 0);
    assert!(p.printer.reports.is_empty());
    assert_eq!(buf, vec![0u8; 10]);
}

#[test]
fn failed_write_changes_nothing() {
    let mut p = Progress::new(BrokenStream::new(40), 100, Recorder::new());
    assert_eq!(p.write(&[1, 2, 3]), Err(40));
    assert_eq!(p.current, 0);
    assert_eq!(p.last_reported, 0);
    assert!(p.printer.reports.is_empty());
    assert_eq!(p.flush(), Err(40));
    assert!(p.printer.reports.is_empty());
}

#[test]
fn wrapped_stream_behaves_like_bare_stream() {
    // The same operations on a bare stream and on a wrapped one give the
    // same results, buffer contents and final stream state.
    let data: Vec<u8> = (0u8..100).collect();
    let mut bare = VecSource::new(data.clone());
    let mut wrapped = Progress::new(VecSource::new(data), 100, Recorder::new());

    for size in [13usize, 0, 42, 99] {
        let mut buf_a = vec![0u8; size];
        let mut buf_b = vec![0u8; size];
        assert_eq!(bare.read(&mut buf_a), wrapped.read(&mut buf_b));
        assert_eq!(buf_a, buf_b);
    }
    assert_eq!(bare.pos, wrapped.inner.pos);

    let mut bare_sink = VecSink::new();
    let mut wrapped_sink = Progress::new(VecSink::new(), 0, Recorder::new());
    for chunk in [&b"hello"[..], &b""[..], &b" world"[..]] {
        assert_eq!(bare_sink.write(chunk), wrapped_sink.write(chunk));
        assert_eq!(bare_sink.flush(), wrapped_sink.flush());
    }
    assert_eq!(bare_sink.data, wrapped_sink.inner.data);
}

#[test]
fn flush_has_no_progress_side_effects() {
    let mut p = Progress::new(VecSink::new(), 50, Recorder::new());
    assert_eq!(p.write(&[1, 2, 3]), Ok(3));
    let reports_before = p.printer.reports.clone();
    assert_eq!(p.flush(), Ok(()));
    assert_eq!(p.current, 3);
    assert_eq!(p.printer.reports, reports_before);
}

#[test]
fn zero_interval_reports_every_nonempty_operation() {
    let src = VecSource::new(vec![5u8; 3]);
    let mut p = Progress::new(src, 3, Recorder::new());
    for _ in 0..3 {
        let mut buf = vec![0u8; 1];
        assert_eq!(p.read(&mut buf), Ok(1));
    }
    assert_eq!(p.printer.reports, vec![(1, 3), (2, 3), (3, 3)]);
}

#[test]
fn threshold_is_strictly_greater_than() {
    // With interval=100, exactly 100 accumulated bytes must not report;
    // the 101st byte must.
    let mut p = Progress::new(VecSink::new(), 0, Recorder::new());
    p.set_interval(100);
    assert_eq!(p.write(&vec![0u8; 100]), Ok(100));
    assert!(p.printer.reports.is_empty());
    assert_eq!(p.write(&[0u8]), Ok(1));
    assert_eq!(p.printer.reports, vec![(101, 0)]);
}

#[test]
fn no_report_on_construction() {
    let p = Progress::new(VecSource::new(vec![1u8, 2]), 2, Recorder::new());
    assert!(p.printer.reports.is_empty());
    assert_eq!(p.current, 0);
    assert_eq!(p.last_reported, 0);
}

#[test]
fn recorder_keeps_reports_in_order() {
    let mut r = Recorder::new();
    r.print(1, 10);
    r.print(5, 10);
    assert_eq!(r.reports, vec![(1, 10), (5, 10)]);
}
