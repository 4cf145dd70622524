use std::time::{Duration, Instant};

use txrx::transfer::{CollectionEnd, Collector, ReadEvent, SendProgress, SendStep, WriteOutcome};

#[test]
fn silent_line_waits_for_the_deadline_then_yields_nothing() {
    let (mut port, _peer) = serial2::SerialPort::pair().expect("pseudo-terminal pair");
    let timeout = Duration::from_millis(50);
    port.set_read_timeout(timeout).unwrap();

    let payload = b"ABC";
    let mut progress = SendProgress::new(payload.len());
    while !progress.is_complete() {
        let (start, end) = progress.pending();
        let outcome = match port.write(&payload[start..end]) {
            Ok(n) => WriteOutcome::Accepted(n),
            Err(_) => WriteOutcome::Failed,
        };
        assert_ne!(progress.record(outcome), SendStep::Abort);
    }

    let begin = Instant::now();
    let mut collector = Collector::new();
    let mut chunk = [0u8; 64];
    while !collector.is_finished() {
        let event = match port.read(&mut chunk) {
            Ok(0) => ReadEvent::Closed,
            Ok(n) => ReadEvent::Data(chunk[..n].to_vec()),
            Err(e) if e.kind() == std::io::ErrorKind::TimedOut => ReadEvent::TimedOut,
            Err(_) => ReadEvent::Fault,
        };
        collector.on_event(event);
    }
    let elapsed = begin.elapsed();

    assert_eq!(collector.end(), Some(CollectionEnd::TimedOut));
    assert!(collector.into_received().is_empty());
    assert!(elapsed >= timeout, "returned after {:?}", elapsed);
    assert!(elapsed < timeout + Duration::from_secs(2), "returned after {:?}", elapsed);
}
