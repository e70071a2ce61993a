use relay_core::forwarder::{Action, Event, Failure, Forwarder};

fn fresh(buffer_size: usize) -> Forwarder<&'static str> {
    Forwarder::new(buffer_size)
}

#[test]
fn forwarder_with_an_empty_buffer_reads_nothing_and_stops() {
    let f = fresh(0);
    assert_eq!(f.action(), Action::Read { max: 0 });
    let f = f.step(Event::ReadDone(Vec::new()));
    assert_eq!(f.into_failure(), Some(Failure::UnexpectedEof));
}

#[test]
fn fresh_forwarder_asks_for_a_read_of_the_buffer_size() {
    let f = fresh(1024);
    assert_eq!(f.action(), Action::Read { max: 1024 });
    assert!(!f.is_stopped());
    assert_eq!(f.failure(), None);
    let g = fresh(1);
    assert_eq!(g.action(), Action::Read { max: 1 });
}

#[test]
fn bytes_read_are_offered_unchanged() {
    let f = fresh(1024).step(Event::ReadDone(b"ping".to_vec()));
    assert_eq!(f.action(), Action::Write(&b"ping"[..]));
    assert!(!f.is_stopped());
}

#[test]
fn full_write_goes_back_to_reading() {
    let f = fresh(1024).step(Event::ReadDone(b"ping".to_vec())).step(Event::WriteDone(4));
    assert_eq!(f.action(), Action::Read { max: 1024 });
}

#[test]
fn short_write_offers_the_rest_until_all_is_taken() {
    let f = fresh(1024).step(Event::ReadDone(b"abcdefg".to_vec()));
    let f = f.step(Event::WriteDone(3));
    assert_eq!(f.action(), Action::Write(&b"defg"[..]));
    let f = f.step(Event::WriteDone(1));
    assert_eq!(f.action(), Action::Write(&b"efg"[..]));
    let f = f.step(Event::WriteDone(3));
    assert_eq!(f.action(), Action::Read { max: 1024 });
}

#[test]
fn write_count_beyond_the_offer_counts_as_all_taken() {
    let f = fresh(8).step(Event::ReadDone(b"ab".to_vec())).step(Event::WriteDone(usize::MAX));
    assert_eq!(f.action(), Action::Read { max: 8 });
}

#[test]
fn zero_byte_read_is_an_unexpected_end_of_stream() {
    let f = fresh(1024).step(Event::ReadDone(Vec::new()));
    assert!(f.is_stopped());
    assert_eq!(f.action(), Action::Stop);
    assert_eq!(f.failure(), Some(&Failure::UnexpectedEof));
    assert_eq!(f.into_failure(), Some(Failure::UnexpectedEof));
}

#[test]
fn end_of_stream_after_traffic_stops_the_loop() {
    let f = fresh(1024)
        .step(Event::ReadDone(b"ping".to_vec()))
        .step(Event::WriteDone(4))
        .step(Event::ReadDone(Vec::new()));
    assert_eq!(f.into_failure(), Some(Failure::UnexpectedEof));
}

#[test]
fn read_error_is_carried_through() {
    let f = fresh(1024).step(Event::ReadFailed("connection reset"));
    assert_eq!(f.action(), Action::Stop);
    assert_eq!(f.into_failure(), Some(Failure::Read("connection reset")));
}

#[test]
fn write_error_is_carried_through() {
    let f = fresh(1024)
        .step(Event::ReadDone(b"ping".to_vec()))
        .step(Event::WriteFailed("broken pipe"));
    assert_eq!(f.action(), Action::Stop);
    assert_eq!(f.into_failure(), Some(Failure::Write("broken pipe")));
}

#[test]
fn write_that_takes_nothing_stops_the_loop() {
    let f = fresh(1024).step(Event::ReadDone(b"ping".to_vec())).step(Event::WriteDone(0));
    assert_eq!(f.into_failure(), Some(Failure::WriteZero));
}

#[test]
fn write_that_takes_nothing_after_a_short_write_stops_the_loop() {
    let f = fresh(1024)
        .step(Event::ReadDone(b"ping".to_vec()))
        .step(Event::WriteDone(2))
        .step(Event::WriteDone(0));
    assert_eq!(f.into_failure(), Some(Failure::WriteZero));
}

#[test]
fn running_forwarder_has_no_failure() {
    assert_eq!(fresh(4).into_failure(), None);
    assert_eq!(fresh(4).step(Event::ReadDone(b"x".to_vec())).into_failure(), None);
}

#[test]
fn forwarder_events_out_of_turn_change_nothing() {
    // a write result while a read is awaited
    let f = fresh(16).step(Event::WriteDone(3)).step(Event::WriteFailed("late"));
    assert_eq!(f.action(), Action::Read { max: 16 });
    // a read result while a write is awaited
    let f = f
        .step(Event::ReadDone(b"abc".to_vec()))
        .step(Event::ReadDone(b"xyz".to_vec()))
        .step(Event::ReadDone(Vec::new()))
        .step(Event::ReadFailed("late"));
    assert_eq!(f.action(), Action::Write(&b"abc"[..]));
}

#[test]
fn stopped_forwarder_stays_stopped() {
    let f = fresh(16)
        .step(Event::ReadFailed("first"))
        .step(Event::ReadDone(b"abc".to_vec()))
        .step(Event::WriteDone(3))
        .step(Event::ReadFailed("second"))
        .step(Event::WriteFailed("third"))
        .step(Event::ReadDone(Vec::new()));
    assert_eq!(f.action(), Action::Stop);
    assert_eq!(f.into_failure(), Some(Failure::Read("first")));
}

/// Drives a forwarder the way a driver would: `source` is read in chunks of at
/// most the size asked for, and the destination takes at most `gulp` bytes of
/// each offer. Returns what the destination has taken and why the loop ended.
fn pump(buffer_size: usize, source: &[u8], gulp: usize) -> (Vec<u8>, Option<Failure<&'static str>>) {
    let mut f: Forwarder<&'static str> = Forwarder::new(buffer_size);
    let mut at = 0;
    let mut taken = Vec::new();
    loop {
        let event = match f.action() {
            Action::Read { max } => {
                let end = source.len().min(at + max);
                let chunk = source[at..end].to_vec();
                at = end;
                Event::ReadDone(chunk)
            }
            Action::Write(bytes) => {
                let n = bytes.len().min(gulp);
                taken.extend_from_slice(&bytes[..n]);
                Event::WriteDone(n)
            }
            Action::Stop => break,
        };
        f = f.step(event);
    }
    (taken, f.into_failure())
}

#[test]
fn every_byte_arrives_in_order_and_unaltered() {
    let source: Vec<u8> = (0..5000u32).map(|i| (i * 7 + i / 256) as u8).collect();
    for (buffer_size, gulp) in [(1024, 1024), (1024, 7), (1, 1), (3, 2), (4096, 1000), (5000, 4999)] {
        let (taken, failure) = pump(buffer_size, &source, gulp);
        assert_eq!(taken, source);
        assert_eq!(failure, Some(Failure::UnexpectedEof));
    }
}

#[test]
fn nothing_arrives_from_an_empty_source() {
    let (taken, failure) = pump(1024, &[], 1024);
    assert_eq!(taken, Vec::<u8>::new());
    assert_eq!(failure, Some(Failure::UnexpectedEof));
}

#[test]
fn destination_that_takes_nothing_gets_nothing() {
    let (taken, failure) = pump(1024, b"ping", 0);
    assert_eq!(taken, Vec::<u8>::new());
    assert_eq!(failure, Some(Failure::WriteZero));
}

#[test]
fn io_errors_pass_through_untouched() {
    let f: Forwarder<std::io::Error> = Forwarder::new(1024);
    let f = f.step(Event::ReadFailed(std::io::Error::from(std::io::ErrorKind::ConnectionReset)));
    match f.into_failure() {
        Some(Failure::Read(e)) => assert_eq!(e.kind(), std::io::ErrorKind::ConnectionReset),
        other => panic!("unexpected outcome: {:?}", other),
    }
}
