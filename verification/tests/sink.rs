use watchtee::sink::{Sink, Tail};

#[test]
fn appended_bytes_are_visible_from_recorded_length() {
    // A reader that re-seeks to the previously recorded length observes
    // exactly the bytes appended after it, in order, no gaps, no duplicates.
    let mut sink = Sink::new();
    sink.append(b"first batch\n");
    let recorded = sink.len();
    sink.append(b"second batch\n");
    let seen = sink.read_at(recorded, sink.len() - recorded);
    assert_eq!(seen, b"second batch\n".to_vec());
}

#[test]
fn tail_chunked_reads_lose_and_repeat_nothing() {
    let mut sink = Sink::new();
    let mut tail = Tail::attach(&sink);
    let mut observed: Vec<u8> = Vec::new();

    sink.append(b"alpha\n");
    observed.extend(tail.poll(&sink));
    sink.append(b"beta\n");
    sink.append(b"gamma");
    observed.extend(tail.poll(&sink));
    observed.extend(tail.poll(&sink)); // nothing new: must add nothing
    sink.append(b"\n");
    observed.extend(tail.poll(&sink));

    assert_eq!(observed, b"alpha\nbeta\ngamma\n".to_vec());
}

#[test]
fn tail_starts_at_the_sinks_length() {
    // A sink that already holds N bytes at attachment: the first emitted
    // byte is byte N, never byte 0.
    let mut sink = Sink::with_contents(b"old log contents\n".to_vec());
    let tail = Tail::attach(&sink);
    assert_eq!(tail.pos, sink.len());
    assert_eq!(tail.start, 17);

    let mut tail = tail;
    sink.append(b"new\n");
    let first = tail.poll(&sink);
    assert_eq!(first, b"new\n".to_vec());
}

#[test]
fn empty_poll_returns_nothing_and_holds_position() {
    let mut sink = Sink::new();
    let mut tail = Tail::attach(&sink);
    let chunk = tail.poll(&sink);
    assert!(chunk.is_empty());
    assert_eq!(tail.pos, 0);
}

#[test]
fn poll_line_splits_at_newlines() {
    let mut sink = Sink::new();
    let mut tail = Tail::attach(&sink);
    sink.append(b"one\ntwo\nthree");

    assert_eq!(tail.poll_line(&sink), b"one\n".to_vec());
    assert_eq!(tail.poll_line(&sink), b"two\n".to_vec());
    // no newline after the last piece: the line runs to the sink's end
    assert_eq!(tail.poll_line(&sink), b"three".to_vec());
    // and once everything is consumed, a line read yields nothing
    assert_eq!(tail.poll_line(&sink), Vec::<u8>::new());

    sink.append(b" more\n");
    assert_eq!(tail.poll_line(&sink), b" more\n".to_vec());
}

#[test]
fn read_at_returns_exactly_the_requested_range() {
    let mut sink = Sink::new();
    sink.append(b"0123456789");
    assert_eq!(sink.read_at(3, 4), b"3456".to_vec());
    assert_eq!(sink.read_at(0, 0), Vec::<u8>::new());
    assert_eq!(sink.read_at(0, 10), b"0123456789".to_vec());
    assert_eq!(sink.byte_at(7), b'7');
}

#[test]
fn empty_sink_has_length_zero() {
    let sink = Sink::new();
    assert_eq!(sink.len(), 0);
    let sink = Sink::with_contents(Vec::new());
    assert_eq!(sink.len(), 0);
}
