use winprint_ext::utils::com::ComInitializer;
use winprint_ext::utils::stream::StreamCollector;

/// Drives a collector with the given reads, as a stream would deliver them.
fn drain(mut collector: StreamCollector, reads: &[&[u8]]) -> (StreamCollector, usize) {
    let mut used = 0;
    while let Some(len) = collector.next_request() {
        let chunk = reads[used];
        assert!(chunk.len() <= len as usize);
        collector = collector.record_read(chunk);
        used += 1;
    }
    (collector, used)
}

#[test]
fn collects_a_stream_in_one_read() {
    let c = StreamCollector::start(11);
    assert_eq!(c.next_request(), Some(11));
    let (c, used) = drain(c, &[b"hello world"]);
    assert_eq!(used, 1);
    assert_eq!(c.finish(), b"hello world".to_vec());
}

#[test]
fn collects_a_stream_in_several_reads() {
    let mut c = StreamCollector::start(10);
    assert_eq!(c.next_request(), Some(10));
    c = c.record_read(b"abcd");
    assert_eq!(c.received_len(), 4);
    assert_eq!(c.next_request(), Some(6));
    c = c.record_read(b"ef");
    assert_eq!(c.next_request(), Some(4));
    c = c.record_read(b"ghij");
    assert_eq!(c.next_request(), None);
    assert_eq!(c.finish(), b"abcdefghij".to_vec());
}

#[test]
fn an_empty_read_ends_the_collection() {
    let mut c = StreamCollector::start(8);
    c = c.record_read(b"abc");
    assert_eq!(c.next_request(), Some(5));
    c = c.record_read(b"");
    assert_eq!(c.next_request(), None);
    assert_eq!(c.finish(), b"abc".to_vec());
}

#[test]
fn an_empty_stream_needs_no_read() {
    let c = StreamCollector::start(0);
    assert_eq!(c.next_request(), None);
    assert_eq!(c.finish(), Vec::<u8>::new());
}

#[test]
fn the_buffer_is_zero_filled_past_what_was_read() {
    let mut c = StreamCollector::start(6);
    c = c.record_read(b"xy");
    assert_eq!(c.into_buffer(), vec![b'x', b'y', 0, 0, 0, 0]);
}

#[test]
fn collecting_into_a_buffer_discards_its_content() {
    let old = vec![9u8; 20];
    let mut c = StreamCollector::start_in(old, 3);
    assert_eq!(c.next_request(), Some(3));
    c = c.record_read(b"new");
    assert_eq!(c.finish(), b"new".to_vec());
    let c = StreamCollector::start_in(vec![7u8, 7, 7], 5);
    assert_eq!(c.into_buffer(), vec![0u8; 5]);
}

#[test]
fn com_is_uninitialized_only_after_success() {
    assert!(ComInitializer::new(true).should_uninitialize());
    assert!(!ComInitializer::new(false).should_uninitialize());
}

#[test]
fn reading_and_copying_give_the_same_bytes() {
    let reads: [&[u8]; 3] = [b"abc", b"de", b""];
    let (read, _) = drain(StreamCollector::start(8), &reads);
    let (copied, _) = drain(StreamCollector::start_in(vec![1u8; 30], 8), &reads);
    assert_eq!(read.finish(), copied.finish());
}

#[test]
fn requests_never_exceed_what_is_missing() {
    let mut c = StreamCollector::start(7);
    assert_eq!(c.next_request(), Some(7));
    c = c.record_read(b"1234567");
    assert_eq!(c.received_len(), 7);
    assert_eq!(c.next_request(), None);
    assert_eq!(c.finish(), b"1234567".to_vec());
}
