use rustrument::error::Error;
use rustrument::protocols::onc_rpc::record::{
    push_stream, read_record, take_record, write_fragment, write_record, DEFAULT_FRAGMENT,
};

#[test]
fn single_fragment_record() {
    let mut out = Vec::new();
    write_record(&mut out, b"abcde", 100);
    assert_eq!(out, vec![0x80, 0, 0, 5, b'a', b'b', b'c', b'd', b'e']);
    assert_eq!(read_record(&out, 100), Ok(Some((b"abcde".to_vec(), 9))));
}

#[test]
fn empty_message_is_one_empty_last_fragment() {
    let mut out = Vec::new();
    write_record(&mut out, b"", 100);
    assert_eq!(out, vec![0x80, 0, 0, 0]);
    assert_eq!(read_record(&out, 100), Ok(Some((Vec::new(), 4))));
}

#[test]
fn long_message_is_cut_into_fragments() {
    let mut out = Vec::new();
    write_record(&mut out, b"0123456789", 4);
    assert_eq!(
        out,
        vec![
            0, 0, 0, 4, b'0', b'1', b'2', b'3', 0, 0, 0, 4, b'4', b'5', b'6', b'7', 0x80, 0, 0, 2, b'8',
            b'9'
        ]
    );
    assert_eq!(read_record(&out, 4), Ok(Some((b"0123456789".to_vec(), 22))));
}

#[test]
fn exact_multiple_ends_with_a_full_fragment() {
    let mut out = Vec::new();
    write_record(&mut out, b"01234567", 4);
    assert_eq!(out, vec![0, 0, 0, 4, b'0', b'1', b'2', b'3', 0x80, 0, 0, 4, b'4', b'5', b'6', b'7']);
}

#[test]
fn fragment_length_zero_counts_as_one() {
    let mut out = Vec::new();
    write_record(&mut out, b"ab", 0);
    assert_eq!(out, vec![0, 0, 0, 1, b'a', 0x80, 0, 0, 1, b'b']);
}

#[test]
fn record_round_trip_over_fragment_sizes() {
    let message: Vec<u8> = (0..=255u8).cycle().take(1000).collect();
    for step in [1u32, 2, 3, 7, 64, 999, 1000, 1001, DEFAULT_FRAGMENT] {
        let mut out = Vec::new();
        write_record(&mut out, &message, step);
        out.extend_from_slice(b"trailing");
        let (read, used) = read_record(&out, DEFAULT_FRAGMENT).expect("no framing error").expect("complete");
        assert_eq!(read, message);
        assert_eq!(used, out.len() - 8);
    }
}

#[test]
fn record_round_trip_over_a_ragged_schedule() {
    let message = b"The quick brown fox jumps over the lazy dog";
    let schedule = [3usize, 0, 10, 1, 0, 17];
    let mut out = Vec::new();
    let mut at = 0;
    for size in schedule {
        assert_eq!(write_fragment(&mut out, &message[at..at + size], false), Ok(()));
        at += size;
    }
    assert_eq!(write_fragment(&mut out, &message[at..], true), Ok(()));
    assert_eq!(out.len(), message.len() + 4 * (schedule.len() + 1));
    assert_eq!(read_record(&out, 64), Ok(Some((message.to_vec(), out.len()))));
}

#[test]
fn partial_record_is_incomplete() {
    let mut out = Vec::new();
    write_record(&mut out, b"0123456789", 4);
    for cut in 0..out.len() {
        assert_eq!(read_record(&out[..cut], 4), Ok(None));
    }
}

#[test]
fn oversize_fragment_is_a_framing_error() {
    let stream = vec![0x80, 0, 0, 9, 1, 2, 3, 4, 5, 6, 7, 8, 9];
    assert_eq!(read_record(&stream, 8), Err(Error::Framing));
    assert_eq!(read_record(&stream, 9), Ok(Some((vec![1, 2, 3, 4, 5, 6, 7, 8, 9], 13))));
    assert_eq!(read_record(&[0x7f, 0xff, 0xff, 0xff], DEFAULT_FRAGMENT), Err(Error::Framing));
}

#[test]
fn only_the_first_record_is_taken() {
    let mut stream = Vec::new();
    write_record(&mut stream, b"one", 100);
    write_record(&mut stream, b"two", 100);
    assert_eq!(read_record(&stream, 100), Ok(Some((b"one".to_vec(), 7))));
    assert_eq!(read_record(&stream[7..], 100), Ok(Some((b"two".to_vec(), 7))));
}

#[test]
fn stream_buffer_hands_out_records_in_order() {
    let mut stream = Vec::new();
    write_record(&mut stream, b"first message", 5);
    write_record(&mut stream, b"second", 5);
    let mut buffer = bytes::BytesMut::new();
    let mut messages = Vec::new();
    for chunk in stream.chunks(3) {
        push_stream(&mut buffer, chunk);
        while let Some(message) = take_record(&mut buffer, 5).expect("no framing error") {
            messages.push(message);
        }
    }
    assert_eq!(messages, vec![b"first message".to_vec(), b"second".to_vec()]);
    assert_eq!(buffer.len(), 0);
}

#[test]
fn stream_buffer_keeps_what_is_incomplete() {
    let mut buffer = bytes::BytesMut::new();
    push_stream(&mut buffer, &[0x80, 0, 0, 4, 1, 2]);
    assert_eq!(take_record(&mut buffer, 100), Ok(None));
    assert_eq!(&buffer[..], &[0x80, 0, 0, 4, 1, 2]);
    push_stream(&mut buffer, &[3, 4, 0x80, 0]);
    assert_eq!(take_record(&mut buffer, 100), Ok(Some(vec![1, 2, 3, 4])));
    assert_eq!(&buffer[..], &[0x80, 0]);
}

#[test]
fn stream_buffer_is_left_alone_on_a_framing_error() {
    let mut buffer = bytes::BytesMut::new();
    push_stream(&mut buffer, &[0, 0, 1, 0, 9, 9]);
    assert_eq!(take_record(&mut buffer, 16), Err(Error::Framing));
    assert_eq!(&buffer[..], &[0, 0, 1, 0, 9, 9]);
}
