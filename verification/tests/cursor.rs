use nova_telemetry::cursor::Decoder;
use nova_telemetry::errors::FrameError;

#[test]
fn peek_does_not_advance() {
    let mut d = Decoder::new(vec![10, 20]);
    assert_eq!(d.peek(), Ok(10));
    assert_eq!(d.peek(), Ok(10));
    assert_eq!(d.position(), 0);
}

#[test]
fn next_advances_one_byte_at_a_time() {
    let mut d = Decoder::new(vec![10, 20]);
    assert_eq!(d.next(), Ok(10));
    assert_eq!(d.next(), Ok(20));
    assert_eq!(d.next(), Err(FrameError::BufferUnderflow));
    assert_eq!(d.position(), 2);
}

#[test]
fn expect_reports_the_mismatch_index() {
    let mut d = Decoder::new(vec![b'N', b'O', b'Q']);
    assert_eq!(d.expect(b'N'), Ok(()));
    assert_eq!(d.expect(b'O'), Ok(()));
    assert_eq!(d.expect(b'V'), Err(FrameError::Unexpected { expected: b'V', got: b'Q', index: 2 }));
}

#[test]
fn expect_same_chars_consumes_a_doubled_pair() {
    let mut d = Decoder::new(vec![7, 7, 9]);
    assert_eq!(d.expect_same_chars(), Ok(Some(7)));
    assert_eq!(d.position(), 2);
}

#[test]
fn expect_same_chars_skips_one_unmatched_byte() {
    let mut d = Decoder::new(vec![7, 9, 9]);
    assert_eq!(d.expect_same_chars(), Ok(None));
    assert_eq!(d.position(), 1);
    assert_eq!(d.expect_same_chars(), Ok(Some(9)));
}

#[test]
fn expect_same_chars_underflows_at_the_end() {
    let mut d = Decoder::new(vec![7]);
    assert_eq!(d.expect_same_chars(), Err(FrameError::BufferUnderflow));
}

#[test]
fn read_buf_is_atomic_on_underflow() {
    let mut d = Decoder::new(vec![1, 2, 3]);
    let r: Result<[u8; 4], FrameError> = d.read_buf::<4>();
    assert_eq!(r, Err(FrameError::BufferUnderflow));
    assert_eq!(d.position(), 0);
    let r: Result<[u8; 2], FrameError> = d.read_buf::<2>();
    assert_eq!(r, Ok([1, 2]));
    assert_eq!(d.position(), 2);
}

#[test]
fn read_little_i16_is_signed_little_endian() {
    let mut d = Decoder::new(vec![0xff, 0x7f, 0x00, 0x80, 0x10, 0xfc]);
    assert_eq!(d.read_little_i16(), Ok(32767));
    assert_eq!(d.read_little_i16(), Ok(-32768));
    assert_eq!(d.read_little_i16(), Ok(-1008));
}

#[test]
fn read_little_i32_is_signed_little_endian() {
    let mut d = Decoder::new(vec![0xc4, 0x09, 0x00, 0x00, 0xff, 0xff, 0xff, 0xff]);
    assert_eq!(d.read_little_i32(), Ok(2500));
    assert_eq!(d.read_little_i32(), Ok(-1));
}

#[test]
fn ensure_available_checks_without_moving() {
    let d = Decoder::new(vec![1, 2, 3]);
    assert_eq!(d.ensure_available(3), Ok(()));
    assert_eq!(d.ensure_available(4), Err(FrameError::BufferUnderflow));
}

#[test]
fn last_offset_trails_the_position() {
    let mut d = Decoder::new(vec![5, 6]);
    assert_eq!(d.last_offset(), 0);
    let _ = d.next();
    assert_eq!(d.last_offset(), 0);
    let _ = d.next();
    assert_eq!(d.last_offset(), 1);
}
