use swarm_protocol::framing::{
    decode_header, encode_header, format_duration, frame_body_len, frame_header,
    remaining_timeout, HEADER_LEN,
};

#[test]
fn header_is_big_endian() {
    assert_eq!(encode_header(0x0102_0304), [1, 2, 3, 4]);
    assert_eq!(decode_header([1, 2, 3, 4]), 0x0102_0304);
    assert_eq!(encode_header(300), 300u32.to_be_bytes());
    assert_eq!(decode_header([0xff, 0xff, 0xff, 0xff]), u32::MAX);
    assert_eq!(HEADER_LEN, 4);
}

#[test]
fn header_roundtrip_on_samples() {
    for n in [0u32, 1, 255, 256, 65535, 65536, 16_777_215, 16_777_216, 33_554_432, u32::MAX] {
        assert_eq!(decode_header(encode_header(n)), n);
    }
}

#[test]
fn frame_header_refuses_lengths_beyond_the_prefix() {
    let beyond: u64 = 4_294_967_296;
    if let Ok(len) = usize::try_from(beyond) {
        assert_eq!(frame_header(len, usize::MAX), Err(len));
        assert_eq!(frame_header(len + 5, usize::MAX), Err(len + 5));
        assert_eq!(frame_header(len - 1, usize::MAX), Ok([255, 255, 255, 255]));
    }
}

#[test]
fn frame_header_respects_limit() {
    assert_eq!(frame_header(10, 10), Ok([0, 0, 0, 10]));
    assert_eq!(frame_header(11, 10), Err(11));
    assert_eq!(frame_header(0, 0), Ok([0, 0, 0, 0]));
}

#[test]
fn frame_body_len_respects_limit() {
    assert_eq!(frame_body_len([0, 0, 1, 0], 256), Ok(256));
    assert_eq!(frame_body_len([0, 0, 1, 1], 256), Err(257));
}

#[test]
fn written_header_is_read_back() {
    for len in [0usize, 1, 1000, 70_000] {
        let header = frame_header(len, 100_000).unwrap();
        assert_eq!(frame_body_len(header, 100_000), Ok(len));
    }
}

#[test]
fn remaining_timeout_borrows_a_second() {
    assert_eq!(remaining_timeout(2, 100, 1, 200), (0, 999_999_900));
    assert_eq!(remaining_timeout(2, 500, 1, 200), (1, 300));
    assert_eq!(remaining_timeout(2, 0, 2, 0), (0, 0));
}

#[test]
fn remaining_timeout_saturates_at_zero() {
    assert_eq!(remaining_timeout(2, 0, 3, 0), (0, 0));
    assert_eq!(remaining_timeout(2, 0, 2, 1), (0, 0));
}

#[test]
fn format_duration_renders_humantime() {
    assert_eq!(format_duration(0, 0), "0s");
    assert_eq!(format_duration(2, 0), "2s");
    assert_eq!(format_duration(9420, 0), "2h 37m");
    assert_eq!(format_duration(0, 32_000_000), "32ms");
}
