use debug_adapter::{encode_frame, get_content_len, parse_frame, send_data};

#[test]
fn frame_has_header_blank_line_and_body() {
    let (frame, next) = send_data(b"{\"a\":1}", 0);
    assert_eq!(frame, b"Content-Length: 7\r\n\r\n{\"a\":1}".to_vec());
    assert_eq!(next, 1);
}

#[test]
fn send_data_increments_caller_seq() {
    let (_, next) = send_data(b"x", 41);
    assert_eq!(next, 42);
}

#[test]
fn empty_body_frame() {
    let frame = encode_frame(b"");
    assert_eq!(frame, b"Content-Length: 0\r\n\r\n".to_vec());
}

#[test]
fn content_len_reads_second_token() {
    assert_eq!(get_content_len(b"Content-Length: 42\r\n"), Some(42));
    assert_eq!(get_content_len(b"Content-Length: 0"), Some(0));
    assert_eq!(get_content_len(b"X 7 junk"), Some(7));
}

#[test]
fn content_len_accepts_plus_prefix() {
    assert_eq!(get_content_len(b"Content-Length: +5"), Some(5));
}

#[test]
fn content_len_rejects_missing_or_bad_number() {
    assert_eq!(get_content_len(b""), None);
    assert_eq!(get_content_len(b"Content-Length:"), None);
    assert_eq!(get_content_len(b"Content-Length: abc"), None);
    assert_eq!(get_content_len(b"Content-Length: 12x"), None);
    assert_eq!(get_content_len(b"Content-Length: +"), None);
}

#[test]
fn content_len_rejects_overflow() {
    assert_eq!(get_content_len(b"Content-Length: 18446744073709551616"), None);
}

#[test]
fn round_trip_preserves_body() {
    let body = b"{\"seq\":3,\"type\":\"request\",\"command\":\"threads\"}";
    let frame = encode_frame(body);
    let (decoded, used) = parse_frame(&frame).expect("frame should parse");
    assert_eq!(decoded, body.to_vec());
    assert_eq!(used, frame.len());
}

#[test]
fn round_trip_body_with_line_breaks() {
    let body = b"line one\r\nline two\r\n\r\nrest";
    let frame = encode_frame(body);
    let (decoded, used) = parse_frame(&frame).expect("frame should parse");
    assert_eq!(decoded, body.to_vec());
    assert_eq!(used, frame.len());
}

#[test]
fn parse_leaves_trailing_bytes() {
    let mut data = encode_frame(b"abc");
    let first_len = data.len();
    data.extend_from_slice(b"Content-Length: 1\r\n\r\nz");
    let (decoded, used) = parse_frame(&data).expect("first frame should parse");
    assert_eq!(decoded, b"abc".to_vec());
    assert_eq!(used, first_len);
    let (second, _) = parse_frame(&data[used..]).expect("second frame should parse");
    assert_eq!(second, b"z".to_vec());
}

#[test]
fn parse_rejects_truncated_body() {
    assert!(parse_frame(b"Content-Length: 5\r\n\r\nabc").is_none());
}

#[test]
fn parse_rejects_missing_header() {
    assert!(parse_frame(b"").is_none());
    assert!(parse_frame(b"no line breaks here").is_none());
    assert!(parse_frame(b"Content-Length: 3\r\n").is_none());
}

#[test]
fn parse_ignores_second_line_content() {
    let (decoded, used) = parse_frame(b"Content-Length: 3\r\nxx\r\nabc").expect("should parse");
    assert_eq!(decoded, b"abc".to_vec());
    assert_eq!(used, 26);
}
