use r2pipe::codec::process_http_response;
use r2pipe::codec::process_tcp_response;
use r2pipe::frame_command;
use r2pipe::process_result;
use r2pipe::Error;

#[test]
fn empty_stream_is_empty_response() {
    assert_eq!(process_result(Vec::new()), Err(Error::EmptyResponse));
}

#[test]
fn response_delimiter_is_stripped() {
    assert_eq!(process_result(b"hi\0".to_vec()), Ok("hi".to_string()));
}

#[test]
fn single_nul_is_empty_response() {
    assert_eq!(process_result(vec![0u8]), Err(Error::EmptyResponse));
}

#[test]
fn single_byte_without_delimiter_is_empty_response() {
    assert_eq!(process_result(b"a".to_vec()), Err(Error::EmptyResponse));
}

#[test]
fn invalid_utf8_is_decode_error() {
    assert_eq!(process_result(vec![0xff, 0xfe, 0x00]), Err(Error::DecodeError));
}

#[test]
fn last_byte_is_stripped_even_without_delimiter() {
    assert_eq!(process_result(b"ab".to_vec()), Ok("a".to_string()));
}

#[test]
fn multibyte_text_round_trips() {
    let mut raw = "caf\u{e9}".as_bytes().to_vec();
    raw.push(0);
    assert_eq!(process_result(raw), Ok("caf\u{e9}".to_string()));
}

#[test]
fn echoing_transport_hands_command_back() {
    let mut raw = "pi 1".as_bytes().to_vec();
    raw.push(0);
    assert_eq!(process_result(raw), Ok("pi 1".to_string()));
}

#[test]
fn frame_command_appends_newline() {
    assert_eq!(frame_command("pd 3"), b"pd 3\n".to_vec());
}

#[test]
fn frame_command_on_empty_command() {
    assert_eq!(frame_command(""), vec![b'\n']);
}

#[test]
fn tcp_response_reads_whole_stream() {
    assert_eq!(process_tcp_response(b"hello".to_vec()), Ok("hello".to_string()));
}

#[test]
fn tcp_empty_stream_is_empty_response() {
    assert_eq!(process_tcp_response(Vec::new()), Err(Error::EmptyResponse));
}

#[test]
fn tcp_invalid_utf8_is_decode_error() {
    assert_eq!(process_tcp_response(vec![0x80]), Err(Error::DecodeError));
}

#[test]
fn http_body_is_taken_whole() {
    assert_eq!(process_http_response(b"pong".to_vec()), Ok("pong".to_string()));
}

#[test]
fn http_empty_body_is_empty_response() {
    assert_eq!(process_http_response(Vec::new()), Err(Error::EmptyResponse));
}

#[test]
fn http_invalid_utf8_is_decode_error() {
    assert_eq!(process_http_response(vec![0xc3, 0x28]), Err(Error::DecodeError));
}
