use msitrace::fetch::{display_text, finish_fetch, plan_buffer, ERROR_MORE_DATA, ERROR_SUCCESS};
use msitrace::Error;

#[test]
fn first_call_must_report_more_data() {
    assert_eq!(plan_buffer(ERROR_MORE_DATA, 5), Ok(6));
    assert_eq!(plan_buffer(ERROR_MORE_DATA, 0), Ok(1));
    assert_eq!(plan_buffer(ERROR_SUCCESS, 5), Err(Error::EngineCode(0)));
    assert_eq!(plan_buffer(1627, 5), Err(Error::EngineCode(1627)));
}

#[test]
fn first_call_capacity_has_room_for_terminator() {
    assert_eq!(plan_buffer(ERROR_MORE_DATA, u32::MAX), Ok(u32::MAX as u64 + 1));
}

#[test]
fn two_call_protocol_round_trip() {
    // A field holding "hello": the first call reports 5, the buffer gets
    // 5 + 1 bytes, the second call reports 5 again.
    let text = b"hello";
    let cap = plan_buffer(ERROR_MORE_DATA, text.len() as u32).unwrap();
    assert_eq!(cap, 6);
    let mut buffer = vec![0u8; cap as usize];
    buffer[..text.len()].copy_from_slice(text);
    let got = finish_fetch(ERROR_SUCCESS, buffer, text.len() as u32).unwrap();
    assert_eq!(got, "hello");
}

#[test]
fn empty_field_round_trip() {
    let cap = plan_buffer(ERROR_MORE_DATA, 0).unwrap();
    let buffer = vec![0u8; cap as usize];
    let got = finish_fetch(ERROR_SUCCESS, buffer, 0).unwrap();
    assert_eq!(got, "");
}

#[test]
fn second_call_length_wins_over_first() {
    // The first call reported 5, but the second call reports 3: the
    // result is the buffer's first 3 bytes, not 5.
    let mut buffer = vec![0u8; 6];
    buffer[..5].copy_from_slice(b"hello");
    let got = finish_fetch(ERROR_SUCCESS, buffer, 3).unwrap();
    assert_eq!(got, "hel");
}

#[test]
fn second_call_failure_is_engine_error() {
    let buffer = vec![0u8; 6];
    assert_eq!(
        finish_fetch(1603, buffer, 5),
        Err(Error::EngineCode(1603))
    );
}

#[test]
fn non_utf8_bytes_are_a_decode_error() {
    let buffer = vec![0xFF, 0xFE, 0x00];
    assert_eq!(finish_fetch(ERROR_SUCCESS, buffer, 2), Err(Error::TextDecodeFailure));
}

#[test]
fn multibyte_text_is_decoded() {
    // The decoding really interprets UTF-8: two bytes become one char.
    let text = "héllo";
    let bytes = text.as_bytes();
    let mut buffer = vec![0u8; bytes.len() + 1];
    buffer[..bytes.len()].copy_from_slice(bytes);
    let got = finish_fetch(ERROR_SUCCESS, buffer, bytes.len() as u32).unwrap();
    assert_eq!(got, "héllo");
    assert_eq!(got.chars().count(), 5);
}

#[test]
fn overlong_report_keeps_whole_buffer() {
    let buffer = b"abc".to_vec();
    let got = finish_fetch(ERROR_SUCCESS, buffer, 10).unwrap();
    assert_eq!(got, "abc");
}

#[test]
fn display_substitutes_placeholder_on_failure() {
    assert_eq!(display_text(Ok(String::from("formatted"))), "formatted");
    assert_eq!(display_text(Err(Error::EngineCode(6))), "(record)");
    assert_eq!(display_text(Err(Error::TextDecodeFailure)), "(record)");
}
