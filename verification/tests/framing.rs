use usb_session::errors::ProtocolError;
use usb_session::framing::_check_for_valid_response;
use usb_session::framing::_extract_response_from_raw_output;
use usb_session::protocol::RESPONSE_BUFFER_LEN;

fn padded_frame(payload: &[u8]) -> Vec<u8> {
    assert!(payload.len() < RESPONSE_BUFFER_LEN);
    let mut frame = payload.to_vec();
    frame.resize(RESPONSE_BUFFER_LEN, 0);
    frame
}

#[test]
fn decodes_text_before_first_zero_of_padded_frame() {
    let frame = padded_frame(b"OK\0");
    assert_eq!(
        _extract_response_from_raw_output(&frame),
        Ok(String::from("OK"))
    );
}

#[test]
fn decodes_only_up_to_first_zero() {
    let frame = padded_frame(b"AB\0CD\0");
    assert_eq!(
        _extract_response_from_raw_output(&frame),
        Ok(String::from("AB"))
    );
}

#[test]
fn decodes_empty_text_when_terminator_is_first() {
    let frame = vec![0u8; RESPONSE_BUFFER_LEN];
    assert_eq!(_extract_response_from_raw_output(&frame), Ok(String::new()));
}

#[test]
fn decodes_multibyte_text() {
    // 0xC3 0xA9 is the two-byte encoding of a single character; decoding is
    // not a byte-for-byte copy.
    let frame = padded_frame(&[0xC3, 0xA9, 0]);
    let text = _extract_response_from_raw_output(&frame).unwrap();
    assert_eq!(text, "\u{e9}");
    assert_eq!(text.chars().count(), 1);
}

#[test]
fn unterminated_buffer_is_malformed() {
    let frame = vec![b'A'; RESPONSE_BUFFER_LEN];
    assert_eq!(
        _extract_response_from_raw_output(&frame),
        Err(ProtocolError::MalformedResponse)
    );
}

#[test]
fn short_buffer_without_zero_is_malformed() {
    let buf = vec![1u8, 2, 3];
    assert_eq!(
        _extract_response_from_raw_output(&buf),
        Err(ProtocolError::MalformedResponse)
    );
}

#[test]
fn terminator_past_the_buffer_size_does_not_count() {
    // 64 non-zero bytes, then a zero: the zero lies outside the scanned
    // window, so the response is malformed.
    let mut buf = vec![b'A'; RESPONSE_BUFFER_LEN];
    buf.push(0);
    assert_eq!(
        _extract_response_from_raw_output(&buf),
        Err(ProtocolError::MalformedResponse)
    );
}

#[test]
fn terminator_at_last_scanned_index_counts() {
    let mut buf = vec![b'A'; RESPONSE_BUFFER_LEN - 1];
    buf.push(0);
    assert_eq!(
        _extract_response_from_raw_output(&buf),
        Ok("A".repeat(RESPONSE_BUFFER_LEN - 1))
    );
}

#[test]
fn invalid_text_before_terminator_is_malformed() {
    // 0xFF can begin no UTF-8 sequence.
    let frame = padded_frame(&[0xFF, b'A', 0]);
    assert_eq!(
        _extract_response_from_raw_output(&frame),
        Err(ProtocolError::MalformedResponse)
    );
}

#[test]
fn leading_question_mark_classifies_as_device_reported_error() {
    let frame = padded_frame(b"?ERR\0");
    let text = _extract_response_from_raw_output(&frame).unwrap();
    assert_eq!(text, "?ERR");
    assert_eq!(
        _check_for_valid_response(&text, "diagnostic"),
        Err(ProtocolError::DeviceReportedError)
    );
}

#[test]
fn ordinary_response_classifies_as_valid() {
    let frame = padded_frame(b"OK\0");
    let text = _extract_response_from_raw_output(&frame).unwrap();
    assert_eq!(_check_for_valid_response(&text, "diagnostic"), Ok(()));
}

#[test]
fn empty_response_classifies_as_valid() {
    assert_eq!(_check_for_valid_response(&String::new(), "diagnostic"), Ok(()));
}

#[test]
fn question_mark_after_first_character_classifies_as_valid() {
    assert_eq!(
        _check_for_valid_response(&String::from("A?"), "diagnostic"),
        Ok(())
    );
}
