use hostbridge::boundary::{
    clock_response, log_response, read_response, write_response, BridgeError,
};
use hostbridge::codec::{decode_text, decode_transferred, encode_text};
use hostbridge::status::{LogLevel, Status};

#[test]
fn status_codes_are_preserved() {
    assert_eq!(Status::classify(0), Status::Success);
    assert_eq!(Status::classify(1), Status::NotFound);
    assert_eq!(Status::classify(7), Status::Other(7));
    assert_eq!(Status::classify(-3), Status::Other(-3));
    assert_eq!(Status::classify(0).code(), 0);
    assert_eq!(Status::classify(1).code(), 1);
    assert_eq!(Status::classify(7).code(), 7);
    assert_eq!(Status::classify(-3).code(), -3);
}

#[test]
fn log_level_codes() {
    assert_eq!(LogLevel::Trace.code(), 0);
    assert_eq!(LogLevel::Debug.code(), 1);
    assert_eq!(LogLevel::Info.code(), 2);
    assert_eq!(LogLevel::Warn.code(), 3);
    assert_eq!(LogLevel::Error.code(), 4);
}

#[test]
fn encode_decode_round_trips() {
    for value in ["", "hi", "hello world", "h\u{e9}llo \u{2603}", "{\"a\":[1,2,null]}"] {
        let bytes = encode_text(value);
        assert_eq!(decode_text(bytes), Ok(value.to_string()));
    }
}

#[test]
fn decode_rejects_invalid_text() {
    let bytes = vec![0xff, 0xfe, 0x00];
    assert_eq!(decode_text(bytes.clone()), Err(bytes));
}

#[test]
fn transferred_buffer_present_and_absent() {
    assert_eq!(decode_transferred(None), Ok(None));
    let bytes = encode_text("value");
    assert_eq!(decode_transferred(Some(bytes)), Ok(Some("value".to_string())));
}

#[test]
fn read_not_found_is_absent_not_fatal() {
    assert_eq!(read_response(1, None), Ok(None));
}

#[test]
fn read_success_with_buffer_transfers_it() {
    let bytes = encode_text("x");
    assert_eq!(read_response(0, Some(bytes)), Ok(Some("x".to_string())));
}

#[test]
fn read_success_without_buffer_is_absent() {
    assert_eq!(read_response(0, None), Ok(None));
}

#[test]
fn read_undocumented_status_is_fatal() {
    assert_eq!(read_response(9, None), Err(BridgeError::UnexpectedStatus(9)));
    assert_eq!(read_response(-1, None), Err(BridgeError::UnexpectedStatus(-1)));
}

#[test]
fn read_malformed_buffer_is_fatal() {
    assert_eq!(read_response(0, Some(vec![0xff])), Err(BridgeError::MalformedText));
}

#[test]
fn write_succeeds_only_on_success() {
    assert_eq!(write_response(0), Ok(()));
    assert_eq!(write_response(1), Err(BridgeError::UnexpectedStatus(1)));
    assert_eq!(write_response(5), Err(BridgeError::UnexpectedStatus(5)));
}

#[test]
fn log_succeeds_only_on_success() {
    assert_eq!(log_response(0), Ok(()));
    assert_eq!(log_response(2), Err(BridgeError::UnexpectedStatus(2)));
}

#[test]
fn clock_succeeds_only_on_success() {
    assert_eq!(clock_response(0, 123456789), Ok(123456789));
    assert_eq!(clock_response(3, 123456789), Err(BridgeError::UnexpectedStatus(3)));
}

#[test]
fn diagnostics_reproduce_the_exact_code() {
    assert_eq!(BridgeError::UnexpectedStatus(42).describe(), "unexpected status: 42");
    assert_eq!(BridgeError::UnexpectedStatus(-7).describe(), "unexpected status: -7");
    assert_eq!(
        BridgeError::UnexpectedStatus(i32::MIN).describe(),
        "unexpected status: -2147483648"
    );
    assert_eq!(BridgeError::MalformedText.describe(), "malformed text from host");
}
