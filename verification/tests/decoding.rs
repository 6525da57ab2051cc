use hostbridge::entry::decode_value;
use hostbridge::hex::hex_decode;
use hostbridge::msgpack::msgpack_to_json;
use hostbridge::text::quote_text;

#[test]
fn hex_decodes_pairs_of_digits() {
    assert_eq!(hex_decode(""), Some(vec![]));
    assert_eq!(hex_decode("00"), Some(vec![0x00]));
    assert_eq!(hex_decode("a568656c6c6f"), Some(vec![0xa5, 0x68, 0x65, 0x6c, 0x6c, 0x6f]));
    assert_eq!(hex_decode("A5FF"), Some(vec![0xa5, 0xff]));
}

#[test]
fn hex_rejects_bad_input() {
    assert_eq!(hex_decode("a"), None);
    assert_eq!(hex_decode("zz"), None);
    assert_eq!(hex_decode("a5g6"), None);
    assert_eq!(hex_decode("\"a5\""), None);
}

#[test]
fn msgpack_nil_and_booleans() {
    assert_eq!(msgpack_to_json(&vec![0xc0]), Some("null".to_string()));
    assert_eq!(msgpack_to_json(&vec![0xc2]), Some("false".to_string()));
    assert_eq!(msgpack_to_json(&vec![0xc3]), Some("true".to_string()));
}

#[test]
fn msgpack_small_integers() {
    assert_eq!(msgpack_to_json(&vec![0x00]), Some("0".to_string()));
    assert_eq!(msgpack_to_json(&vec![0x07]), Some("7".to_string()));
    assert_eq!(msgpack_to_json(&vec![0x7f]), Some("127".to_string()));
    assert_eq!(msgpack_to_json(&vec![0xff]), Some("-1".to_string()));
    assert_eq!(msgpack_to_json(&vec![0xe0]), Some("-32".to_string()));
}

#[test]
fn msgpack_sized_unsigned_integers() {
    assert_eq!(msgpack_to_json(&vec![0xcc, 0xff]), Some("255".to_string()));
    assert_eq!(msgpack_to_json(&vec![0xcd, 0x01, 0x00]), Some("256".to_string()));
    assert_eq!(msgpack_to_json(&vec![0xce, 0x00, 0x01, 0x00, 0x00]), Some("65536".to_string()));
    assert_eq!(
        msgpack_to_json(&vec![0xcf, 0xff, 0xff, 0xff, 0xff, 0xff, 0xff, 0xff, 0xff]),
        Some("18446744073709551615".to_string())
    );
}

#[test]
fn msgpack_sized_signed_integers() {
    assert_eq!(msgpack_to_json(&vec![0xd0, 0x7f]), Some("127".to_string()));
    assert_eq!(msgpack_to_json(&vec![0xd0, 0x80]), Some("-128".to_string()));
    assert_eq!(msgpack_to_json(&vec![0xd1, 0xff, 0xff]), Some("-1".to_string()));
    assert_eq!(
        msgpack_to_json(&vec![0xd2, 0x80, 0x00, 0x00, 0x00]),
        Some("-2147483648".to_string())
    );
    assert_eq!(
        msgpack_to_json(&vec![0xd3, 0xff, 0xff, 0xff, 0xff, 0xff, 0xff, 0xff, 0xff]),
        Some("-1".to_string())
    );
    assert_eq!(
        msgpack_to_json(&vec![0xd3, 0x80, 0x00, 0x00, 0x00, 0x00, 0x00, 0x00, 0x00]),
        Some("-9223372036854775808".to_string())
    );
}

#[test]
fn msgpack_strings() {
    assert_eq!(
        msgpack_to_json(&vec![0xa5, 0x68, 0x65, 0x6c, 0x6c, 0x6f]),
        Some("\"hello\"".to_string())
    );
    assert_eq!(msgpack_to_json(&vec![0xa0]), Some("\"\"".to_string()));
    assert_eq!(
        msgpack_to_json(&vec![0xd9, 0x05, 0x68, 0x65, 0x6c, 0x6c, 0x6f]),
        Some("\"hello\"".to_string())
    );
}

#[test]
fn quoting_wraps_plain_text() {
    assert_eq!(quote_text("hi"), "\"hi\"");
    assert_eq!(quote_text(""), "\"\"");
    assert_eq!(quote_text("2000-02-29T00:00:00.000000000+00:00"),
        "\"2000-02-29T00:00:00.000000000+00:00\"");
}

#[test]
fn decode_value_runs_the_whole_pipeline() {
    assert_eq!(decode_value("\"a568656c6c6f\""), Some("\"hello\"".to_string()));
    assert_eq!(decode_value("\"c3\""), Some("true".to_string()));
    assert_eq!(decode_value("plain"), None);
    assert_eq!(decode_value("\"zz\""), None);
    assert_eq!(decode_value("\"a5\""), None);
    assert_eq!(decode_value(""), None);
}

#[test]
fn msgpack_rejects_what_the_subset_leaves_out() {
    assert_eq!(msgpack_to_json(&vec![]), None);
    assert_eq!(msgpack_to_json(&vec![0xc0, 0x00]), None);
    assert_eq!(msgpack_to_json(&vec![0xcc]), None);
    assert_eq!(msgpack_to_json(&vec![0x90]), None);
    assert_eq!(msgpack_to_json(&vec![0x81, 0xa1, 0x61, 0x01]), None);
    assert_eq!(msgpack_to_json(&vec![0xca, 0x3f, 0x80, 0x00, 0x00]), None);
    assert_eq!(msgpack_to_json(&vec![0xa1, 0x22]), None);
    assert_eq!(msgpack_to_json(&vec![0xa1, 0xff]), None);
}
