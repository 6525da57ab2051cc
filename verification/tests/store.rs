use hostbridge::boundary::BridgeError;
use hostbridge::record::RecordStore;
use hostbridge::status::LogLevel;

#[test]
fn fresh_store_reads_absent() {
    let store = RecordStore::new();
    assert_eq!(store.read_field("anything"), Ok(None));
}

#[test]
fn write_then_read_returns_the_value_unchanged() {
    let mut store = RecordStore::new();
    assert_eq!(store.write_field("key", "value"), Ok(()));
    assert_eq!(store.read_field("key"), Ok(Some("value".to_string())));
}

#[test]
fn newest_write_wins() {
    let mut store = RecordStore::new();
    store.write_field("key", "first").unwrap();
    store.write_field("key", "second").unwrap();
    assert_eq!(store.read_field("key"), Ok(Some("second".to_string())));
}

#[test]
fn writes_leave_other_fields_untouched() {
    let mut store = RecordStore::new();
    store.write_field("a", "1").unwrap();
    store.write_field("b", "2").unwrap();
    assert_eq!(store.read_field("a"), Ok(Some("1".to_string())));
    assert_eq!(store.read_field("b"), Ok(Some("2".to_string())));
    assert_eq!(store.read_field("c"), Ok(None));
}

#[test]
fn raw_read_hands_out_encoded_bytes() {
    let mut store = RecordStore::new();
    store.write_field("key", "h\u{e9}llo").unwrap();
    let (code, buffer) = store.raw_read("key");
    assert_eq!(code, 0);
    assert_eq!(buffer, Some("h\u{e9}llo".as_bytes().to_vec()));
    let (code, buffer) = store.raw_read("missing");
    assert_eq!(code, 1);
    assert_eq!(buffer, None);
}

#[test]
fn clock_readings_never_decrease() {
    let mut store = RecordStore::new();
    let first = store.read_clock().unwrap();
    let second = store.read_clock().unwrap();
    assert!(second >= first);
    store.set_clock(5_000_000_000);
    let third = store.read_clock().unwrap();
    assert!(third >= second);
    let fourth = store.read_clock().unwrap();
    assert!(fourth >= third);
    assert_eq!(fourth, 5_000_000_000);
}

#[test]
fn logging_succeeds_and_never_touches_the_record() {
    let mut store = RecordStore::new();
    store.write_field("key", "value").unwrap();
    assert_eq!(store.log_event(LogLevel::Info, "a diagnostic"), Ok(()));
    assert_eq!(store.log_event(LogLevel::Error, "another"), Ok(()));
    assert_eq!(store.read_field("key"), Ok(Some("value".to_string())));
    assert_eq!(
        store.log_lines(),
        &vec![(2, "a diagnostic".to_string()), (4, "another".to_string())]
    );
}

#[test]
fn injected_write_fault_surfaces_the_exact_code() {
    let mut store = RecordStore::new();
    store.inject_write_fault(42);
    assert_eq!(store.write_field("key", "value"), Err(BridgeError::UnexpectedStatus(42)));
    assert_eq!(store.read_field("key"), Ok(None));
}
