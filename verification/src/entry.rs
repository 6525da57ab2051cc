//! Invocation entry points.
//!
//! The host creates exactly one invocation per record; an entry point runs a
//! transformation by composing boundary call surface operations and always
//! terminates with an outcome.  A fatal contract violation aborts the whole
//! invocation at once: no further boundary call is attempted, and the outcome
//! is never success.  Here the entry points run against the in-memory
//! [`crate::record::RecordStore`] binding of the call surface, which is how
//! their behaviour is proved; the production binding wires the same sequence
//! of operations to the real boundary.

use crate::boundary::BridgeError;
use crate::hex::{hex_decode, hex_decode_rep};
use crate::msgpack::{msgpack_json_rep, msgpack_to_json};
use crate::record::RecordStore;
use crate::status::LogLevel;
use crate::text::quote_text;
use crate::time::{format_timestamp, timestamp_rep};
use vstd::prelude::*;
use vstd::string::StrSliceExecFns;

verus! {

/// Copy the record's original text into its message field, stamping the time
/// of processing: reads `event.original`; when present, logs the value it
/// read, then writes `event.created` (the clock as ISO-8601 text, wrapped as
/// the agreed encoding of a string value) and `message` (the value
/// unchanged).  An absent original is the normal branch and writes nothing.
pub fn run_copy(host: &mut RecordStore) -> (r: Result<(), BridgeError>)
    requires
        old(host).wf(),
    ensures
        final(host).wf(),
        final(host).clock() == old(host).clock(),
        final(host).write_fault() == old(host).write_fault(),
        !old(host).record().contains_key("event.original"@) ==> (r is Ok && final(host).record()
            == old(host).record() && final(host).logged() == old(host).logged()),
        old(host).record().contains_key("event.original"@) ==> final(host).logged() == old(host)
            .logged().push((LogLevel::Info.spec_code(), old(host).record()["event.original"@])),
        old(host).record().contains_key("event.original"@) && old(host).write_fault() is None
            ==> (r is Ok && final(host).record() == old(host).record().insert(
            "event.created"@,
            "\""@ + timestamp_rep(old(host).clock() as int) + "\""@,
        ).insert("message"@, old(host).record()["event.original"@])),
        old(host).record().contains_key("event.original"@) ==> (old(host).write_fault() matches
            Some(c) ==> (r == Result::<(), BridgeError>::Err(BridgeError::UnexpectedStatus(c))
            && final(host).record() == old(host).record())),
{
    let original = host.read_field("event.original");
    match original {
        Ok(None) => Ok(()),
        Ok(Some(value)) => {
            match host.log_event(LogLevel::Info, value.as_str()) {
                Ok(u) => u,
                Err(e) => {
                    return Err(e);
                },
            };
            let t = match host.read_clock() {
                Ok(t) => t,
                Err(e) => {
                    return Err(e);
                },
            };
            let stamp = format_timestamp(t);
            let quoted = quote_text(stamp.as_str());
            match host.write_field("event.created", quoted.as_str()) {
                Ok(u) => u,
                Err(e) => {
                    return Err(e);
                },
            };
            match host.write_field("message", value.as_str()) {
                Ok(u) => u,
                Err(e) => {
                    return Err(e);
                },
            };
            Ok(())
        },
        Err(e) => Err(e),
    }
}

/// Inject a fixed set of typed constant fields into the record, each as its
/// agreed textual encoding.  The first undocumented status aborts the
/// invocation: nothing further is attempted and the record is reported
/// exactly as the host left it.
pub fn run_inject(host: &mut RecordStore) -> (r: Result<(), BridgeError>)
    requires
        old(host).wf(),
    ensures
        final(host).wf(),
        final(host).clock() == old(host).clock(),
        final(host).logged() == old(host).logged(),
        final(host).write_fault() == old(host).write_fault(),
        old(host).write_fault() is None ==> (r is Ok && final(host).record() == old(
            host,
        ).record().insert("string"@, "\"hello\""@).insert("integer"@, "1"@).insert(
            "float"@,
            "1.2"@,
        ).insert("bool"@, "true"@).insert("object"@, "{\"hello\":\"world!\"}"@).insert(
            "null"@,
            "null"@,
        )),
        old(host).write_fault() matches Some(c) ==> (r == Result::<(), BridgeError>::Err(
            BridgeError::UnexpectedStatus(c),
        ) && final(host).record() == old(host).record()),
{
    match host.write_field("string", "\"hello\"") {
        Ok(u) => u,
        Err(e) => {
            return Err(e);
        },
    };
    match host.write_field("integer", "1") {
        Ok(u) => u,
        Err(e) => {
            return Err(e);
        },
    };
    match host.write_field("float", "1.2") {
        Ok(u) => u,
        Err(e) => {
            return Err(e);
        },
    };
    match host.write_field("bool", "true") {
        Ok(u) => u,
        Err(e) => {
            return Err(e);
        },
    };
    match host.write_field("object", "{\"hello\":\"world!\"}") {
        Ok(u) => u,
        Err(e) => {
            return Err(e);
        },
    };
    match host.write_field("null", "null") {
        Ok(u) => u,
        Err(e) => {
            return Err(e);
        },
    };
    Ok(())
}

/// The replacement text the decode transformation produces from a field's
/// current value: the value must be a quoted run of hexadecimal digits whose
/// bytes form one MsgPack item of the supported subset; the replacement is
/// that item's own textual encoding.
pub open spec fn decoded_field(value: Seq<char>) -> Option<Seq<char>> {
    if value.len() >= 2 && value[0] == '"' && value[value.len() - 1] == '"' {
        match hex_decode_rep(value.subrange(1, value.len() - 1)) {
            Some(bytes) => msgpack_json_rep(bytes),
            None => None,
        }
    } else {
        None
    }
}

/// Run a field value through the decode pipeline alone: the value must be
/// the quoted run of hexadecimal digits whose bytes form one MsgPack item of
/// the supported subset, and the result is that item's own textual encoding.
/// This is [`decoded_field`] made executable; both bindings of the call
/// surface use it.
pub fn decode_value(value: &str) -> (r: Option<String>)
    ensures
        r matches Some(j) ==> decoded_field(value@) == Some(j@),
        r is None <==> decoded_field(value@) is None,
{
    let n = value.unicode_len();
    if n < 2 {
        return None;
    }
    let c0 = value.get_char(0);
    let c1 = value.get_char(n - 1);
    if c0 != '"' || c1 != '"' {
        return None;
    }
    let middle = value.substring_char(1, n - 1);
    let bytes = match hex_decode(middle) {
        Some(b) => b,
        None => {
            return None;
        },
    };
    msgpack_to_json(&bytes)
}

/// Replace a hex-and-MsgPack wrapped field by the value it wraps: reads
/// `name`; when present, logs the value it read; when the value decodes
/// under [`decoded_field`], logs the decoded text too, writes it back under
/// the same name and reports `true`.  An absent field, or a value outside
/// the decodable subset, is the normal `false` branch and leaves the record
/// untouched; other fields are never written.
pub fn run_decode(host: &mut RecordStore, name: &str) -> (r: Result<bool, BridgeError>)
    requires
        old(host).wf(),
    ensures
        final(host).wf(),
        final(host).clock() == old(host).clock(),
        final(host).write_fault() == old(host).write_fault(),
        !old(host).record().contains_key(name@) ==> (r matches Ok(f) && f == false
            && final(host).record() == old(host).record() && final(host).logged() == old(host)
            .logged()),
        old(host).record().contains_key(name@) ==> ({
            let current = old(host).record()[name@];
            let outcome = decoded_field(current);
            let noted = old(host).logged().push((LogLevel::Debug.spec_code(), current));
            &&& outcome is None ==> (r matches Ok(f) && f == false
                && final(host).record() == old(host).record() && final(host).logged() == noted)
            &&& outcome matches Some(j) ==> {
                &&& final(host).logged() == noted.push((LogLevel::Debug.spec_code(), j))
                &&& old(host).write_fault() is None ==> (r matches Ok(f) && f == true
                    && final(host).record() == old(host).record().insert(name@, j))
                &&& old(host).write_fault() matches Some(c) ==> (r == Result::<bool,
                    BridgeError>::Err(BridgeError::UnexpectedStatus(c))
                    && final(host).record() == old(host).record())
            }
        }),
{
    let current = host.read_field(name);
    match current {
        Ok(None) => Ok(false),
        Ok(Some(v)) => {
            match host.log_event(LogLevel::Debug, v.as_str()) {
                Ok(u) => u,
                Err(e) => {
                    return Err(e);
                },
            };
            match decode_value(v.as_str()) {
                None => Ok(false),
                Some(json) => {
                    match host.log_event(LogLevel::Debug, json.as_str()) {
                        Ok(u) => u,
                        Err(e) => {
                            return Err(e);
                        },
                    };
                    match host.write_field(name, json.as_str()) {
                        Ok(_) => Ok(true),
                        Err(e) => Err(e),
                    }
                },
            }
        },
        Err(e) => Err(e),
    }
}

} // verus!
