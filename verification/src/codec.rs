//! The ownership-transfer codec.
//!
//! Field values cross the boundary as UTF-8 bytes.  Outbound, a guest-owned
//! text value is encoded into bytes the call may borrow; inbound, a
//! host-allocated buffer is consumed — moved into guest ownership exactly once
//! — and decoded back into owned text.  The byte sequences are related to
//! character sequences by `vstd`'s UTF-8 model (`encode_utf8`, `decode_utf8`,
//! `valid_utf8`).

use vstd::prelude::*;
use vstd::string::StrSliceExecFns;
use vstd::utf8::{decode_utf8, encode_utf8, valid_utf8};

verus! {

/// Relies on `String::from_utf8`: it returns `Ok` exactly when the bytes are
/// valid UTF-8, the returned string is their decoding (so its bytes are the
/// input unchanged), and on failure `FromUtf8Error::into_bytes` hands the
/// input bytes back.
#[verifier::external_body]
fn string_from_utf8(bytes: Vec<u8>) -> (r: Result<String, Vec<u8>>)
    ensures
        r is Ok <==> valid_utf8(bytes@),
        r matches Ok(s) ==> s@ == decode_utf8(bytes@) && encode_utf8(s@) == bytes@,
        r matches Err(b) ==> b@ == bytes@,
{
    match String::from_utf8(bytes) {
        Ok(s) => Ok(s),
        Err(e) => Err(e.into_bytes()),
    }
}

/// Encode a guest-owned text value for an outbound call: its UTF-8 bytes.
/// Encoding cannot fail; the guest keeps ownership of the original.
pub fn encode_text(value: &str) -> (r: Vec<u8>)
    ensures
        r@ == encode_utf8(value@),
{
    value.as_bytes_vec()
}

/// Decode an inbound byte buffer into an owned text value, consuming it.
/// Bytes that are not valid text are handed back for diagnosis, never
/// silently accepted.
pub fn decode_text(bytes: Vec<u8>) -> (r: Result<String, Vec<u8>>)
    ensures
        r is Ok <==> valid_utf8(bytes@),
        r matches Ok(s) ==> s@ == decode_utf8(bytes@),
        r matches Err(b) ==> b@ == bytes@,
{
    string_from_utf8(bytes)
}

/// Decode the buffer a read call handed back, if any, consuming it: ownership
/// moves to the guest exactly once, and the buffer cannot be referenced
/// again.  A missing buffer means "no value was produced": nothing is
/// consumed and nothing is released.  Bytes that are not valid text are a
/// protocol violation by the host; they are handed back for diagnosis, never
/// silently accepted.
pub fn decode_transferred(buffer: Option<Vec<u8>>) -> (r: Result<Option<String>, Vec<u8>>)
    ensures
        buffer is None ==> (r matches Ok(v) && v is None),
        buffer matches Some(b) ==> {
            &&& valid_utf8(b@) ==> (r matches Ok(v) && v matches Some(s) && s@ == decode_utf8(
                b@,
            ))
            &&& !valid_utf8(b@) ==> (r matches Err(e) && e@ == b@)
        },
{
    match buffer {
        None => Ok(None),
        Some(b) => match string_from_utf8(b) {
            Ok(s) => Ok(Some(s)),
            Err(e) => Err(e),
        },
    }
}

/// Round trip: every text value survives the agreed encoding.  Its encoding
/// is valid, and decoding the encoding yields the value back unchanged.
pub proof fn lemma_text_round_trip(chars: Seq<char>)
    ensures
        valid_utf8(encode_utf8(chars)),
        decode_utf8(encode_utf8(chars)) == chars,
{
    broadcast use vstd::utf8::encode_utf8_valid_utf8, vstd::utf8::encode_utf8_decode_utf8;

}

} // verus!
