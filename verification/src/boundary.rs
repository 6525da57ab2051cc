//! Classification of raw host responses.
//!
//! Every boundary call comes back as a status code, possibly with a payload.
//! The functions here map that raw answer onto a typed outcome: the one
//! recoverable case (`NotFound`, or a success with no buffer, on a read) is
//! "value absent"; every status an operation does not document is a fatal
//! contract violation carrying the exact host code.

use crate::codec::decode_transferred;
use crate::status::{Status, STATUS_NOT_FOUND, STATUS_SUCCESS};
use crate::text::{i32_to_decimal, int_rep};
use vstd::prelude::*;
use vstd::string::StringExecFns;
use vstd::utf8::{decode_utf8, valid_utf8};

verus! {

/// A fatal disagreement between guest and host.  After one of these the
/// memory-ownership invariants of the boundary can no longer be trusted, so
/// the invocation must abort rather than continue.
#[derive(Clone, Copy, PartialEq, Eq, Structural, Debug)]
pub enum BridgeError {
    /// The host answered with a status the operation does not document.
    /// The exact code is preserved so it can be reported.
    UnexpectedStatus(i32),
    /// The host sent bytes that are not valid text in the agreed encoding.
    MalformedText,
}

impl BridgeError {
    /// The diagnostic text for this failure.
    pub open spec fn spec_describe(self) -> Seq<char> {
        match self {
            BridgeError::UnexpectedStatus(c) => "unexpected status: "@ + int_rep(c as int),
            BridgeError::MalformedText => "malformed text from host"@,
        }
    }

    /// Diagnostic text identifying the failure, reproducing the host's exact
    /// status code.
    pub fn describe(&self) -> (r: String)
        ensures
            r@ == self.spec_describe(),
    {
        match self {
            BridgeError::UnexpectedStatus(c) => {
                let mut s = String::from_str("unexpected status: ");
                let digits = i32_to_decimal(*c);
                s.append(digits.as_str());
                s
            },
            BridgeError::MalformedText => String::from_str("malformed text from host"),
        }
    }
}

/// Classify the host's answer to a read-field call, taking ownership of any
/// buffer it produced.  `NotFound`, or success with no buffer, is the normal
/// "absent" branch, never an error; success with a buffer yields the decoded
/// owned value; anything else is fatal.
pub fn read_response(code: i32, buffer: Option<Vec<u8>>) -> (r: Result<
    Option<String>,
    BridgeError,
>)
    ensures
        code == STATUS_NOT_FOUND ==> (r matches Ok(v) && v is None),
        code == STATUS_SUCCESS && buffer is None ==> (r matches Ok(v) && v is None),
        code == STATUS_SUCCESS ==> (buffer matches Some(b) ==> {
            &&& valid_utf8(b@) ==> (r matches Ok(v) && v matches Some(s) && s@ == decode_utf8(
                b@,
            ))
            &&& !valid_utf8(b@) ==> r == Result::<Option<String>, BridgeError>::Err(
                BridgeError::MalformedText,
            )
        }),
        code != STATUS_SUCCESS && code != STATUS_NOT_FOUND ==> r == Result::<
            Option<String>,
            BridgeError,
        >::Err(BridgeError::UnexpectedStatus(code)),
{
    match Status::classify(code) {
        Status::NotFound => Ok(None),
        Status::Success => match decode_transferred(buffer) {
            Ok(v) => Ok(v),
            Err(_) => Err(BridgeError::MalformedText),
        },
        Status::Other(c) => Err(BridgeError::UnexpectedStatus(c)),
    }
}

/// Classify the host's answer to a write-field call.  Only success is
/// documented; every other status — `NotFound` included — is fatal.
pub fn write_response(code: i32) -> (r: Result<(), BridgeError>)
    ensures
        r is Ok <==> code == STATUS_SUCCESS,
        code != STATUS_SUCCESS ==> r == Result::<(), BridgeError>::Err(
            BridgeError::UnexpectedStatus(code),
        ),
{
    if code == STATUS_SUCCESS {
        Ok(())
    } else {
        Err(BridgeError::UnexpectedStatus(code))
    }
}

/// Classify the host's answer to a log call.  Only success is documented.
pub fn log_response(code: i32) -> (r: Result<(), BridgeError>)
    ensures
        r is Ok <==> code == STATUS_SUCCESS,
        code != STATUS_SUCCESS ==> r == Result::<(), BridgeError>::Err(
            BridgeError::UnexpectedStatus(code),
        ),
{
    if code == STATUS_SUCCESS {
        Ok(())
    } else {
        Err(BridgeError::UnexpectedStatus(code))
    }
}

/// Classify the host's answer to a read-clock call.  On success the payload
/// is the nanosecond count; any other status is fatal.
pub fn clock_response(code: i32, nanos: u64) -> (r: Result<u64, BridgeError>)
    ensures
        code == STATUS_SUCCESS ==> (r matches Ok(t) && t == nanos),
        code != STATUS_SUCCESS ==> r == Result::<u64, BridgeError>::Err(
            BridgeError::UnexpectedStatus(code),
        ),
{
    if code == STATUS_SUCCESS {
        Ok(nanos)
    } else {
        Err(BridgeError::UnexpectedStatus(code))
    }
}

} // verus!
