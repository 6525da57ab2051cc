//! The status vocabulary: the closed set of outcome codes a boundary call
//! returns, and the severity levels attached to diagnostic messages.

use vstd::prelude::*;

verus! {

/// Code the host sends for a call that succeeded.
pub const STATUS_SUCCESS: i32 = 0;

/// Code the host sends when a requested field is not present.
pub const STATUS_NOT_FOUND: i32 = 1;

/// Outcome of a single boundary call.
///
/// `Success` and `NotFound` are the two codes the protocol documents; any
/// other integer the host might send is preserved losslessly in `Other`, so a
/// caller can log or branch on the exact code rather than a collapsed error.
#[derive(Clone, Copy, PartialEq, Eq, Structural, Debug)]
pub enum Status {
    Success,
    NotFound,
    Other(i32),
}

impl Status {
    /// A well-formed status never hides a documented code inside `Other`.
    pub open spec fn wf(self) -> bool {
        match self {
            Status::Other(c) => c != STATUS_SUCCESS && c != STATUS_NOT_FOUND,
            _ => true,
        }
    }

    /// The integer this status stands for on the wire.
    pub open spec fn spec_code(self) -> i32 {
        match self {
            Status::Success => STATUS_SUCCESS,
            Status::NotFound => STATUS_NOT_FOUND,
            Status::Other(c) => c,
        }
    }

    /// The status a wire code classifies as.
    pub open spec fn spec_classify(code: i32) -> Status {
        if code == STATUS_SUCCESS {
            Status::Success
        } else if code == STATUS_NOT_FOUND {
            Status::NotFound
        } else {
            Status::Other(code)
        }
    }

    /// Turn this status back into its wire code.
    pub fn code(self) -> (r: i32)
        ensures
            r == self.spec_code(),
    {
        match self {
            Status::Success => STATUS_SUCCESS,
            Status::NotFound => STATUS_NOT_FOUND,
            Status::Other(c) => c,
        }
    }

    /// Classify a wire code; unrecognized codes are kept verbatim.
    pub fn classify(code: i32) -> (r: Status)
        ensures
            r == Status::spec_classify(code),
            r.wf(),
    {
        if code == STATUS_SUCCESS {
            Status::Success
        } else if code == STATUS_NOT_FOUND {
            Status::NotFound
        } else {
            Status::Other(code)
        }
    }
}

/// Every wire code survives classification unchanged: reading a code into the
/// vocabulary and writing it back yields the same integer.
pub proof fn lemma_code_preserved(code: i32)
    ensures
        Status::spec_classify(code).spec_code() == code,
{
}

/// Every well-formed status survives the trip onto the wire and back.
pub proof fn lemma_status_preserved(s: Status)
    requires
        s.wf(),
    ensures
        Status::spec_classify(s.spec_code()) == s,
{
}

/// Severity attached to a diagnostic message sent to the host.
#[derive(Clone, Copy, PartialEq, Eq, Structural, Debug)]
pub enum LogLevel {
    Trace,
    Debug,
    Info,
    Warn,
    Error,
}

impl LogLevel {
    /// The integer severity code sent on the wire.
    pub open spec fn spec_code(self) -> i32 {
        match self {
            LogLevel::Trace => 0,
            LogLevel::Debug => 1,
            LogLevel::Info => 2,
            LogLevel::Warn => 3,
            LogLevel::Error => 4,
        }
    }

    /// Turn this severity into its wire code.
    pub fn code(self) -> (r: i32)
        ensures
            r == self.spec_code(),
    {
        match self {
            LogLevel::Trace => 0,
            LogLevel::Debug => 1,
            LogLevel::Info => 2,
            LogLevel::Warn => 3,
            LogLevel::Error => 4,
        }
    }
}

} // verus!
