//! An in-memory record store that stands in for the host.
//!
//! The boundary call surface is defined against the host's raw answers; in
//! production those come from the real calling convention, outside this
//! crate.  `RecordStore` binds the same surface to a plain map held in guest
//! memory, so invocation logic can be exercised — and its behaviour proved —
//! without any boundary at all.  The store can also be told to answer a
//! write-field call with an arbitrary status, standing in for a host that
//! breaks the protocol.

use crate::boundary::{clock_response, log_response, read_response, write_response, BridgeError};
use crate::status::{LogLevel, STATUS_NOT_FOUND, STATUS_SUCCESS};
use vstd::prelude::*;
use vstd::string::{StrSliceExecFns, StringExecFns};
use vstd::utf8::encode_utf8;

verus! {

/// The value stored under `key`, searching the newest entry first.
pub open spec fn lookup(entries: Seq<(String, String)>, key: Seq<char>) -> Option<Seq<char>>
    decreases entries.len(),
{
    if entries.len() == 0 {
        None
    } else if entries.last().0@ == key {
        Some(entries.last().1@)
    } else {
        lookup(entries.drop_last(), key)
    }
}

/// The record a sequence of writes describes: newest write to a key wins.
pub open spec fn record_of(entries: Seq<(String, String)>) -> Map<Seq<char>, Seq<char>> {
    Map::new(
        |k: Seq<char>| lookup(entries, k) is Some,
        |k: Seq<char>| lookup(entries, k)->Some_0,
    )
}

/// The record under processing, held in guest memory, together with a clock
/// and the diagnostics it has been sent.
pub struct RecordStore {
    entries: Vec<(String, String)>,
    clock_nanos: u64,
    fault_on_write: Option<i32>,
    log_entries: Vec<(i32, String)>,
}

impl RecordStore {
    /// The fields of the record, as a map from key to value text.
    pub closed spec fn record(self) -> Map<Seq<char>, Seq<char>> {
        record_of(self.entries@)
    }

    /// The store's clock, in nanoseconds since the epoch.
    pub closed spec fn clock(self) -> u64 {
        self.clock_nanos
    }

    /// The status every write-field call is answered with, when a fault has
    /// been injected.
    pub closed spec fn write_fault(self) -> Option<i32> {
        self.fault_on_write
    }

    /// The diagnostics recorded so far, as (severity, message) pairs.
    pub closed spec fn logged(self) -> Seq<(i32, Seq<char>)> {
        self.log_entries@.map_values(|e: (i32, String)| (e.0, e.1@))
    }

    /// An injected fault never masquerades as success.
    pub closed spec fn wf(self) -> bool {
        self.fault_on_write matches Some(c) ==> c != STATUS_SUCCESS
    }

    /// An empty record with the clock at the epoch and no fault injected.
    pub fn new() -> (r: RecordStore)
        ensures
            r.wf(),
            r.record() == Map::<Seq<char>, Seq<char>>::empty(),
            r.clock() == 0,
            r.write_fault() is None,
            r.logged() == Seq::<(i32, Seq<char>)>::empty(),
    {
        let r = RecordStore {
            entries: Vec::new(),
            clock_nanos: 0,
            fault_on_write: None,
            log_entries: Vec::new(),
        };
        proof {
            assert(r.record() =~= Map::<Seq<char>, Seq<char>>::empty());
            assert(r.logged() =~= Seq::<(i32, Seq<char>)>::empty());
        }
        r
    }

    /// Move the clock forward.  Time never runs backward within an
    /// invocation, so the new reading must not precede the current one.
    pub fn set_clock(&mut self, nanos: u64)
        requires
            nanos >= old(self).clock(),
        ensures
            final(self).clock() == nanos,
            final(self).record() == old(self).record(),
            final(self).write_fault() == old(self).write_fault(),
            final(self).logged() == old(self).logged(),
            final(self).wf() == old(self).wf(),
    {
        self.clock_nanos = nanos;
    }

    /// Make every following write-field call answer with `code`, standing in
    /// for a host that breaks the protocol.
    pub fn inject_write_fault(&mut self, code: i32)
        requires
            code != STATUS_SUCCESS,
        ensures
            final(self).wf(),
            final(self).write_fault() == Some(code),
            final(self).record() == old(self).record(),
            final(self).clock() == old(self).clock(),
            final(self).logged() == old(self).logged(),
    {
        self.fault_on_write = Some(code);
    }

    /// The diagnostics recorded so far, oldest first.
    pub fn log_lines(&self) -> (r: &Vec<(i32, String)>)
        ensures
            r@.map_values(|e: (i32, String)| (e.0, e.1@)) == self.logged(),
    {
        &self.log_entries
    }

    /// Answer a raw read-field request: success with the value's encoded
    /// bytes when the key is present, not-found otherwise.
    pub fn raw_read(&self, name: &str) -> (r: (i32, Option<Vec<u8>>))
        ensures
            self.record().contains_key(name@) ==> ({
                &&& r.0 == STATUS_SUCCESS
                &&& r.1 matches Some(b) && b@ == encode_utf8(self.record()[name@])
            }),
            !self.record().contains_key(name@) ==> r.0 == STATUS_NOT_FOUND && r.1 is None,
    {
        let key = String::from_str(name);
        let n = self.entries.len();
        proof {
            assert(self.entries@.take(n as int) =~= self.entries@);
        }
        let mut i: usize = n;
        while i > 0
            invariant
                i <= self.entries@.len(),
                key@ == name@,
                lookup(self.entries@, name@) == lookup(self.entries@.take(i as int), name@),
            decreases i,
        {
            i = i - 1;
            proof {
                assert(self.entries@.take(i as int + 1).drop_last() =~= self.entries@.take(
                    i as int,
                ));
                assert(self.entries@.take(i as int + 1).last() == self.entries@[i as int]);
            }
            let hit = self.entries[i].0 == key;
            if hit {
                let bytes = self.entries[i].1.as_str().as_bytes_vec();
                proof {
                    assert(lookup(self.entries@, name@) == Some(self.entries@[i as int].1@));
                    assert(self.record().contains_key(name@));
                    assert(self.record()[name@] == self.entries@[i as int].1@);
                }
                return (STATUS_SUCCESS, Some(bytes));
            }
        }
        proof {
            assert(self.entries@.take(0) =~= Seq::<(String, String)>::empty());
            assert(!self.record().contains_key(name@));
        }
        (STATUS_NOT_FOUND, None)
    }

    /// Answer a raw write-field request: store the pair and succeed, unless a
    /// fault has been injected, in which case answer with the injected status
    /// and change nothing.
    pub fn raw_write(&mut self, key: &str, value: &str) -> (r: i32)
        ensures
            final(self).wf() == old(self).wf(),
            old(self).write_fault() matches Some(c) ==> ({
                &&& r == c
                &&& final(self).record() == old(self).record()
                &&& final(self).clock() == old(self).clock()
                &&& final(self).write_fault() == old(self).write_fault()
                &&& final(self).logged() == old(self).logged()
            }),
            old(self).write_fault() is None ==> ({
                &&& r == STATUS_SUCCESS
                &&& final(self).record() == old(self).record().insert(key@, value@)
                &&& final(self).clock() == old(self).clock()
                &&& final(self).write_fault() is None
                &&& final(self).logged() == old(self).logged()
            }),
    {
        match self.fault_on_write {
            Some(c) => c,
            None => {
                let k = String::from_str(key);
                let v = String::from_str(value);
                self.entries.push((k, v));
                proof {
                    let prev = old(self).entries@;
                    let cur = self.entries@;
                    assert forall|q: Seq<char>| #[trigger] lookup(cur, q) == (if q == key@ {
                        Some(value@)
                    } else {
                        lookup(prev, q)
                    }) by {
                        assert(cur.drop_last() =~= prev);
                    }
                    assert(self.record() =~= old(self).record().insert(key@, value@));
                }
                STATUS_SUCCESS
            },
        }
    }

    /// Answer a raw log request: record the diagnostic and succeed.
    pub fn raw_log(&mut self, level: i32, message: &str) -> (r: i32)
        ensures
            r == STATUS_SUCCESS,
            final(self).logged() == old(self).logged().push((level, message@)),
            final(self).record() == old(self).record(),
            final(self).clock() == old(self).clock(),
            final(self).write_fault() == old(self).write_fault(),
            final(self).wf() == old(self).wf(),
    {
        let m = String::from_str(message);
        self.log_entries.push((level, m));
        proof {
            assert(self.logged() =~= old(self).logged().push((level, message@)));
        }
        STATUS_SUCCESS
    }

    /// Answer a raw read-clock request: success with the current reading.
    pub fn raw_clock(&self) -> (r: (i32, u64))
        ensures
            r.0 == STATUS_SUCCESS,
            r.1 == self.clock(),
    {
        (STATUS_SUCCESS, self.clock_nanos)
    }

    /// Read a field through the full call surface: the raw answer is
    /// classified and any transferred buffer decoded.  Against this store a
    /// read is never fatal: absent keys are the normal `None` branch, and
    /// every stored value decodes back to itself.
    pub fn read_field(&self, name: &str) -> (r: Result<Option<String>, BridgeError>)
        ensures
            r matches Ok(v) && ({
                &&& v is Some <==> self.record().contains_key(name@)
                &&& v matches Some(s) ==> s@ == self.record()[name@]
            }),
    {
        let (code, buffer) = self.raw_read(name);
        proof {
            if self.record().contains_key(name@) {
                crate::codec::lemma_text_round_trip(self.record()[name@]);
            }
        }
        read_response(code, buffer)
    }

    /// Write a field through the full call surface.  Succeeds and stores the
    /// pair unless a fault has been injected, in which case the undocumented
    /// status aborts with the exact code and the record is left untouched.
    pub fn write_field(&mut self, key: &str, value: &str) -> (r: Result<(), BridgeError>)
        requires
            old(self).wf(),
        ensures
            final(self).wf(),
            old(self).write_fault() is None ==> ({
                &&& r is Ok
                &&& final(self).record() == old(self).record().insert(key@, value@)
                &&& final(self).clock() == old(self).clock()
                &&& final(self).write_fault() is None
                &&& final(self).logged() == old(self).logged()
            }),
            old(self).write_fault() matches Some(c) ==> ({
                &&& r == Result::<(), BridgeError>::Err(BridgeError::UnexpectedStatus(c))
                &&& final(self).record() == old(self).record()
                &&& final(self).clock() == old(self).clock()
                &&& final(self).write_fault() == old(self).write_fault()
                &&& final(self).logged() == old(self).logged()
            }),
    {
        let code = self.raw_write(key, value);
        write_response(code)
    }

    /// Send a diagnostic through the full call surface.  Against this store
    /// logging always succeeds, and it never touches the record: it is a side
    /// channel, not part of the transformation.
    pub fn log_event(&mut self, level: LogLevel, message: &str) -> (r: Result<(), BridgeError>)
        ensures
            r is Ok,
            final(self).logged() == old(self).logged().push((level.spec_code(), message@)),
            final(self).record() == old(self).record(),
            final(self).clock() == old(self).clock(),
            final(self).write_fault() == old(self).write_fault(),
            final(self).wf() == old(self).wf(),
    {
        let code = self.raw_log(level.code(), message);
        log_response(code)
    }

    /// Read the clock through the full call surface.  The reading equals the
    /// store's clock, which `set_clock` only ever moves forward: repeated
    /// readings within one invocation never decrease.
    pub fn read_clock(&self) -> (r: Result<u64, BridgeError>)
        ensures
            r matches Ok(t) && t == self.clock(),
    {
        let (code, nanos) = self.raw_clock();
        clock_response(code, nanos)
    }
}

/// Writing a field and immediately reading the same key within one invocation
/// yields exactly the value just written.
pub proof fn lemma_write_then_read(
    record: Map<Seq<char>, Seq<char>>,
    key: Seq<char>,
    value: Seq<char>,
)
    ensures
        record.insert(key, value).contains_key(key),
        record.insert(key, value)[key] == value,
{
}

/// A write to one key leaves every other field untouched.
pub proof fn lemma_write_leaves_others(
    record: Map<Seq<char>, Seq<char>>,
    key: Seq<char>,
    value: Seq<char>,
    other: Seq<char>,
)
    requires
        other != key,
    ensures
        record.insert(key, value).contains_key(other) == record.contains_key(other),
        record.contains_key(other) ==> record.insert(key, value)[other] == record[other],
{
}

} // verus!
