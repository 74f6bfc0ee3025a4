//! The closed error taxonomy and the error sink.
//!
//! A framing failure is fatal for the run; every other kind is
//! recoverable: the failing chunk or write is dropped, the failure is
//! recorded, and processing continues. The sink keeps exact counts per
//! kind and retains at most a fixed number of full failure records, so
//! memory stays bounded on inputs with many malformed chunks.

use vstd::prelude::*;

verus! {

/// The closed set of failure kinds, one per component boundary.
#[derive(Clone, Copy, Debug, PartialEq, Eq, Structural)]
pub enum ErrorKind {
    /// Malformed or truncated input container: fatal for the run.
    Framing,
    /// A chunk whose payload failed to decompress or decode: the chunk
    /// is dropped.
    Decode,
    /// A connection could not be acquired within the bounded retries:
    /// the write is abandoned.
    Pool,
    /// The store refused a write: the write is abandoned.
    Store,
    /// An entity whose payload could not be encoded: the write is
    /// skipped.
    Serialization,
}

/// How many full failure records the sink retains.
pub const MAX_RETAINED_FAILURES: usize = 1024;

/// One retained failure: which chunk, which kind, and its message.
#[derive(Clone, Debug)]
pub struct FailureRecord {
    pub chunk: u64,
    pub kind: ErrorKind,
    pub message: String,
}

/// Accumulates non-fatal failures without ever failing itself: exact
/// counts per kind, and the first few full records.
#[derive(Debug)]
pub struct ErrorSink {
    pub framing: u64,
    pub decode: u64,
    pub pool: u64,
    pub store: u64,
    pub serialization: u64,
    pub retained: Vec<FailureRecord>,
}

/// The count the sink holds for one kind.
pub open spec fn sink_count(s: ErrorSink, kind: ErrorKind) -> u64 {
    match kind {
        ErrorKind::Framing => s.framing,
        ErrorKind::Decode => s.decode,
        ErrorKind::Pool => s.pool,
        ErrorKind::Store => s.store,
        ErrorKind::Serialization => s.serialization,
    }
}

impl ErrorSink {
    /// A sink with nothing recorded.
    pub fn new() -> (r: ErrorSink)
        ensures
            forall|k: ErrorKind| sink_count(r, k) == 0,
            r.retained@.len() == 0,
    {
        ErrorSink {
            framing: 0,
            decode: 0,
            pool: 0,
            store: 0,
            serialization: 0,
            retained: Vec::new(),
        }
    }

    /// Records one failure: the count of its kind grows by one, every
    /// other count is untouched, and the full record is retained only
    /// while fewer than the bounded number are held.
    pub fn record(&mut self, chunk: u64, kind: ErrorKind, message: String)
        requires
            sink_count(*old(self), kind) < u64::MAX,
        ensures
            sink_count(*final(self), kind) == sink_count(*old(self), kind) + 1,
            forall|k: ErrorKind|
                k != kind ==> sink_count(*final(self), k) == sink_count(*old(self), k),
            old(self).retained@.len() < MAX_RETAINED_FAILURES ==> {
                &&& final(self).retained@.len() == old(self).retained@.len() + 1
                &&& final(self).retained@.last().chunk == chunk
                &&& final(self).retained@.last().kind == kind
                &&& final(self).retained@.last().message@ == message@
            },
            old(self).retained@.len() >= MAX_RETAINED_FAILURES ==> final(self).retained@ == old(
                self,
            ).retained@,
    {
        match kind {
            ErrorKind::Framing => {
                self.framing = self.framing + 1;
            },
            ErrorKind::Decode => {
                self.decode = self.decode + 1;
            },
            ErrorKind::Pool => {
                self.pool = self.pool + 1;
            },
            ErrorKind::Store => {
                self.store = self.store + 1;
            },
            ErrorKind::Serialization => {
                self.serialization = self.serialization + 1;
            },
        }
        if self.retained.len() < MAX_RETAINED_FAILURES {
            self.retained.push(FailureRecord { chunk, kind, message });
        }
    }

    /// The count recorded for one kind.
    pub fn count(&self, kind: ErrorKind) -> (r: u64)
        ensures
            r == sink_count(*self, kind),
    {
        match kind {
            ErrorKind::Framing => self.framing,
            ErrorKind::Decode => self.decode,
            ErrorKind::Pool => self.pool,
            ErrorKind::Store => self.store,
            ErrorKind::Serialization => self.serialization,
        }
    }
}

} // verus!
