//! The observability capabilities consumed by the retry loops.
//!
//! A diagnostic sink takes one error-severity entry per failed attempt; a
//! delay provider suspends the caller between attempts. Both are owned by
//! the caller; the in-memory implementations here record what was asked of
//! them, so a run can be examined entry by entry.

use vstd::prelude::*;

verus! {

/// A sink for error-severity diagnostic entries.
pub trait DiagnosticSink: Sized {
    /// The entries recorded so far, oldest first.
    spec fn entries(&self) -> Seq<Seq<char>>;

    /// Records one error entry.
    fn record_error(&mut self, message: String)
        ensures
            final(self).entries() == old(self).entries().push(message@),
    ;
}

/// A provider of fixed-length suspensions between retry attempts.
pub trait DelayProvider: Sized {
    /// The lengths, in seconds, of the suspensions performed so far.
    spec fn suspensions(&self) -> Seq<u64>;

    /// Suspends the caller for the given number of seconds.
    fn delay_seconds(&mut self, seconds: u64)
        ensures
            final(self).suspensions() == old(self).suspensions().push(seconds),
    ;
}

/// A diagnostic sink that keeps every entry in memory.
#[derive(Debug)]
pub struct MemorySink {
    /// The recorded entries, oldest first.
    pub messages: Vec<String>,
}

impl MemorySink {
    /// An empty sink.
    pub fn new() -> (s: MemorySink)
        ensures
            s.entries() == Seq::<Seq<char>>::empty(),
    {
        let s = MemorySink { messages: Vec::new() };
        proof {
            assert(s.entries() =~= Seq::<Seq<char>>::empty());
        }
        s
    }
}

impl DiagnosticSink for MemorySink {
    open spec fn entries(&self) -> Seq<Seq<char>> {
        Seq::new(self.messages@.len(), |i: int| self.messages@[i]@)
    }

    fn record_error(&mut self, message: String) {
        self.messages.push(message);
        proof {
            assert(self.entries() =~= old(self).entries().push(message@));
        }
    }
}

/// A delay provider that records each requested suspension instead of
/// sleeping, so a run can be examined without waiting through it.
#[derive(Debug)]
pub struct RecordedDelay {
    /// The requested suspension lengths, in seconds, oldest first.
    pub requests: Vec<u64>,
}

impl RecordedDelay {
    /// A provider with no suspensions recorded.
    pub fn new() -> (d: RecordedDelay)
        ensures
            d.suspensions() == Seq::<u64>::empty(),
    {
        RecordedDelay { requests: Vec::new() }
    }
}

impl DelayProvider for RecordedDelay {
    open spec fn suspensions(&self) -> Seq<u64> {
        self.requests@
    }

    fn delay_seconds(&mut self, seconds: u64) {
        self.requests.push(seconds);
    }
}

} // verus!
