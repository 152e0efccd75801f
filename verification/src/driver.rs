//! Playback-side bookkeeping: fragments are taken from the transport in
//! arrival order and numbered as the codec sees them; a fragment the
//! codec rejects is dropped and counted, never letting one bad fragment
//! stop playback of the rest.

use vstd::prelude::*;

use crate::session::sat_inc;

verus! {

/// The playback driver's running counts: how many fragments have reached
/// the codec, and how many of those it accepted or rejected.
pub struct PlaybackDriver {
    chunks: u64,
    successes: u64,
    failures: u64,
}

impl PlaybackDriver {
    /// Fragments handed to the codec so far.
    pub closed spec fn chunks_spec(self) -> u64 {
        self.chunks
    }

    /// Fragments the codec accepted.
    pub closed spec fn successes_spec(self) -> u64 {
        self.successes
    }

    /// Fragments the codec rejected and the driver dropped.
    pub closed spec fn failures_spec(self) -> u64 {
        self.failures
    }

    /// A driver that has played nothing yet.
    pub fn new() -> (d: PlaybackDriver)
        ensures
            d.chunks_spec() == 0,
            d.successes_spec() == 0,
            d.failures_spec() == 0,
    {
        PlaybackDriver { chunks: 0, successes: 0, failures: 0 }
    }

    /// Numbers the next fragment as it is handed to the codec; fragments
    /// are numbered 1, 2, ... in the order they arrive from the
    /// transport.
    pub fn begin_fragment(&mut self) -> (ordinal: u64)
        ensures
            final(self).chunks_spec() == sat_inc(old(self).chunks_spec()),
            ordinal == final(self).chunks_spec(),
            final(self).successes_spec() == old(self).successes_spec(),
            final(self).failures_spec() == old(self).failures_spec(),
    {
        self.chunks = if self.chunks < u64::MAX {
            self.chunks + 1
        } else {
            self.chunks
        };
        self.chunks
    }

    /// Records that the codec accepted the current fragment and its
    /// audio was enqueued on the sink.
    pub fn record_success(&mut self)
        ensures
            final(self).successes_spec() == sat_inc(old(self).successes_spec()),
            final(self).chunks_spec() == old(self).chunks_spec(),
            final(self).failures_spec() == old(self).failures_spec(),
    {
        self.successes = if self.successes < u64::MAX {
            self.successes + 1
        } else {
            self.successes
        };
    }

    /// Records that the codec rejected the current fragment; the
    /// fragment is dropped and playback goes on with the next.
    pub fn record_failure(&mut self)
        ensures
            final(self).failures_spec() == sat_inc(old(self).failures_spec()),
            final(self).chunks_spec() == old(self).chunks_spec(),
            final(self).successes_spec() == old(self).successes_spec(),
    {
        self.failures = if self.failures < u64::MAX {
            self.failures + 1
        } else {
            self.failures
        };
    }

    /// The counts so far, for end-of-run reporting: fragments seen,
    /// accepted, and rejected.
    pub fn counts(&self) -> (r: (u64, u64, u64))
        ensures
            r.0 == self.chunks_spec(),
            r.1 == self.successes_spec(),
            r.2 == self.failures_spec(),
    {
        (self.chunks, self.successes, self.failures)
    }
}

} // verus!
