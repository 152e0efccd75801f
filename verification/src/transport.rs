//! Ordered hand-off of decoded byte buffers from the ingest side to the
//! playback side: buffers leave in exactly the order they entered, closing
//! the producer side never drops buffers already queued, and the consumer
//! can tell a momentarily empty queue from an exhausted stream.

use std::collections::VecDeque;
use vstd::prelude::*;

verus! {

/// What one pull from the transport yields: a queued buffer, nothing for
/// the moment (the producer may still push), or the end of the stream
/// (the producer closed and everything queued has been delivered).
pub enum PullOutcome {
    Item(Vec<u8>),
    Empty,
    Closed,
}

/// A single-producer/single-consumer ordered queue of byte buffers with
/// an explicit end-of-stream marker.
pub struct Transport {
    queue: VecDeque<Vec<u8>>,
    closed: bool,
}

impl Transport {
    /// The buffers currently queued, oldest first.
    pub closed spec fn items(self) -> Seq<Seq<u8>> {
        self.queue@.map_values(|v: Vec<u8>| v@)
    }

    /// Whether the producer side has signalled the end of the stream.
    pub closed spec fn is_closed(self) -> bool {
        self.closed
    }

    /// An open transport with nothing queued.
    pub fn new() -> (t: Transport)
        ensures
            t.items() == Seq::<Seq<u8>>::empty(),
            !t.is_closed(),
    {
        let t = Transport { queue: VecDeque::new(), closed: false };
        proof {
            assert(t.items() =~= Seq::<Seq<u8>>::empty());
        }
        t
    }

    /// Queues one buffer behind everything already queued. A buffer is
    /// accepted exactly when the transport is still open; after a close
    /// the buffer is refused and nothing changes.
    pub fn push(&mut self, item: Vec<u8>) -> (accepted: bool)
        ensures
            accepted == !old(self).is_closed(),
            final(self).is_closed() == old(self).is_closed(),
            accepted ==> final(self).items() == old(self).items().push(item@),
            !accepted ==> final(self).items() == old(self).items(),
    {
        if self.closed {
            false
        } else {
            self.queue.push_back(item);
            proof {
                assert(self.items() =~= old(self).items().push(item@));
            }
            true
        }
    }

    /// Signals that no further buffer will arrive. Everything already
    /// queued stays queued for delivery.
    pub fn close(&mut self)
        ensures
            final(self).is_closed(),
            final(self).items() == old(self).items(),
    {
        self.closed = true;
    }

    /// Takes the oldest queued buffer. With nothing queued, reports
    /// either that the consumer should wait (`Empty`, transport open) or
    /// that the stream has ended (`Closed`).
    pub fn pull(&mut self) -> (r: PullOutcome)
        ensures
            final(self).is_closed() == old(self).is_closed(),
            match r {
                PullOutcome::Item(v) => {
                    &&& old(self).items().len() > 0
                    &&& v@ == old(self).items()[0]
                    &&& final(self).items() == old(self).items().drop_first()
                },
                PullOutcome::Empty => {
                    &&& old(self).items().len() == 0
                    &&& !old(self).is_closed()
                    &&& final(self).items() == old(self).items()
                },
                PullOutcome::Closed => {
                    &&& old(self).items().len() == 0
                    &&& old(self).is_closed()
                    &&& final(self).items() == old(self).items()
                },
            },
    {
        match self.queue.pop_front() {
            Some(v) => {
                proof {
                    assert(self.items() =~= old(self).items().drop_first());
                }
                PullOutcome::Item(v)
            }
            None => {
                proof {
                    assert(old(self).items() =~= self.items());
                }
                if self.closed {
                    PullOutcome::Closed
                } else {
                    PullOutcome::Empty
                }
            }
        }
    }

    /// Law: pulling until the queue is empty hands back exactly the
    /// buffers that were pushed, in the order they were pushed — the
    /// transport neither drops, duplicates, nor reorders a buffer.
    pub fn drain(&mut self) -> (r: Vec<Vec<u8>>)
        ensures
            r@.map_values(|v: Vec<u8>| v@) == old(self).items(),
            final(self).items().len() == 0,
            final(self).is_closed() == old(self).is_closed(),
    {
        let mut r: Vec<Vec<u8>> = Vec::new();
        loop
            invariant
                r@.len() <= old(self).items().len(),
                r@.map_values(|v: Vec<u8>| v@) =~= old(self).items().take(r@.len() as int),
                self.items() =~= old(self).items().skip(r@.len() as int),
                self.is_closed() == old(self).is_closed(),
            decreases old(self).items().len() - r@.len(),
        {
            let ghost done = r@.len() as int;
            match self.pull() {
                PullOutcome::Item(v) => {
                    r.push(v);
                    proof {
                        assert(r@.map_values(|v: Vec<u8>| v@)
                            =~= old(self).items().take(done + 1));
                        assert(self.items() =~= old(self).items().skip(done + 1));
                    }
                }
                PullOutcome::Empty => {
                    proof {
                        assert(r@.map_values(|v: Vec<u8>| v@) =~= old(self).items());
                    }
                    return r;
                }
                PullOutcome::Closed => {
                    proof {
                        assert(r@.map_values(|v: Vec<u8>| v@) =~= old(self).items());
                    }
                    return r;
                }
            }
        }
    }
}

} // verus!
