//! A bounded, lossy-on-overflow broadcast channel: one publisher, any number
//! of independently registering subscribers, each with its own cursor.
//!
//! Publishing never blocks and never waits for subscribers: it appends to a
//! ring of the last `cap` items and advances the head counter. A subscriber
//! that falls more than `cap` items behind has lagged: it is told so once,
//! its cursor jumps to the oldest retained item, and it misses the items in
//! between. A subscriber that registers after an item was published never
//! sees that item — there is no replay.
//!
//! The ghost log of everything ever published makes these semantics exact:
//! a receiver's cursor is a position in that log, and every delivered item
//! is the log entry at the cursor's position.

use vstd::prelude::*;

verus! {

/// The publisher side: a ring of the most recent items plus the count of
/// everything ever published.
#[verifier::reject_recursive_types(T)]
pub struct Broadcaster<T: Copy> {
    /// Ring capacity: how many recent items stay available to subscribers.
    pub cap: usize,
    /// The retained items: the most recent `min(published, cap)` ones.
    pub buf: Vec<T>,
    /// How many items were ever published.
    pub head: u64,
    /// The log of everything ever published, oldest first.
    pub log: Ghost<Seq<T>>,
}

/// A subscriber's cursor: the position in the publisher's log of the next
/// item this subscriber is due to see.
pub struct Receiver {
    /// Position in the log of the next item due.
    pub cursor: u64,
}

/// What one receive step yields.
pub enum RecvResult<T> {
    /// The next item due, in publication order.
    Received(T),
    /// The receiver fell behind by more than the ring capacity; its cursor
    /// was moved forward to the oldest retained item, and the items in
    /// between are lost to it.
    Lagged,
    /// Nothing pending: the receiver has seen everything published so far.
    Empty,
}

impl<T: Copy> Broadcaster<T> {
    /// Log position of the oldest item still held in the ring.
    pub open spec fn oldest_retained(&self) -> int {
        self.log@.len() - self.buf@.len()
    }

    /// Where a receiver at `cursor` effectively resumes: at its own cursor
    /// if that item is still retained, else at the oldest retained item.
    pub open spec fn resume_at(&self, cursor: u64) -> int {
        if cursor as int >= self.oldest_retained() {
            cursor as int
        } else {
            self.oldest_retained()
        }
    }

    /// The channel is well-formed: the head counts the log, and the ring
    /// holds exactly the last `min(published, cap)` log entries.
    pub open spec fn wf(&self) -> bool {
        &&& self.cap >= 1
        &&& self.head as nat == self.log@.len()
        &&& self.buf@.len() == if self.log@.len() <= self.cap as nat {
            self.log@.len()
        } else {
            self.cap as nat
        }
        &&& self.buf@ == self.log@.subrange(self.oldest_retained(), self.log@.len() as int)
    }

    /// A fresh channel of capacity `cap` with nothing published.
    pub fn new(cap: usize) -> (b: Broadcaster<T>)
        requires
            cap >= 1,
        ensures
            b.wf(),
            b.cap == cap,
            b.head == 0,
            b.log@ == Seq::<T>::empty(),
    {
        let b = Broadcaster { cap, buf: Vec::new(), head: 0, log: Ghost(Seq::empty()) };
        proof {
            assert(b.buf@ =~= b.log@.subrange(0, 0));
        }
        b
    }

    /// Publish one item. This never blocks and never fails, whatever the
    /// number of subscribers (even none): the item is appended to the log,
    /// and the oldest retained item is evicted once the ring is full.
    pub fn publish(&mut self, v: T)
        requires
            old(self).wf(),
            old(self).head < u64::MAX,
        ensures
            final(self).wf(),
            final(self).cap == old(self).cap,
            final(self).head == old(self).head + 1,
            final(self).log@ == old(self).log@.push(v),
    {
        if self.buf.len() == self.cap {
            self.buf.remove(0);
        }
        self.buf.push(v);
        self.head = self.head + 1;
        proof {
            self.log@ = self.log@.push(v);
            assert(self.buf@ =~= self.log@.subrange(
                self.log@.len() - self.buf@.len(),
                self.log@.len() as int,
            ));
        }
    }

    /// Register a new subscriber. Its cursor starts at the head: it will
    /// see nothing published before this call (no replay), and everything
    /// published after it, up to lag.
    pub fn subscribe(&self) -> (r: Receiver)
        ensures
            r.cursor == self.head,
    {
        Receiver { cursor: self.head }
    }

    /// One receive step for `r`: the next item due, or a lag notice that
    /// moves the cursor up to the oldest retained item, or nothing.
    pub fn recv(&self, r: &mut Receiver) -> (res: RecvResult<T>)
        requires
            self.wf(),
            old(r).cursor <= self.head,
        ensures
            final(r).cursor <= self.head,
            old(r).cursor <= final(r).cursor,
            match res {
                RecvResult::Empty => {
                    &&& old(r).cursor == self.head
                    &&& final(r).cursor == old(r).cursor
                },
                RecvResult::Lagged => {
                    &&& self.head - old(r).cursor > self.buf@.len()
                    &&& final(r).cursor as int == self.oldest_retained()
                },
                RecvResult::Received(v) => {
                    &&& old(r).cursor < self.head
                    &&& self.head - old(r).cursor <= self.buf@.len()
                    &&& v == self.log@[old(r).cursor as int]
                    &&& final(r).cursor == old(r).cursor + 1
                },
            },
    {
        if r.cursor == self.head {
            RecvResult::Empty
        } else {
            let buflen: u64 = self.buf.len() as u64;
            let oldest: u64 = self.head - buflen;
            if r.cursor < oldest {
                r.cursor = oldest;
                RecvResult::Lagged
            } else {
                let idx: usize = (r.cursor - oldest) as usize;
                let v: T = self.buf[idx];
                r.cursor = r.cursor + 1;
                RecvResult::Received(v)
            }
        }
    }

    /// Receive everything pending for `r`: after this, `r` is caught up
    /// with the head. The result is exactly the log's tail from where the
    /// receiver resumes — from its own cursor if it has not lagged out of
    /// the ring, else from the oldest retained item.
    pub fn drain(&self, r: &mut Receiver) -> (out: Vec<T>)
        requires
            self.wf(),
            old(r).cursor <= self.head,
        ensures
            final(r).cursor == self.head,
            out@ == self.log@.subrange(self.resume_at(old(r).cursor), self.log@.len() as int),
            self.head - old(r).cursor <= self.buf@.len() ==> out@ == self.log@.subrange(
                old(r).cursor as int,
                self.log@.len() as int,
            ),
    {
        let ghost start: int = self.resume_at(old(r).cursor);
        let mut out: Vec<T> = Vec::new();
        while r.cursor < self.head
            invariant
                self.wf(),
                old(r).cursor <= r.cursor <= self.head,
                start == self.resume_at(old(r).cursor),
                (r.cursor as int >= start) ==> out@ == self.log@.subrange(start, r.cursor as int),
                (start > r.cursor as int) ==> (r.cursor == old(r).cursor && out@
                    == Seq::<T>::empty()),
            decreases self.head - r.cursor,
        {
            match self.recv(r) {
                RecvResult::Received(v) => {
                    out.push(v);
                    proof {
                        assert(out@ =~= self.log@.subrange(start, r.cursor as int));
                    }
                },
                RecvResult::Lagged => {
                    proof {
                        assert(out@ =~= self.log@.subrange(start, r.cursor as int));
                    }
                },
                RecvResult::Empty => {
                    proof {
                        assert(false);
                    }
                },
            }
        }
        proof {
            assert(out@ =~= self.log@.subrange(start, self.log@.len() as int));
        }
        out
    }
}

/// A subscriber registered before an item was published receives it, in
/// order, provided it has not lagged out of the ring: if a drain resumes at
/// or before the item's position, the item stands in the drained output at
/// the offset from the resume point.
pub proof fn lemma_registered_before_receives<T>(log: Seq<T>, resume: int, i: int, out: Seq<T>)
    requires
        0 <= resume <= i < log.len(),
        out == log.subrange(resume, log.len() as int),
    ensures
        out[i - resume] == log[i],
{
}

/// No replay: a subscriber registered when `n` items had already been
/// published never receives one of them. Whatever a later drain returns
/// comes wholly from positions at or after `n` — the cursor starts at `n`
/// and only ever moves forward.
pub proof fn lemma_no_replay<T>(log: Seq<T>, n: int, resume: int, out: Seq<T>)
    requires
        0 <= n <= resume <= log.len(),
        out == log.subrange(resume, log.len() as int),
    ensures
        forall|j: int| 0 <= j < out.len() ==> out[j] == log[resume + j] && resume + j >= n,
{
}

} // verus!
