//! A bounded, ordered FIFO queue of one message type, with a send side and a
//! consume side. This is the in-process model of one direction of the bridge:
//! sends append at the tail, `try_recv` takes from the head and never blocks,
//! and a full or closed queue refuses a send with a typed error instead of
//! aborting.

use vstd::prelude::*;

use crate::message::SendError;

verus! {

/// What one non-blocking receive attempt returns on a queue with contents
/// `s`: the head message if one is pending, otherwise nothing.
pub open spec fn drain_result<T>(s: Seq<T>) -> Option<T> {
    if s.len() == 0 {
        None
    } else {
        Some(s[0])
    }
}

/// The queue contents after one non-blocking receive attempt on contents `s`.
pub open spec fn after_drain<T>(s: Seq<T>) -> Seq<T> {
    if s.len() == 0 {
        s
    } else {
        s.skip(1)
    }
}

/// The messages that `k` successive receive attempts on contents `s` yield,
/// in the order they are returned.
pub open spec fn drained<T>(s: Seq<T>, k: nat) -> Seq<T>
    decreases k,
{
    if k == 0 {
        Seq::empty()
    } else {
        match drain_result(s) {
            None => Seq::empty(),
            Some(head) => seq![head] + drained(after_drain(s), (k - 1) as nat),
        }
    }
}

/// FIFO law: successive receive attempts return the queued messages in
/// exactly the order they were sent — `k` attempts yield the first `k`
/// messages (all of them, once `k` reaches the backlog).
pub proof fn lemma_drain_preserves_send_order<T>(s: Seq<T>, k: nat)
    ensures
        k <= s.len() ==> drained(s, k) == s.take(k as int),
        k >= s.len() ==> drained(s, k) == s,
    decreases k,
{
    if k == 0 {
        assert(s.take(0) =~= Seq::<T>::empty());
        if s.len() == 0 {
            assert(drained(s, k) =~= s);
        }
    } else if s.len() == 0 {
        assert(drained(s, k) =~= s);
    } else {
        lemma_drain_preserves_send_order(s.skip(1), (k - 1) as nat);
        if k <= s.len() {
            assert(drained(s, k) =~= s.take(k as int));
        } else {
            assert(drained(s, k) =~= s);
        }
    }
}

/// Idempotence of an empty drain: when a receive attempt finds nothing
/// pending, it leaves the queue as it was, and a second attempt with nothing
/// sent in between again finds nothing pending.
pub proof fn lemma_empty_drain_idempotent<T>(s: Seq<T>)
    ensures
        drain_result::<T>(s) is None ==> {
            &&& after_drain(s) == s
            &&& drain_result::<T>(after_drain(s)) is None
        },
{
}

/// One direction of the bridge: a bounded FIFO queue with a single producer
/// and a single consumer. Its view is the sequence of pending messages,
/// oldest first.
pub struct Channel<T> {
    queue: Vec<T>,
    cap: usize,
    closed: bool,
}

impl<T> View for Channel<T> {
    type V = Seq<T>;

    closed spec fn view(&self) -> Seq<T> {
        self.queue@
    }
}

impl<T> Channel<T> {
    /// How many messages the queue can hold at once.
    pub closed spec fn spec_capacity(&self) -> nat {
        self.cap as nat
    }

    /// Whether the consuming side has been torn down.
    pub closed spec fn spec_closed(&self) -> bool {
        self.closed
    }

    /// The backlog never exceeds the (positive) capacity.
    pub open spec fn wf(&self) -> bool {
        self@.len() <= self.spec_capacity() && self.spec_capacity() >= 1
    }

    /// A fresh, open, empty channel holding at most `capacity` messages.
    pub fn new(capacity: usize) -> (c: Self)
        requires
            capacity >= 1,
        ensures
            c.wf(),
            c@ == Seq::<T>::empty(),
            c.spec_capacity() == capacity,
            !c.spec_closed(),
    {
        Channel { queue: Vec::new(), cap: capacity, closed: false }
    }

    /// The number of pending messages.
    pub fn len(&self) -> (n: usize)
        ensures
            n == self@.len(),
    {
        self.queue.len()
    }

    /// Whether the backlog is at capacity.
    pub fn is_full(&self) -> (r: bool)
        ensures
            r == (self@.len() == self.spec_capacity()),
    {
        self.queue.len() == self.cap
    }

    /// Whether the consuming side has been torn down.
    pub fn is_closed(&self) -> (r: bool)
        ensures
            r == self.spec_closed(),
    {
        self.closed
    }

    /// Append a message at the tail. Refused with `Closed` when the consumer
    /// is gone, and with `Full` when the bounded queue is at capacity; in
    /// both refusals the queue is left untouched.
    pub fn send(&mut self, message: T) -> (r: Result<(), SendError>)
        requires
            old(self).wf(),
        ensures
            final(self).wf(),
            final(self).spec_capacity() == old(self).spec_capacity(),
            final(self).spec_closed() == old(self).spec_closed(),
            old(self).spec_closed() ==> {
                &&& r == Err::<(), SendError>(SendError::Closed)
                &&& final(self)@ == old(self)@
            },
            !old(self).spec_closed() && old(self)@.len() == old(self).spec_capacity() ==> {
                &&& r == Err::<(), SendError>(SendError::Full)
                &&& final(self)@ == old(self)@
            },
            !old(self).spec_closed() && old(self)@.len() < old(self).spec_capacity() ==> {
                &&& r == Ok::<(), SendError>(())
                &&& final(self)@ == old(self)@.push(message)
            },
    {
        if self.closed {
            Err(SendError::Closed)
        } else if self.queue.len() == self.cap {
            Err(SendError::Full)
        } else {
            self.queue.push(message);
            Ok(())
        }
    }

    /// One non-blocking receive attempt: take the head message if one is
    /// pending, otherwise report nothing and change nothing. Never blocks.
    pub fn try_recv(&mut self) -> (r: Option<T>)
        requires
            old(self).wf(),
        ensures
            final(self).wf(),
            final(self).spec_capacity() == old(self).spec_capacity(),
            final(self).spec_closed() == old(self).spec_closed(),
            r == drain_result(old(self)@),
            final(self)@ == after_drain(old(self)@),
    {
        if self.queue.len() > 0 {
            Some(self.queue.remove(0))
        } else {
            None
        }
    }

    /// Record that the peer is gone: every later send is refused with
    /// `Closed`, while the consumer may still drain what is already queued.
    pub fn close(&mut self)
        requires
            old(self).wf(),
        ensures
            final(self).wf(),
            final(self).spec_capacity() == old(self).spec_capacity(),
            final(self).spec_closed(),
            final(self)@ == old(self)@,
    {
        self.closed = true;
    }
}

} // verus!
