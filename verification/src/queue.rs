//! Bounded FIFO queues of self-contained byte payloads.
//!
//! A queue of this kind is the only channel between the real-time domain and
//! the work domain, in either direction.  Its capacity is fixed when it is
//! created; a full queue rejects the new payload without changing anything,
//! which is the subsystem's only flow-control signal.

use vstd::prelude::*;
use std::collections::VecDeque;

verus! {

/// A bounded first-in first-out queue of byte payloads.
pub struct BoundedQueue {
    items: VecDeque<Vec<u8>>,
    capacity: usize,
}

impl View for BoundedQueue {
    type V = Seq<Seq<u8>>;

    /// The queued payloads, front first.
    closed spec fn view(&self) -> Seq<Seq<u8>> {
        self.items@.map_values(|p: Vec<u8>| p@)
    }
}

impl BoundedQueue {
    /// The fixed number of payloads this queue can hold.
    pub closed spec fn spec_capacity(&self) -> nat {
        self.capacity as nat
    }

    /// The queue never holds more than its capacity.
    pub open spec fn wf(&self) -> bool {
        self@.len() <= self.spec_capacity()
    }

    /// Create an empty queue that can hold `capacity` payloads.
    pub fn new(capacity: usize) -> (q: BoundedQueue)
        ensures
            q@ == Seq::<Seq<u8>>::empty(),
            q.spec_capacity() == capacity,
            q.wf(),
    {
        let q = BoundedQueue { items: VecDeque::new(), capacity };
        proof {
            assert(q@ =~= Seq::<Seq<u8>>::empty());
        }
        q
    }

    /// How many payloads are queued now.
    pub fn len(&self) -> (n: usize)
        ensures
            n == self@.len(),
    {
        self.items.len()
    }

    /// The capacity the queue was created with.
    pub fn capacity(&self) -> (c: usize)
        ensures
            c == self.spec_capacity(),
    {
        self.capacity
    }

    /// Enqueue a payload at the back; a queue at capacity rejects it and
    /// stays exactly as it was.
    pub fn try_push(&mut self, payload: Vec<u8>) -> (accepted: bool)
        ensures
            final(self).spec_capacity() == old(self).spec_capacity(),
            accepted == (old(self)@.len() < old(self).spec_capacity()),
            accepted ==> final(self)@ == old(self)@.push(payload@),
            !accepted ==> *final(self) == *old(self),
            old(self).wf() ==> final(self).wf(),
    {
        if self.items.len() < self.capacity {
            self.items.push_back(payload);
            proof {
                assert(self@ =~= old(self)@.push(payload@));
            }
            true
        } else {
            false
        }
    }

    /// Dequeue the front payload, if any.
    pub fn pop_front(&mut self) -> (r: Option<Vec<u8>>)
        ensures
            final(self).spec_capacity() == old(self).spec_capacity(),
            old(self).wf() ==> final(self).wf(),
            match r {
                Some(p) => {
                    &&& old(self)@.len() > 0
                    &&& p@ == old(self)@[0]
                    &&& final(self)@ == old(self)@.drop_first()
                },
                None => {
                    &&& old(self)@.len() == 0
                    &&& final(self)@ == old(self)@
                },
            },
    {
        let r = self.items.pop_front();
        proof {
            if old(self)@.len() > 0 {
                assert(old(self).items@[0]@ == old(self)@[0]);
                assert(self@ =~= old(self)@.drop_first());
            }
        }
        r
    }
}

} // verus!
