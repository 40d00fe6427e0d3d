//! The single-use response capability handed to each work invocation.
//!
//! The work callback may call [`Responder::respond`] zero or one times to
//! enqueue a response item for the real-time side.  The first call wins:
//! whatever its outcome, it consumes the capability, and every later call
//! during the same invocation is a no-op that reports [`WorkStatus::Unknown`].
//! A response that finds the queue full is lost — the real-time side is
//! never notified for that item — and the call reports
//! [`WorkStatus::NoSpace`].

use vstd::prelude::*;
use crate::queue::BoundedQueue;
use crate::status::WorkStatus;

verus! {

/// The capability through which a work invocation enqueues at most one
/// response item.  The host owns the queue behind it and hands the
/// capability out afresh for every invocation.
pub struct Responder {
    queue: BoundedQueue,
    used: bool,
}

impl View for Responder {
    type V = Seq<Seq<u8>>;

    /// The response items waiting for delivery, front first.
    closed spec fn view(&self) -> Seq<Seq<u8>> {
        self.queue@
    }
}

/// What one `respond` call does, stated over the capability's observable
/// state.  The first call consumes the capability whatever its outcome;
/// a consumed capability changes nothing.
pub open spec fn spec_respond_post(
    pre: Responder,
    p: Seq<u8>,
    post: Responder,
    s: WorkStatus,
) -> bool {
    &&& post.spec_capacity() == pre.spec_capacity()
    &&& if pre.spec_used() {
        &&& post@ == pre@
        &&& post.spec_used()
        &&& s == WorkStatus::Unknown
    } else if pre@.len() < pre.spec_capacity() {
        &&& post@ == pre@.push(p)
        &&& post.spec_used()
        &&& s == WorkStatus::Success
    } else {
        &&& post@ == pre@
        &&& post.spec_used()
        &&& s == WorkStatus::NoSpace
    }
}

/// Everything a whole work invocation can have done to its capability:
/// zero or more `respond` calls, of which at most the first enqueued.
pub open spec fn responder_step(pre: Responder, post: Responder) -> bool {
    &&& post.spec_capacity() == pre.spec_capacity()
    &&& pre@.is_prefix_of(post@)
    &&& post@.len() <= pre@.len() + 1
    &&& (post@.len() > pre@.len() ==> !pre.spec_used() && post.spec_used())
    &&& (pre.spec_used() ==> post@ == pre@ && post.spec_used())
    &&& (pre.wf() ==> post.wf())
}

impl Responder {
    /// Capacity of the response queue behind this capability.
    pub closed spec fn spec_capacity(&self) -> nat {
        self.queue.spec_capacity()
    }

    /// Whether the capability has already been consumed by a `respond`
    /// call during the current work invocation.
    pub closed spec fn spec_used(&self) -> bool {
        self.used
    }

    /// The queue behind the capability never exceeds its capacity.
    pub open spec fn wf(&self) -> bool {
        self@.len() <= self.spec_capacity()
    }

    /// Create the capability over a fresh, empty response queue.
    pub fn new(capacity: usize) -> (r: Responder)
        ensures
            r@ == Seq::<Seq<u8>>::empty(),
            r.spec_capacity() == capacity,
            !r.spec_used(),
            r.wf(),
    {
        Responder { queue: BoundedQueue::new(capacity), used: false }
    }

    /// Hand the capability out afresh for the next work invocation,
    /// leaving the pending responses untouched.
    pub fn refresh(&mut self)
        ensures
            final(self)@ == old(self)@,
            final(self).spec_capacity() == old(self).spec_capacity(),
            !final(self).spec_used(),
    {
        self.used = false;
    }

    /// Enqueue one response item for delivery to the real-time side.
    ///
    /// The first call wins: it consumes the capability, enqueues the item
    /// if the queue has room (`Success`) and loses it otherwise
    /// (`NoSpace`).  Any further call during the same invocation is a
    /// no-op reporting `Unknown`.
    pub fn respond(&mut self, payload: Vec<u8>) -> (s: WorkStatus)
        ensures
            spec_respond_post(*old(self), payload@, *final(self), s),
            responder_step(*old(self), *final(self)),
    {
        if self.used {
            WorkStatus::Unknown
        } else {
            self.used = true;
            if self.queue.try_push(payload) {
                WorkStatus::Success
            } else {
                WorkStatus::NoSpace
            }
        }
    }

    /// How many response items are pending delivery.
    pub fn pending(&self) -> (n: usize)
        ensures
            n == self@.len(),
    {
        self.queue.len()
    }

    /// Take the front pending response for delivery (the host's side of
    /// response delivery; not part of the work callback's capability).
    pub fn take_next(&mut self) -> (r: Option<Vec<u8>>)
        ensures
            final(self).spec_capacity() == old(self).spec_capacity(),
            final(self).spec_used() == old(self).spec_used(),
            old(self).wf() ==> final(self).wf(),
            match r {
                Some(p) => {
                    &&& old(self)@.len() > 0
                    &&& p@ == old(self)@[0]
                    &&& final(self)@ == old(self)@.drop_first()
                },
                None => {
                    &&& old(self)@.len() == 0
                    &&& final(self)@ == old(self)@
                },
            },
    {
        self.queue.pop_front()
    }
}

/// The capability discipline is closed under further `respond` calls:
/// whatever a work invocation has done so far, one more call keeps it
/// within [`responder_step`].  Component authors discharge their `work`
/// obligation with this, however many times they respond.
pub proof fn lemma_responder_step_compose(
    pre: Responder,
    mid: Responder,
    post: Responder,
    p: Seq<u8>,
    s: WorkStatus,
)
    requires
        responder_step(pre, mid),
        spec_respond_post(mid, p, post, s),
    ensures
        responder_step(pre, post),
{
}

/// No double delivery: a work invocation that calls `respond` twice gets
/// exactly one response enqueued — the second call changes nothing and
/// reports `Unknown` — and however many calls it makes, at most one item
/// is added.
pub proof fn lemma_no_double_delivery(
    r0: Responder,
    r1: Responder,
    r2: Responder,
    p1: Seq<u8>,
    p2: Seq<u8>,
    s1: WorkStatus,
    s2: WorkStatus,
)
    requires
        !r0.spec_used(),
        spec_respond_post(r0, p1, r1, s1),
        spec_respond_post(r1, p2, r2, s2),
    ensures
        r2@ == r1@,
        s2 == WorkStatus::Unknown,
        r2@.len() <= r0@.len() + 1,
{
}

} // verus!
