//! The host side of the worker extension: one producer, one consumer.
//!
//! A [`WorkerHost`] owns the two bounded queues between the real-time
//! domain and the work domain.  The real-time side submits payloads
//! through [`WorkerHost::submit`], which never blocks: it reports
//! `Submitted`, `QueueFull` under backpressure, or `Unsupported` when the
//! host provides no executor.  The work domain drains the work queue in
//! submission order with [`WorkerHost::execute_next`], handing each
//! payload to the component's work callback together with a fresh
//! single-use response capability.  Responses flow back in completion
//! order through [`WorkerHost::deliver_next`], and
//! [`WorkerHost::finish_cycle`] delivers everything still pending before
//! firing the end-of-cycle notification exactly once.

use vstd::prelude::*;
use crate::queue::BoundedQueue;
use crate::responder::Responder;
use crate::status::SubmitStatus;
use crate::status::WorkStatus;
use crate::worker::DoublingWorker;
use crate::worker::EventView;
use crate::worker::Worker;

verus! {

/// What submission does to the work queue's contents: appended when an
/// executor exists and there is room, untouched otherwise.
pub open spec fn spec_submit(
    q: Seq<Seq<u8>>,
    cap: nat,
    has_executor: bool,
    p: Seq<u8>,
) -> (Seq<Seq<u8>>, SubmitStatus) {
    if !has_executor {
        (q, SubmitStatus::Unsupported)
    } else if q.len() < cap {
        (q.push(p), SubmitStatus::Submitted)
    } else {
        (q, SubmitStatus::QueueFull)
    }
}

/// The component state `post` is reachable from `pre` by delivering the
/// given response items in order, one `work_response` call each.
pub open spec fn spec_delivered_all<W: Worker>(pre: W, responses: Seq<Seq<u8>>, post: W) -> bool
    decreases responses.len(),
{
    if responses.len() == 0 {
        post == pre
    } else {
        exists|mid: W, s: WorkStatus|
            #[trigger] W::response_post(pre, mid, responses.first(), s)
                && spec_delivered_all::<W>(mid, responses.drop_first(), post)
    }
}

/// Delivering one more response item extends a delivery chain at its end.
proof fn lemma_delivered_all_snoc<W: Worker>(
    pre: W,
    xs: Seq<Seq<u8>>,
    mid: W,
    x: Seq<u8>,
    post: W,
    s: WorkStatus,
)
    requires
        spec_delivered_all::<W>(pre, xs, mid),
        W::response_post(mid, post, x, s),
    ensures
        spec_delivered_all::<W>(pre, xs.push(x), post),
    decreases xs.len(),
{
    if xs.len() == 0 {
        assert(mid == pre);
        assert(xs.push(x).first() == x);
        assert(xs.push(x).drop_first() =~= Seq::<Seq<u8>>::empty());
        assert(W::response_post(pre, post, xs.push(x).first(), s));
        assert(spec_delivered_all::<W>(post, xs.push(x).drop_first(), post));
    } else {
        let (m, s0) = choose|m: W, s0: WorkStatus|
            #[trigger] W::response_post(pre, m, xs.first(), s0)
                && spec_delivered_all::<W>(m, xs.drop_first(), mid);
        lemma_delivered_all_snoc::<W>(m, xs.drop_first(), mid, x, post, s);
        assert(xs.push(x).drop_first() =~= xs.drop_first().push(x));
        assert(xs.push(x).first() == xs.first());
        assert(W::response_post(pre, m, xs.push(x).first(), s0));
        assert(spec_delivered_all::<W>(m, xs.push(x).drop_first(), post));
    }
}

/// The host runtime's queues and executor, for one component instance.
pub struct WorkerHost {
    work_queue: BoundedQueue,
    responder: Responder,
    has_executor: bool,
}

impl WorkerHost {
    /// The submitted work payloads still waiting for execution, front first.
    pub closed spec fn spec_work_queue(&self) -> Seq<Seq<u8>> {
        self.work_queue@
    }

    /// The response items waiting for delivery, front first.
    pub closed spec fn spec_responses(&self) -> Seq<Seq<u8>> {
        self.responder@
    }

    /// Capacity of the work queue.
    pub closed spec fn spec_work_capacity(&self) -> nat {
        self.work_queue.spec_capacity()
    }

    /// Capacity of the response queue.
    pub closed spec fn spec_response_capacity(&self) -> nat {
        self.responder.spec_capacity()
    }

    /// Whether this host provides a work executor at all.
    pub closed spec fn spec_has_executor(&self) -> bool {
        self.has_executor
    }

    /// Neither queue ever exceeds its capacity.
    pub open spec fn wf(&self) -> bool {
        &&& self.spec_work_queue().len() <= self.spec_work_capacity()
        &&& self.spec_responses().len() <= self.spec_response_capacity()
    }

    /// A host with an executor and empty queues of the given capacities.
    pub fn new(work_capacity: usize, response_capacity: usize) -> (h: WorkerHost)
        ensures
            h.spec_work_queue() == Seq::<Seq<u8>>::empty(),
            h.spec_responses() == Seq::<Seq<u8>>::empty(),
            h.spec_work_capacity() == work_capacity,
            h.spec_response_capacity() == response_capacity,
            h.spec_has_executor(),
            h.wf(),
    {
        WorkerHost {
            work_queue: BoundedQueue::new(work_capacity),
            responder: Responder::new(response_capacity),
            has_executor: true,
        }
    }

    /// A host that offers no work executor: every submission reports
    /// `Unsupported`, a valid configuration the component must tolerate.
    pub fn without_executor() -> (h: WorkerHost)
        ensures
            h.spec_work_queue() == Seq::<Seq<u8>>::empty(),
            h.spec_responses() == Seq::<Seq<u8>>::empty(),
            !h.spec_has_executor(),
            h.wf(),
    {
        WorkerHost {
            work_queue: BoundedQueue::new(0),
            responder: Responder::new(0),
            has_executor: false,
        }
    }

    /// Non-blocking submission of one self-contained payload from the
    /// real-time side (the scheduling handle's only operation).
    ///
    /// On `Submitted`, exactly one future work invocation for this payload
    /// is owed.  On `QueueFull` or `Unsupported` nothing changed and no
    /// work will occur for the payload; both are normal outcomes, never
    /// escalated to a fatal error.
    pub fn submit(&mut self, payload: Vec<u8>) -> (s: SubmitStatus)
        ensures
            final(self).spec_work_capacity() == old(self).spec_work_capacity(),
            final(self).spec_response_capacity() == old(self).spec_response_capacity(),
            final(self).spec_has_executor() == old(self).spec_has_executor(),
            final(self).spec_responses() == old(self).spec_responses(),
            final(self).spec_work_queue() == spec_submit(
                old(self).spec_work_queue(),
                old(self).spec_work_capacity(),
                old(self).spec_has_executor(),
                payload@,
            ).0,
            s == spec_submit(
                old(self).spec_work_queue(),
                old(self).spec_work_capacity(),
                old(self).spec_has_executor(),
                payload@,
            ).1,
            old(self).wf() ==> final(self).wf(),
    {
        if !self.has_executor {
            SubmitStatus::Unsupported
        } else if self.work_queue.try_push(payload) {
            SubmitStatus::Submitted
        } else {
            SubmitStatus::QueueFull
        }
    }

    /// Execute the next queued work item, if any: dequeue the front
    /// payload and hand it, with a fresh single-use response capability,
    /// to the component's work callback in the work domain.
    ///
    /// Whatever the component does, the responses already pending stay
    /// ahead and at most one item joins them; what more the callback
    /// guarantees arrives through `W::work_post`.
    pub fn execute_next<W: Worker>(&mut self, w: &mut W) -> (r: Option<WorkStatus>)
        ensures
            final(self).spec_work_capacity() == old(self).spec_work_capacity(),
            final(self).spec_response_capacity() == old(self).spec_response_capacity(),
            final(self).spec_has_executor() == old(self).spec_has_executor(),
            old(self).wf() ==> final(self).wf(),
            match r {
                None => {
                    &&& old(self).spec_work_queue().len() == 0
                    &&& final(self).spec_work_queue() == old(self).spec_work_queue()
                    &&& final(self).spec_responses() == old(self).spec_responses()
                    &&& *final(w) == *old(w)
                },
                Some(s) => {
                    &&& old(self).spec_work_queue().len() > 0
                    &&& final(self).spec_work_queue() == old(self).spec_work_queue().drop_first()
                    &&& W::work_post(
                        *old(w),
                        *final(w),
                        old(self).spec_work_queue()[0],
                        old(self).spec_response_capacity(),
                        old(self).spec_responses(),
                        final(self).spec_responses(),
                        s,
                    )
                    &&& old(self).spec_responses().is_prefix_of(final(self).spec_responses())
                    &&& final(self).spec_responses().len() <= old(self).spec_responses().len() + 1
                },
            },
    {
        match self.work_queue.pop_front() {
            None => None,
            Some(item) => {
                self.responder.refresh();
                let s = w.work(&mut self.responder, item);
                Some(s)
            },
        }
    }

    /// Deliver the next pending response item, if any, to the component's
    /// response callback on the real-time path.  Deliveries happen in the
    /// order the responses were enqueued.
    pub fn deliver_next<W: Worker>(&mut self, w: &mut W) -> (r: Option<WorkStatus>)
        ensures
            final(self).spec_work_capacity() == old(self).spec_work_capacity(),
            final(self).spec_response_capacity() == old(self).spec_response_capacity(),
            final(self).spec_has_executor() == old(self).spec_has_executor(),
            final(self).spec_work_queue() == old(self).spec_work_queue(),
            old(self).wf() ==> final(self).wf(),
            match r {
                None => {
                    &&& old(self).spec_responses().len() == 0
                    &&& final(self).spec_responses() == old(self).spec_responses()
                    &&& *final(w) == *old(w)
                },
                Some(s) => {
                    &&& old(self).spec_responses().len() > 0
                    &&& final(self).spec_responses() == old(self).spec_responses().drop_first()
                    &&& W::response_post(*old(w), *final(w), old(self).spec_responses()[0], s)
                },
            },
    {
        match self.responder.take_next() {
            None => None,
            Some(item) => Some(w.work_response(item)),
        }
    }

    /// Finish the current cycle: deliver every pending response item in
    /// order, then fire the end-of-cycle notification exactly once.
    pub fn finish_cycle<W: Worker>(&mut self, w: &mut W) -> (s: WorkStatus)
        ensures
            final(self).spec_work_capacity() == old(self).spec_work_capacity(),
            final(self).spec_response_capacity() == old(self).spec_response_capacity(),
            final(self).spec_has_executor() == old(self).spec_has_executor(),
            final(self).spec_work_queue() == old(self).spec_work_queue(),
            final(self).spec_responses().len() == 0,
            old(self).wf() ==> final(self).wf(),
            exists|mid: W|
                #[trigger] spec_delivered_all::<W>(*old(w), old(self).spec_responses(), mid)
                    && W::end_run_post(mid, *final(w), s),
    {
        let ghost all = self.responder@;
        let ghost mut k: int = 0;
        while self.responder.pending() > 0
            invariant
                0 <= k <= all.len(),
                self.responder@ == all.skip(k),
                self.responder.spec_capacity() == old(self).spec_response_capacity(),
                old(self).wf() ==> self.responder.wf(),
                self.work_queue == old(self).work_queue,
                self.has_executor == old(self).has_executor,
                spec_delivered_all::<W>(*old(w), all.take(k), *w),
                all == old(self).spec_responses(),
            decreases all.len() - k,
        {
            match self.responder.take_next() {
                Some(item) => {
                    proof {
                        assert(all.skip(k)[0] == all[k]);
                    }
                    let ghost w_pre = *w;
                    let ghost iv = item@;
                    let s0 = w.work_response(item);
                    proof {
                        lemma_delivered_all_snoc::<W>(*old(w), all.take(k), w_pre, iv, *w, s0);
                        assert(all.take(k).push(all[k]) =~= all.take(k + 1));
                        k = k + 1;
                        assert(all.skip(k - 1).drop_first() =~= all.skip(k));
                    }
                },
                None => {
                    proof {
                        assert(false);
                    }
                },
            }
        }
        proof {
            assert(all.take(k) =~= all);
        }
        let ghost mid = *w;
        let s = w.end_run();
        proof {
            assert(spec_delivered_all::<W>(*old(w), old(self).spec_responses(), mid)
                && W::end_run_post(mid, *w, s));
        }
        s
    }
}

/// For the doubling component, finishing a cycle appends one response
/// event per pending item, in delivery order; with the end-of-cycle
/// notification fired afterwards, its log ends Work…, Response…, EndRun.
pub proof fn lemma_doubling_delivery_events(
    pre: DoublingWorker,
    responses: Seq<Seq<u8>>,
    post: DoublingWorker,
)
    requires
        spec_delivered_all::<DoublingWorker>(pre, responses, post),
    ensures
        post.spec_events() == pre.spec_events() + responses.map_values(
            |p: Seq<u8>| EventView::Response(p),
        ),
    decreases responses.len(),
{
    let tagged = responses.map_values(|p: Seq<u8>| EventView::Response(p));
    if responses.len() == 0 {
        assert(pre.spec_events() + tagged =~= pre.spec_events());
    } else {
        let (m, s0) = choose|m: DoublingWorker, s0: WorkStatus|
            #[trigger] <DoublingWorker as Worker>::response_post(
                pre,
                m,
                responses.first(),
                s0,
            ) && spec_delivered_all::<DoublingWorker>(
                m,
                responses.drop_first(),
                post,
            );
        lemma_doubling_delivery_events(m, responses.drop_first(), post);
        let rest_tagged = responses.drop_first().map_values(
            |p: Seq<u8>| EventView::Response(p),
        );
        assert(m.spec_events() == pre.spec_events().push(
            EventView::Response(responses.first()),
        ));
        assert(post.spec_events() == m.spec_events() + rest_tagged);
        assert forall|i: int| 0 <= i < tagged.len() implies tagged[i]
            == (pre.spec_events().push(EventView::Response(responses.first()))
            + rest_tagged)[i + pre.spec_events().len()] by {
            if i > 0 {
                assert(rest_tagged[i - 1] == EventView::Response(
                    responses.drop_first()[i - 1],
                ));
            }
        }
        assert(pre.spec_events() + tagged =~= pre.spec_events().push(
            EventView::Response(responses.first()),
        ) + rest_tagged);
    }
}

/// Round-trip: a payload accepted by submission joins the work queue
/// byte-for-byte, at the position from which a FIFO executor will hand
/// exactly it to the work callback once the earlier items are executed.
pub proof fn lemma_round_trip(q: Seq<Seq<u8>>, cap: nat, p: Seq<u8>)
    requires
        q.len() < cap,
    ensures
        spec_submit(q, cap, true, p).1 == SubmitStatus::Submitted,
        spec_submit(q, cap, true, p).0.len() == q.len() + 1,
        spec_submit(q, cap, true, p).0[q.len() as int] == p,
{
}

/// Ordering: payloads submitted in order occupy consecutive positions of
/// the work queue, so a FIFO executor hands them to the work callback,
/// and their responses are enqueued and delivered, in that same order.
pub proof fn lemma_submission_order(
    q: Seq<Seq<u8>>,
    cap: nat,
    p1: Seq<u8>,
    p2: Seq<u8>,
    p3: Seq<u8>,
)
    requires
        q.len() + 3 <= cap,
    ensures
        ({
            let (qa, sa) = spec_submit(q, cap, true, p1);
            let (qb, sb) = spec_submit(qa, cap, true, p2);
            let (qc, sc) = spec_submit(qb, cap, true, p3);
            &&& sa == SubmitStatus::Submitted
            &&& sb == SubmitStatus::Submitted
            &&& sc == SubmitStatus::Submitted
            &&& qc == q + seq![p1, p2, p3]
        }),
{
    let (qa, sa) = spec_submit(q, cap, true, p1);
    let (qb, sb) = spec_submit(qa, cap, true, p2);
    let (qc, sc) = spec_submit(qb, cap, true, p3);
    assert(qc =~= q + seq![p1, p2, p3]);
}

/// Backpressure: submitting to a full work queue reports `QueueFull` and
/// leaves the queue unchanged, so no work invocation will ever occur for
/// that payload.
pub proof fn lemma_backpressure(q: Seq<Seq<u8>>, cap: nat, p: Seq<u8>)
    requires
        q.len() >= cap,
    ensures
        spec_submit(q, cap, true, p).0 == q,
        spec_submit(q, cap, true, p).1 == SubmitStatus::QueueFull,
{
}

/// First-in first-out: after `k` items of a queue are consumed from the
/// front, the next one handed out is exactly the `k`-th.
pub proof fn lemma_fifo_order(q: Seq<Seq<u8>>, k: int)
    requires
        0 <= k < q.len(),
    ensures
        q.skip(k)[0] == q[k],
{
}

} // verus!
