//! The component side of the worker extension.
//!
//! A component implements [`Worker`]: a `work` callback that runs in the
//! work domain and may block, allocate and perform I/O, and two callbacks
//! on the real-time path — `work_response` for each delivered response
//! item and `end_run` once all of a cycle's responses are in.  Every
//! implementation states what its callbacks guarantee through spec
//! functions that the host driver's contracts propagate to callers.

use vstd::prelude::*;
use crate::responder::Responder;
use crate::responder::responder_step;
use crate::status::WorkStatus;

verus! {

/// Ghost image of one protocol event as a component observes it.
pub enum EventView {
    /// The work callback received this payload.
    Work(Seq<u8>),
    /// The response callback delivered this payload.
    Response(Seq<u8>),
    /// The end-of-cycle notification fired.
    EndRun,
}

/// One protocol event as a component records it.
#[derive(Debug, PartialEq, Eq)]
pub enum WorkerEvent {
    /// The work callback received this payload.
    Work(Vec<u8>),
    /// The response callback delivered this payload.
    Response(Vec<u8>),
    /// The end-of-cycle notification fired.
    EndRun,
}

impl View for WorkerEvent {
    type V = EventView;

    open spec fn view(&self) -> EventView {
        match self {
            WorkerEvent::Work(p) => EventView::Work(p@),
            WorkerEvent::Response(p) => EventView::Response(p@),
            WorkerEvent::EndRun => EventView::EndRun,
        }
    }
}

/// What the first `respond` call of an invocation does to the pending
/// responses: enqueued when there is room, lost otherwise.
pub open spec fn spec_first_respond(
    cap: nat,
    pre: Seq<Seq<u8>>,
    p: Seq<u8>,
) -> (Seq<Seq<u8>>, WorkStatus) {
    if pre.len() < cap {
        (pre.push(p), WorkStatus::Success)
    } else {
        (pre, WorkStatus::NoSpace)
    }
}

/// A component implementing the worker extension.
///
/// The host hands `work` a fresh single-use [`Responder`]; whatever the
/// callback does, at most one response item is enqueued per invocation
/// and the items already pending stay ahead of it.
pub trait Worker: Sized {
    /// What this component's `work` callback guarantees: how the component
    /// and the pending responses (under the response queue's capacity)
    /// change for the payload received, and which status comes back.
    spec fn work_post(
        pre: Self,
        post: Self,
        data: Seq<u8>,
        resp_cap: nat,
        pre_responses: Seq<Seq<u8>>,
        post_responses: Seq<Seq<u8>>,
        s: WorkStatus,
    ) -> bool;

    /// What this component's `work_response` callback guarantees for one
    /// delivered response item.
    spec fn response_post(pre: Self, post: Self, data: Seq<u8>, s: WorkStatus) -> bool;

    /// What this component's `end_run` callback guarantees.
    spec fn end_run_post(pre: Self, post: Self, s: WorkStatus) -> bool;

    /// The deferred-work callback.  Runs in the work domain; consumes the
    /// payload exactly once and may call `responder.respond` at most
    /// effectively once.
    fn work(&mut self, responder: &mut Responder, data: Vec<u8>) -> (s: WorkStatus)
        requires
            !old(responder).spec_used(),
        ensures
            responder_step(*old(responder), *final(responder)),
            Self::work_post(
                *old(self),
                *final(self),
                data@,
                old(responder).spec_capacity(),
                old(responder)@,
                final(responder)@,
                s,
            ),
    ;

    /// The response-delivery callback.  Runs on the real-time path, once
    /// per delivered response item, in delivery order.
    fn work_response(&mut self, data: Vec<u8>) -> (s: WorkStatus)
        ensures
            Self::response_post(*old(self), *final(self), data@, s),
    ;

    /// The end-of-cycle notification: fires once after all of a cycle's
    /// response deliveries.
    fn end_run(&mut self) -> (s: WorkStatus)
        ensures
            Self::end_run_post(*old(self), *final(self), s),
    ;
}

/// The rising-edge decision for a trigger control sampled once per cycle:
/// schedule one unit of work exactly when the control has just crossed
/// from inactive to active, and remember the level for the next cycle.
pub fn trigger_transition(active: bool, last: bool) -> (r: (bool, bool))
    ensures
        r.0 == (active && !last),
        r.1 == active,
{
    (active && !last, active)
}

/// Each byte doubled, modulo 256.
pub open spec fn spec_doubled(p: Seq<u8>) -> Seq<u8> {
    p.map_values(|b: u8| ((b as int * 2) % 256) as u8)
}

/// Double every byte of a payload, modulo 256.
pub fn double_bytes(p: &Vec<u8>) -> (r: Vec<u8>)
    ensures
        r@ == spec_doubled(p@),
{
    let mut r: Vec<u8> = Vec::new();
    let mut i: usize = 0;
    while i < p.len()
        invariant
            i <= p.len(),
            r@.len() == i,
            forall|j: int| 0 <= j < i ==> r@[j] == spec_doubled(p@)[j],
        decreases p.len() - i,
    {
        let b = p[i];
        let d: u8 = ((b as u16 * 2) % 256) as u8;
        r.push(d);
        i += 1;
    }
    proof {
        assert(r@ =~= spec_doubled(p@));
    }
    r
}

/// A component that logs every event and answers each work payload with
/// the same bytes doubled: the work callback records what it received and
/// responds exactly once.
pub struct DoublingWorker {
    /// Every protocol event this component observed, in order.
    pub events: Vec<WorkerEvent>,
}

impl DoublingWorker {
    /// The ghost event log.
    pub open spec fn spec_events(&self) -> Seq<EventView> {
        self.events@.map_values(|e: WorkerEvent| e@)
    }

    /// A component that has observed nothing yet.
    pub fn new() -> (w: DoublingWorker)
        ensures
            w.spec_events() == Seq::<EventView>::empty(),
    {
        let w = DoublingWorker { events: Vec::new() };
        proof {
            assert(w.spec_events() =~= Seq::<EventView>::empty());
        }
        w
    }

    /// The recorded events, for inspection from outside the model.
    pub fn events(&self) -> (r: &Vec<WorkerEvent>)
        ensures
            r@.map_values(|e: WorkerEvent| e@) == self.spec_events(),
    {
        &self.events
    }
}

impl Worker for DoublingWorker {
    open spec fn work_post(
        pre: Self,
        post: Self,
        data: Seq<u8>,
        resp_cap: nat,
        pre_responses: Seq<Seq<u8>>,
        post_responses: Seq<Seq<u8>>,
        s: WorkStatus,
    ) -> bool {
        &&& post.spec_events() == pre.spec_events().push(EventView::Work(data))
        &&& post_responses == spec_first_respond(resp_cap, pre_responses, spec_doubled(data)).0
        &&& s == spec_first_respond(resp_cap, pre_responses, spec_doubled(data)).1
    }

    open spec fn response_post(pre: Self, post: Self, data: Seq<u8>, s: WorkStatus) -> bool {
        &&& post.spec_events() == pre.spec_events().push(EventView::Response(data))
        &&& s == WorkStatus::Success
    }

    open spec fn end_run_post(pre: Self, post: Self, s: WorkStatus) -> bool {
        &&& post.spec_events() == pre.spec_events().push(EventView::EndRun)
        &&& s == WorkStatus::Success
    }

    fn work(&mut self, responder: &mut Responder, data: Vec<u8>) -> (s: WorkStatus) {
        let ghost d = data@;
        let doubled = double_bytes(&data);
        self.events.push(WorkerEvent::Work(data));
        proof {
            assert(self.spec_events() =~= old(self).spec_events().push(EventView::Work(d)));
        }
        responder.respond(doubled)
    }

    fn work_response(&mut self, data: Vec<u8>) -> (s: WorkStatus) {
        self.events.push(WorkerEvent::Response(data));
        proof {
            assert(self.spec_events() =~= old(self).spec_events().push(
                EventView::Response(data@),
            ));
        }
        WorkStatus::Success
    }

    fn end_run(&mut self) -> (s: WorkStatus) {
        self.events.push(WorkerEvent::EndRun);
        proof {
            assert(self.spec_events() =~= old(self).spec_events().push(EventView::EndRun));
        }
        WorkStatus::Success
    }
}

/// A component whose work callback breaks the protocol by calling
/// `respond` twice — first with the payload echoed back, then with an
/// empty payload.  The capability makes the second call a no-op, so
/// exactly one response (the echo) is ever enqueued; the component keeps
/// every delivered response so the single delivery can be observed.
pub struct EchoTwiceWorker {
    /// Every response payload delivered back to this component, in order.
    pub delivered: Vec<Vec<u8>>,
}

impl EchoTwiceWorker {
    /// The ghost log of delivered responses.
    pub open spec fn spec_delivered(&self) -> Seq<Seq<u8>> {
        self.delivered@.map_values(|p: Vec<u8>| p@)
    }

    /// A component with nothing delivered yet.
    pub fn new() -> (w: EchoTwiceWorker)
        ensures
            w.spec_delivered() == Seq::<Seq<u8>>::empty(),
    {
        let w = EchoTwiceWorker { delivered: Vec::new() };
        proof {
            assert(w.spec_delivered() =~= Seq::<Seq<u8>>::empty());
        }
        w
    }
}

impl Worker for EchoTwiceWorker {
    open spec fn work_post(
        pre: Self,
        post: Self,
        data: Seq<u8>,
        resp_cap: nat,
        pre_responses: Seq<Seq<u8>>,
        post_responses: Seq<Seq<u8>>,
        s: WorkStatus,
    ) -> bool {
        // Only the first respond call counts; the repeated call enqueues
        // nothing and does not disturb the status of the first.
        &&& post == pre
        &&& post_responses == spec_first_respond(resp_cap, pre_responses, data).0
        &&& s == spec_first_respond(resp_cap, pre_responses, data).1
    }

    open spec fn response_post(pre: Self, post: Self, data: Seq<u8>, s: WorkStatus) -> bool {
        &&& post.spec_delivered() == pre.spec_delivered().push(data)
        &&& s == WorkStatus::Success
    }

    open spec fn end_run_post(pre: Self, post: Self, s: WorkStatus) -> bool {
        &&& post == pre
        &&& s == WorkStatus::Success
    }

    fn work(&mut self, responder: &mut Responder, data: Vec<u8>) -> (s: WorkStatus) {
        let first = responder.respond(data);
        let second = responder.respond(Vec::new());
        proof {
            assert(second == WorkStatus::Unknown);
        }
        first
    }

    fn work_response(&mut self, data: Vec<u8>) -> (s: WorkStatus) {
        let ghost d = data@;
        self.delivered.push(data);
        proof {
            assert(self.spec_delivered() =~= old(self).spec_delivered().push(d));
        }
        WorkStatus::Success
    }

    fn end_run(&mut self) -> (s: WorkStatus) {
        WorkStatus::Success
    }
}

} // verus!
