//! The state machine governing a single unit of work.
//!
//! A work item is created on the real-time side, submitted, and — unless
//! the queue was full — dispatched and executed in the work domain.  An
//! execution either produces a response that is later delivered back, or
//! finishes without one, or fails.  Rejection at submission, completion
//! without a response, failure, and delivery are terminal: no transition
//! leaves them.  There is no mid-flight cancellation — once dispatched, a
//! unit of work runs to completion.

use vstd::prelude::*;

verus! {

/// The lifecycle position of one unit of work.
#[derive(Clone, Copy, Debug, PartialEq, Eq, Structural)]
pub enum WorkState {
    /// Created on the real-time side, not yet submitted.
    Created,
    /// Handed to the scheduling handle.
    Submitted,
    /// Rejected at submission because the work queue was full; no work
    /// will ever occur for this item.
    QueueFull,
    /// Accepted into the work queue.
    Dispatched,
    /// The work callback is running in the work domain.
    Executing,
    /// The work callback finished and enqueued a response item.
    CompletedWithResponse,
    /// The work callback finished without producing a response, which is
    /// legitimate (for example on an internal failure it absorbed).
    CompletedWithoutResponse,
    /// The work callback failed; logged, the rest of the system continues.
    Failed,
    /// The response item was delivered back to the real-time side.
    Delivered,
}

/// The transitions the protocol permits for a single unit of work.
pub open spec fn spec_step_allowed(a: WorkState, b: WorkState) -> bool {
    match a {
        WorkState::Created => b == WorkState::Submitted,
        WorkState::Submitted => b == WorkState::QueueFull || b == WorkState::Dispatched,
        WorkState::Dispatched => b == WorkState::Executing,
        WorkState::Executing => {
            ||| b == WorkState::CompletedWithResponse
            ||| b == WorkState::CompletedWithoutResponse
            ||| b == WorkState::Failed
        },
        WorkState::CompletedWithResponse => b == WorkState::Delivered,
        WorkState::QueueFull => false,
        WorkState::CompletedWithoutResponse => false,
        WorkState::Failed => false,
        WorkState::Delivered => false,
    }
}

/// The states a unit of work never leaves.
pub open spec fn spec_terminal(s: WorkState) -> bool {
    ||| s == WorkState::QueueFull
    ||| s == WorkState::CompletedWithoutResponse
    ||| s == WorkState::Failed
    ||| s == WorkState::Delivered
}

impl WorkState {
    /// Whether this unit of work is finished for good.
    pub fn is_terminal(&self) -> (r: bool)
        ensures
            r == spec_terminal(*self),
    {
        match self {
            WorkState::QueueFull => true,
            WorkState::CompletedWithoutResponse => true,
            WorkState::Failed => true,
            WorkState::Delivered => true,
            _ => false,
        }
    }

    /// Take one lifecycle step: the next state when the protocol permits
    /// it, `None` — and no state change anywhere — when it does not.
    pub fn advance(self, next: WorkState) -> (r: Option<WorkState>)
        ensures
            spec_step_allowed(self, next) ==> r == Some(next),
            !spec_step_allowed(self, next) ==> r is None,
    {
        let allowed = match self {
            WorkState::Created => next == WorkState::Submitted,
            WorkState::Submitted => next == WorkState::QueueFull || next == WorkState::Dispatched,
            WorkState::Dispatched => next == WorkState::Executing,
            WorkState::Executing => {
                next == WorkState::CompletedWithResponse
                    || next == WorkState::CompletedWithoutResponse
                    || next == WorkState::Failed
            },
            WorkState::CompletedWithResponse => next == WorkState::Delivered,
            _ => false,
        };
        if allowed {
            Some(next)
        } else {
            None
        }
    }
}

/// Terminal really means terminal: no transition leaves a terminal state.
pub proof fn lemma_terminal_is_final(a: WorkState, b: WorkState)
    requires
        spec_terminal(a),
    ensures
        !spec_step_allowed(a, b),
{
}

/// Every non-terminal state can still move: the machine never strands a
/// live unit of work.
pub proof fn lemma_nonterminal_progress(a: WorkState)
    requires
        !spec_terminal(a),
    ensures
        exists|b: WorkState| spec_step_allowed(a, b),
{
    match a {
        WorkState::Created => {
            assert(spec_step_allowed(a, WorkState::Submitted));
        },
        WorkState::Submitted => {
            assert(spec_step_allowed(a, WorkState::Dispatched));
        },
        WorkState::Dispatched => {
            assert(spec_step_allowed(a, WorkState::Executing));
        },
        WorkState::Executing => {
            assert(spec_step_allowed(a, WorkState::Failed));
        },
        WorkState::CompletedWithResponse => {
            assert(spec_step_allowed(a, WorkState::Delivered));
        },
        _ => {
        },
    }
}

} // verus!
