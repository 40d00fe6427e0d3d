//! Status values crossing the extension boundary.
//!
//! The extension's function-pointer table returns a small enumerated integer
//! from every callback: `0` for success, `1` for an opaque failure, and `2`
//! when a bounded queue had no room.  Submission from the real-time side has
//! its own three-way outcome, which is never an error: backpressure and a
//! missing executor are normal results the caller must expect.

use vstd::prelude::*;

verus! {

/// Outcome of a work, response, or end-of-cycle callback.
///
/// No value of this type aborts anything: a failed callback means "this one
/// unit of work did not complete" while every other unit continues normally.
#[derive(Clone, Copy, Debug, PartialEq, Eq, Structural)]
pub enum WorkStatus {
    /// The callback completed its unit of work.
    Success,
    /// Opaque failure inside the callback; the unit of work is abandoned.
    Unknown,
    /// A response could not be enqueued because the queue was full;
    /// the response is lost and the real-time side is never notified.
    NoSpace,
}

impl WorkStatus {
    /// The integer carried for this status across the C-style boundary.
    pub open spec fn spec_code(self) -> u32 {
        match self {
            WorkStatus::Success => 0,
            WorkStatus::Unknown => 1,
            WorkStatus::NoSpace => 2,
        }
    }

    /// Encode this status as its boundary integer.
    pub fn code(&self) -> (c: u32)
        ensures
            c == self.spec_code(),
    {
        match self {
            WorkStatus::Success => 0,
            WorkStatus::Unknown => 1,
            WorkStatus::NoSpace => 2,
        }
    }

    /// Decode a boundary integer; integers above `2` name no status.
    pub fn from_code(c: u32) -> (r: Option<WorkStatus>)
        ensures
            match r {
                Some(s) => s.spec_code() == c,
                None => c > 2,
            },
    {
        if c == 0 {
            Some(WorkStatus::Success)
        } else if c == 1 {
            Some(WorkStatus::Unknown)
        } else if c == 2 {
            Some(WorkStatus::NoSpace)
        } else {
            None
        }
    }
}

/// Distinct statuses carry distinct boundary integers, and every code
/// stays within the three the boundary defines.
pub proof fn lemma_status_code_injective(s: WorkStatus)
    ensures
        forall|t: WorkStatus| s.spec_code() == t.spec_code() ==> s == t,
        s.spec_code() <= 2,
{
}

/// Immediate result of submitting a work payload from the real-time side.
#[derive(Clone, Copy, Debug, PartialEq, Eq, Structural)]
pub enum SubmitStatus {
    /// The payload was accepted: exactly one future work invocation for it
    /// is owed (absent process termination).
    Submitted,
    /// Backpressure: the work queue was at capacity and no work will occur
    /// for this payload.  A normal outcome under load, never fatal.
    QueueFull,
    /// The host provides no work executor at all.
    Unsupported,
}

} // verus!
