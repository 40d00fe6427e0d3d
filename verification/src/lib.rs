//! A verified model of a deferred-work subsystem for real-time components.
//!
//! A real-time processing cycle must never block, lock, or allocate
//! unpredictably.  Work that needs any of that is handed off, as a
//! self-contained byte payload, to a separate work context through a bounded
//! queue; the result comes back through a second bounded queue and is
//! delivered to the component before or during a later cycle, in first-in
//! first-out order.
//!
//! The crate models each piece of that protocol with an explicit contract:
//! the capability registry that hosts use to discover the extension, the
//! payload codec, the bounded queues, the single-use response capability,
//! the per-item state machine, and the host driver that ties them together.
//! Companion modules hold the verified decision logic of the build helper
//! that packages such components.

pub mod build_plan;
pub mod cli;
pub mod codec;
pub mod host;
pub mod queue;
pub mod registry;
pub mod responder;
pub mod state;
pub mod status;
pub mod textops;
pub mod worker;
