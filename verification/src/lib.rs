//! A delayed invoker, as a verified core.
//!
//! A scheduled invocation waits until its deadline and then runs a callback
//! once, unless it was cancelled first. This crate holds the decisions of
//! that life cycle: how long is left to wait, and whether to dispatch
//! the callback after waking. Threads, clocks and sleeping belong to the
//! host that drives it.

pub mod flag;
pub mod laws;
pub mod model;
pub mod span;
pub mod waiter;

pub use flag::CancelFlag;
pub use model::Phase;
pub use span::Span;
pub use waiter::{Action, Event, Waiter};
