//! A verified model of a reactive asynchronous resource supervisor.
//!
//! The library supervises one user-supplied asynchronous computation: it
//! tracks which reactive cells the computation reads while it is polled,
//! restarts the computation when one of those cells is later mutated, and
//! exposes a control surface (`restart`, `cancel`, `pause`, `resume`) over
//! the current run together with the latest produced value and a lifecycle
//! state.
//!
//! The asynchronous machinery itself (an executor, futures, wakers) cannot
//! be expressed here, so the supervisor is modelled as a state machine whose
//! transitions are ordinary verified functions: the surrounding runtime
//! performs the opaque steps (polling the user computation, delivering a
//! mutation, letting the restart loop run) and reports each step as an event.
//! Every decision the supervisor makes on such an event is verified.

pub mod laws;
pub mod resource;
pub mod sched;
pub mod scope;
pub mod state;
