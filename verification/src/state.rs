//! The lifecycle state machine of a resource's current run.

use vstd::prelude::*;

verus! {

/// The lifecycle of the current run of a resource.
///
/// The state starts at `Pending` when the first run is spawned. Natural
/// completion of a run moves it to `Ready`; the control surface moves it to
/// `Stopped` (`cancel`), `Paused` (`pause`) or back to `Pending` (`resume`
/// from `Paused`). A restart deliberately leaves the state untouched.
#[derive(Clone, Copy, PartialEq, Eq, Structural, Debug, Hash)]
pub enum UseResourceState {
    /// A run is outstanding and has not produced a value yet.
    Pending,
    /// The current run was forcefully stopped.
    Stopped,
    /// Polling of the current run is suspended by explicit request.
    Paused,
    /// A run completed normally and its value is available.
    Ready,
}

impl UseResourceState {
    /// A state is finished when the current run has reached a terminal
    /// outcome for its value: it either completed (`Ready`) or was
    /// forcefully stopped (`Stopped`).
    pub open spec fn spec_is_finished(self) -> bool {
        self == UseResourceState::Ready || self == UseResourceState::Stopped
    }

    /// Whether this state is terminal for the current run's value.
    pub fn is_finished(self) -> (r: bool)
        ensures
            r == self.spec_is_finished(),
    {
        match self {
            UseResourceState::Ready => true,
            UseResourceState::Stopped => true,
            _ => false,
        }
    }
}

} // verus!
