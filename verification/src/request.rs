//! The requests that a client sends to control the timer.
use vstd::prelude::*;

verus! {

/// The client request.
///
/// Requests are sent by clients and received by servers.
#[derive(Clone, Copy, Debug, PartialEq, Eq, Structural)]
pub enum Request {
    /// Start the timer with the first configured cycle.
    Start,
    /// Get the state, the cycle and the value of the timer.
    Get,
    /// Change the duration of the current cycle.
    SetTo(usize),
    /// Pause the timer: it keeps its state, cycle and value until it
    /// is resumed.
    Pause,
    /// Resume the paused timer; no effect on a timer that is not
    /// paused.
    Resume,
    /// Stop the timer, which resets its state, cycle and value.
    Stop,
}

} // verus!
