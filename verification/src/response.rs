//! The responses that a server sends back to a client.
use vstd::prelude::*;

use crate::timer::{Timer, TimerView};

verus! {

/// The server response.
///
/// Responses are sent by servers and received by clients.
#[derive(Debug, PartialEq, Eq)]
pub enum Response {
    /// The request was carried out.
    Done,
    /// The current timer.
    Timer(Timer),
}

/// The abstract value of a response.
pub enum ResponseView {
    Done,
    Timer(TimerView),
}

impl View for Response {
    type V = ResponseView;

    open spec fn view(&self) -> ResponseView {
        match self {
            Response::Done => ResponseView::Done,
            Response::Timer(t) => ResponseView::Timer(t@),
        }
    }
}

impl Clone for Response {
    fn clone(&self) -> (r: Self)
        ensures
            r@ == self@,
    {
        match self {
            Response::Done => Response::Done,
            Response::Timer(t) => Response::Timer(t.clone()),
        }
    }
}

} // verus!
