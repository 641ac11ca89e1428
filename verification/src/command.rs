//! The one command that the user interface can invoke: closing the window.
//!
//! The command has two halves. [`close_request`] is what it asks of the
//! host; [`close_window`] takes the host's answer and gives the command's
//! reply.

use vstd::prelude::*;
use crate::error::describe;
use crate::host::{host_effect, HostCall, HostCallView, HostOutcome, HostOutcomeView, WindowState};

verus! {

/// The request that the command makes of the host.
pub open spec fn close_call() -> HostCallView {
    HostCallView::CloseWindow
}

/// What precedes the host's reason when the window could not be closed.
pub open spec fn close_prefix() -> Seq<char> {
    "Failed to close window: "@
}

/// The request that the command makes of the host: to close the window, and
/// nothing besides.
pub fn close_request() -> (call: HostCall)
    ensures
        call@ == close_call(),
{
    HostCall::CloseWindow
}

/// Answers the close command, given how the host answered the request to
/// close the window: with nothing when the window was closed, else with one
/// line made of a fixed wording and the host's reason. A failure is reported
/// to the caller as that text and is nothing worse: the shell keeps running.
pub fn close_window(outcome: HostOutcome) -> (reply: Result<(), String>)
    ensures
        outcome@ is Done ==> reply is Ok,
        outcome@ matches HostOutcomeView::Failed(reason) ==> reply matches Err(line) && line@
            == close_prefix() + reason,
{
    match outcome {
        HostOutcome::Done => Ok(()),
        HostOutcome::Failed(reason) => Err(describe("Failed to close window: ", reason.as_str())),
    }
}

/// When the host closes the window as the command asks, the window is no
/// longer open, and its attributes are as they were. When the host declines,
/// the window is as it was.
pub proof fn lemma_close_request_closes_window(window: WindowState, outcome: HostOutcomeView)
    ensures
        outcome is Done ==> host_effect(window, close_call(), outcome) == (WindowState {
            open: false,
            ..window
        }),
        outcome is Failed ==> host_effect(window, close_call(), outcome) == window,
{
}

} // verus!
