//! What the shell asks of the windowing host, and what the host answers.

use vstd::prelude::*;

verus! {

/// A request to the host that concerns the shell's window.
#[derive(Debug, Clone, Copy, PartialEq, Eq)]
pub enum HostCall {
    /// Look the window up by its label.
    FindWindow(&'static str),
    /// Keep the window above all others, or stop doing so.
    SetAlwaysOnTop(bool),
    /// Show or hide the title bar and borders that the host draws.
    SetDecorations(bool),
    /// Close the window.
    CloseWindow,
}

/// The mathematical value of a [`HostCall`].
pub enum HostCallView {
    FindWindow(Seq<char>),
    SetAlwaysOnTop(bool),
    SetDecorations(bool),
    CloseWindow,
}

impl View for HostCall {
    type V = HostCallView;

    open spec fn view(&self) -> HostCallView {
        match *self {
            HostCall::FindWindow(label) => HostCallView::FindWindow(label@),
            HostCall::SetAlwaysOnTop(on) => HostCallView::SetAlwaysOnTop(on),
            HostCall::SetDecorations(on) => HostCallView::SetDecorations(on),
            HostCall::CloseWindow => HostCallView::CloseWindow,
        }
    }
}

/// How the host answered a request.
#[derive(Debug, Clone, PartialEq, Eq)]
pub enum HostOutcome {
    /// The host did what was asked.
    Done,
    /// The host did not, and gave this reason. A lookup that finds nothing
    /// has no reason to give; its text may be empty.
    Failed(String),
}

/// The mathematical value of a [`HostOutcome`].
pub enum HostOutcomeView {
    Done,
    Failed(Seq<char>),
}

impl View for HostOutcome {
    type V = HostOutcomeView;

    open spec fn view(&self) -> HostOutcomeView {
        match *self {
            HostOutcome::Done => HostOutcomeView::Done,
            HostOutcome::Failed(reason) => HostOutcomeView::Failed(reason@),
        }
    }
}

/// The window as the host holds it: whether it is still open, and the two
/// attributes that the shell sets.
pub struct WindowState {
    pub open: bool,
    pub always_on_top: bool,
    pub decorations: bool,
}

/// What a request does to the window. A request that the host carries out
/// takes effect: an attribute takes the value asked for, a closed window is
/// no longer open. A lookup, and any request that the host declines, leaves
/// the window as it was.
pub open spec fn host_effect(
    window: WindowState,
    call: HostCallView,
    outcome: HostOutcomeView,
) -> WindowState {
    match (call, outcome) {
        (HostCallView::SetAlwaysOnTop(on), HostOutcomeView::Done) => WindowState {
            always_on_top: on,
            ..window
        },
        (HostCallView::SetDecorations(on), HostOutcomeView::Done) => WindowState {
            decorations: on,
            ..window
        },
        (HostCallView::CloseWindow, HostOutcomeView::Done) => WindowState { open: false, ..window },
        _ => window,
    }
}

} // verus!
