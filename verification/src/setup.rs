//! The startup sequence: find the window, pin it on top, strip its
//! decorations.
//!
//! The sequence is a small machine. A [`Stage`] names the request that is
//! pending at the host; [`Stage::call`] says what that request is, and
//! [`Stage::advance`] takes the host's answer and says what follows. The
//! caller carries the requests to the host and the answers back.

use vstd::prelude::*;
use crate::error::{SetupError, SetupErrorView};
use crate::host::{HostCall, HostCallView, HostOutcome, HostOutcomeView};

verus! {

/// The step of startup whose request is pending at the host.
#[derive(Debug, Clone, Copy, PartialEq, Eq, Structural)]
pub enum Stage {
    /// The window is being looked up.
    ResolveWindow,
    /// The window was found and is being pinned above the others.
    PinOnTop,
    /// The window is pinned and its decorations are being removed.
    StripDecorations,
}

/// What follows once the host has answered the pending request.
#[derive(Debug, Clone, PartialEq, Eq)]
pub enum Transition {
    /// Startup goes on with the request of this stage.
    Continue(Stage),
    /// The window is configured: startup returns without error and the host
    /// enters its event loop.
    Complete,
    /// Startup is given up with this error: no further request is made, and
    /// the host never enters its event loop.
    Abort(SetupError),
}

/// The mathematical value of a [`Transition`].
pub enum TransitionView {
    Continue(Stage),
    Complete,
    Abort(SetupErrorView),
}

impl View for Transition {
    type V = TransitionView;

    open spec fn view(&self) -> TransitionView {
        match *self {
            Transition::Continue(stage) => TransitionView::Continue(stage),
            Transition::Complete => TransitionView::Complete,
            Transition::Abort(error) => TransitionView::Abort(error@),
        }
    }
}

/// The label under which the host knows the shell's window.
pub open spec fn main_window_label() -> Seq<char> {
    "main"@
}

/// The stage with which startup begins.
pub open spec fn first_stage() -> Stage {
    Stage::ResolveWindow
}

/// The request that a stage makes of the host: the lookup is by the fixed
/// label, the window is pinned (never unpinned), and the decorations are
/// switched off (never on).
pub open spec fn stage_call(stage: Stage) -> HostCallView {
    match stage {
        Stage::ResolveWindow => HostCallView::FindWindow(main_window_label()),
        Stage::PinOnTop => HostCallView::SetAlwaysOnTop(true),
        Stage::StripDecorations => HostCallView::SetDecorations(false),
    }
}

/// What follows a stage, given the host's answer to its request. Success
/// leads to the next stage, and after the last one to completion. Failure
/// ends startup with the error of that stage, which carries the host's
/// reason; a failed lookup has none.
pub open spec fn stage_step(stage: Stage, outcome: HostOutcomeView) -> TransitionView {
    match (stage, outcome) {
        (Stage::ResolveWindow, HostOutcomeView::Done) => TransitionView::Continue(Stage::PinOnTop),
        (Stage::ResolveWindow, HostOutcomeView::Failed(_)) => TransitionView::Abort(
            SetupErrorView::WindowNotFound,
        ),
        (Stage::PinOnTop, HostOutcomeView::Done) => TransitionView::Continue(
            Stage::StripDecorations,
        ),
        (Stage::PinOnTop, HostOutcomeView::Failed(reason)) => TransitionView::Abort(
            SetupErrorView::AlwaysOnTopRejected(reason),
        ),
        (Stage::StripDecorations, HostOutcomeView::Done) => TransitionView::Complete,
        (Stage::StripDecorations, HostOutcomeView::Failed(reason)) => TransitionView::Abort(
            SetupErrorView::DecorationsRejected(reason),
        ),
    }
}

impl Stage {
    /// The stage with which startup begins.
    pub fn first() -> (stage: Stage)
        ensures
            stage == first_stage(),
    {
        Stage::ResolveWindow
    }

    /// The request that this stage makes of the host.
    pub fn call(&self) -> (call: HostCall)
        ensures
            call@ == stage_call(*self),
    {
        match self {
            Stage::ResolveWindow => HostCall::FindWindow("main"),
            Stage::PinOnTop => HostCall::SetAlwaysOnTop(true),
            Stage::StripDecorations => HostCall::SetDecorations(false),
        }
    }

    /// Takes the host's answer to this stage's request and says what follows.
    pub fn advance(self, outcome: HostOutcome) -> (next: Transition)
        ensures
            next@ == stage_step(self, outcome@),
    {
        match outcome {
            HostOutcome::Done => match self {
                Stage::ResolveWindow => Transition::Continue(Stage::PinOnTop),
                Stage::PinOnTop => Transition::Continue(Stage::StripDecorations),
                Stage::StripDecorations => Transition::Complete,
            },
            HostOutcome::Failed(reason) => match self {
                Stage::ResolveWindow => Transition::Abort(SetupError::WindowNotFound),
                Stage::PinOnTop => Transition::Abort(SetupError::AlwaysOnTopRejected(reason)),
                Stage::StripDecorations => Transition::Abort(
                    SetupError::DecorationsRejected(reason),
                ),
            },
        }
    }
}

} // verus!
