//! Why startup was given up, and how that is worded.

use vstd::prelude::*;

verus! {

/// The reason startup was abandoned. Each of them is final: nothing is
/// retried, and nothing that was already applied is taken back.
#[derive(Debug, Clone, PartialEq, Eq)]
pub enum SetupError {
    /// The host knows no window under the shell's label.
    WindowNotFound,
    /// The host refused to pin the window above the others; its reason.
    AlwaysOnTopRejected(String),
    /// The host refused to change the window's decorations; its reason.
    DecorationsRejected(String),
}

/// The mathematical value of a [`SetupError`].
pub enum SetupErrorView {
    WindowNotFound,
    AlwaysOnTopRejected(Seq<char>),
    DecorationsRejected(Seq<char>),
}

impl View for SetupError {
    type V = SetupErrorView;

    open spec fn view(&self) -> SetupErrorView {
        match *self {
            SetupError::WindowNotFound => SetupErrorView::WindowNotFound,
            SetupError::AlwaysOnTopRejected(reason) => SetupErrorView::AlwaysOnTopRejected(reason@),
            SetupError::DecorationsRejected(reason) => SetupErrorView::DecorationsRejected(reason@),
        }
    }
}

/// The whole message for a window that was not found.
pub open spec fn window_not_found_text() -> Seq<char> {
    "Failed to get main window"@
}

/// What precedes the host's reason when pinning was refused.
pub open spec fn always_on_top_prefix() -> Seq<char> {
    "Failed to set always on top: "@
}

/// What precedes the host's reason when the decorations could not be changed.
pub open spec fn decorations_prefix() -> Seq<char> {
    "Failed to set decorations: "@
}

/// The message of an error: a fixed wording, followed by the host's reason
/// where the host gave one.
pub open spec fn error_text(error: SetupErrorView) -> Seq<char> {
    match error {
        SetupErrorView::WindowNotFound => window_not_found_text(),
        SetupErrorView::AlwaysOnTopRejected(reason) => always_on_top_prefix() + reason,
        SetupErrorView::DecorationsRejected(reason) => decorations_prefix() + reason,
    }
}

/// Joins a fixed wording and the host's reason into one message.
pub(crate) fn describe(prefix: &str, reason: &str) -> (text: String)
    ensures
        text@ == prefix@ + reason@,
{
    let mut text = String::from_str(prefix);
    text.append(reason);
    text
}

impl SetupError {
    /// The message that is reported when startup ends with this error.
    pub fn message(&self) -> (text: String)
        ensures
            text@ == error_text(self@),
    {
        match self {
            SetupError::WindowNotFound => String::from_str("Failed to get main window"),
            SetupError::AlwaysOnTopRejected(reason) => describe(
                "Failed to set always on top: ",
                reason.as_str(),
            ),
            SetupError::DecorationsRejected(reason) => describe(
                "Failed to set decorations: ",
                reason.as_str(),
            ),
        }
    }
}

} // verus!
