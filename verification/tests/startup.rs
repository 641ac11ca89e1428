//! Startup driven against a stand-in for the host.

use window_shell::error::SetupError;
use window_shell::host::{HostCall, HostOutcome};
use window_shell::setup::{Stage, Transition};

struct FakeWindow {
    label: String,
    always_on_top: bool,
    decorations: bool,
}

/// A host that keeps its windows in a list and can be told to refuse.
struct FakeHost {
    windows: Vec<FakeWindow>,
    found: Option<usize>,
    refuse_always_on_top: Option<String>,
    refuse_decorations: Option<String>,
    calls: Vec<HostCall>,
    event_loop_turns: usize,
}

impl FakeHost {
    fn with_window(label: &str) -> FakeHost {
        FakeHost {
            windows: vec![FakeWindow {
                label: label.to_string(),
                always_on_top: false,
                decorations: true,
            }],
            found: None,
            refuse_always_on_top: None,
            refuse_decorations: None,
            calls: Vec::new(),
            event_loop_turns: 0,
        }
    }

    fn without_windows() -> FakeHost {
        let mut host = FakeHost::with_window("main");
        host.windows.clear();
        host
    }

    fn perform(&mut self, call: HostCall) -> HostOutcome {
        self.calls.push(call);
        match call {
            HostCall::FindWindow(label) => {
                self.found = self.windows.iter().position(|w| w.label == label);
                match self.found {
                    Some(_) => HostOutcome::Done,
                    None => HostOutcome::Failed(String::new()),
                }
            }
            HostCall::SetAlwaysOnTop(on) => match (&self.refuse_always_on_top, self.found) {
                (Some(reason), _) => HostOutcome::Failed(reason.clone()),
                (None, Some(at)) => {
                    self.windows[at].always_on_top = on;
                    HostOutcome::Done
                }
                (None, None) => panic!("a window was changed before it was found"),
            },
            HostCall::SetDecorations(on) => match (&self.refuse_decorations, self.found) {
                (Some(reason), _) => HostOutcome::Failed(reason.clone()),
                (None, Some(at)) => {
                    self.windows[at].decorations = on;
                    HostOutcome::Done
                }
                (None, None) => panic!("a window was changed before it was found"),
            },
            HostCall::CloseWindow => panic!("startup closed the window"),
        }
    }

    /// Runs startup as the host would, and its event loop once if startup
    /// lets it.
    fn start(&mut self) -> Result<(), SetupError> {
        let mut stage = Stage::first();
        loop {
            let outcome = self.perform(stage.call());
            match stage.advance(outcome) {
                Transition::Continue(next) => stage = next,
                Transition::Complete => {
                    self.event_loop_turns += 1;
                    return Ok(());
                }
                Transition::Abort(error) => return Err(error),
            }
        }
    }
}

#[test]
fn setup_succeeds_when_the_host_grants_everything() {
    let mut host = FakeHost::with_window("main");
    assert_eq!(host.start(), Ok(()));
    assert!(host.windows[0].always_on_top);
    assert!(!host.windows[0].decorations);
    assert_eq!(host.event_loop_turns, 1);
}

#[test]
fn setup_asks_for_lookup_then_pin_then_strip() {
    let mut host = FakeHost::with_window("main");
    assert_eq!(host.start(), Ok(()));
    assert_eq!(
        host.calls,
        vec![
            HostCall::FindWindow("main"),
            HostCall::SetAlwaysOnTop(true),
            HostCall::SetDecorations(false),
        ]
    );
}

#[test]
fn setup_configures_a_window_that_was_already_configured() {
    let mut host = FakeHost::with_window("main");
    host.windows[0].always_on_top = true;
    host.windows[0].decorations = false;
    assert_eq!(host.start(), Ok(()));
    assert!(host.windows[0].always_on_top);
    assert!(!host.windows[0].decorations);
    assert_eq!(host.calls.len(), 3);
}

#[test]
fn setup_fails_when_there_is_no_window() {
    let mut host = FakeHost::without_windows();
    assert_eq!(host.start(), Err(SetupError::WindowNotFound));
    assert_eq!(host.event_loop_turns, 0);
    assert_eq!(host.calls, vec![HostCall::FindWindow("main")]);
}

#[test]
fn setup_fails_when_the_window_has_another_label() {
    let mut host = FakeHost::with_window("settings");
    assert_eq!(host.start(), Err(SetupError::WindowNotFound));
    assert_eq!(host.event_loop_turns, 0);
    assert!(!host.windows[0].always_on_top);
    assert!(host.windows[0].decorations);
}

#[test]
fn setup_picks_the_main_window_among_several() {
    let mut host = FakeHost::with_window("settings");
    host.windows.push(FakeWindow {
        label: "main".to_string(),
        always_on_top: false,
        decorations: true,
    });
    assert_eq!(host.start(), Ok(()));
    assert!(!host.windows[0].always_on_top);
    assert!(host.windows[0].decorations);
    assert!(host.windows[1].always_on_top);
    assert!(!host.windows[1].decorations);
}

#[test]
fn refused_pinning_stops_startup_before_the_decorations() {
    let mut host = FakeHost::with_window("main");
    host.refuse_always_on_top = Some("not allowed".to_string());
    let error = host.start().unwrap_err();
    assert_eq!(error, SetupError::AlwaysOnTopRejected("not allowed".to_string()));
    assert!(error.message().contains("not allowed"));
    assert_eq!(
        host.calls,
        vec![HostCall::FindWindow("main"), HostCall::SetAlwaysOnTop(true)]
    );
    assert!(host.windows[0].decorations);
    assert_eq!(host.event_loop_turns, 0);
}

#[test]
fn refused_decorations_stop_startup_and_leave_the_window_pinned() {
    let mut host = FakeHost::with_window("main");
    host.refuse_decorations = Some("unsupported".to_string());
    let error = host.start().unwrap_err();
    assert_eq!(error, SetupError::DecorationsRejected("unsupported".to_string()));
    assert!(error.message().contains("unsupported"));
    assert_eq!(host.calls.len(), 3);
    assert!(host.windows[0].always_on_top);
    assert!(host.windows[0].decorations);
    assert_eq!(host.event_loop_turns, 0);
}

#[test]
fn the_first_refusal_decides_when_the_host_refuses_everything() {
    let mut host = FakeHost::with_window("main");
    host.refuse_always_on_top = Some("first".to_string());
    host.refuse_decorations = Some("second".to_string());
    assert_eq!(
        host.start(),
        Err(SetupError::AlwaysOnTopRejected("first".to_string()))
    );
    assert_eq!(host.calls.len(), 2);
}

#[test]
fn startup_begins_with_the_lookup() {
    assert_eq!(Stage::first(), Stage::ResolveWindow);
}

#[test]
fn each_stage_makes_its_own_request() {
    assert_eq!(Stage::ResolveWindow.call(), HostCall::FindWindow("main"));
    assert_eq!(Stage::PinOnTop.call(), HostCall::SetAlwaysOnTop(true));
    assert_eq!(Stage::StripDecorations.call(), HostCall::SetDecorations(false));
}

#[test]
fn success_leads_through_the_stages_to_completion() {
    assert_eq!(
        Stage::ResolveWindow.advance(HostOutcome::Done),
        Transition::Continue(Stage::PinOnTop)
    );
    assert_eq!(
        Stage::PinOnTop.advance(HostOutcome::Done),
        Transition::Continue(Stage::StripDecorations)
    );
    assert_eq!(
        Stage::StripDecorations.advance(HostOutcome::Done),
        Transition::Complete
    );
}

#[test]
fn failure_ends_each_stage_with_its_own_error() {
    assert_eq!(
        Stage::ResolveWindow.advance(HostOutcome::Failed(String::new())),
        Transition::Abort(SetupError::WindowNotFound)
    );
    assert_eq!(
        Stage::PinOnTop.advance(HostOutcome::Failed("busy".to_string())),
        Transition::Abort(SetupError::AlwaysOnTopRejected("busy".to_string()))
    );
    assert_eq!(
        Stage::StripDecorations.advance(HostOutcome::Failed("busy".to_string())),
        Transition::Abort(SetupError::DecorationsRejected("busy".to_string()))
    );
}

#[test]
fn a_failed_lookup_carries_no_reason() {
    assert_eq!(
        Stage::ResolveWindow.advance(HostOutcome::Failed("gone".to_string())),
        Transition::Abort(SetupError::WindowNotFound)
    );
}

#[test]
fn an_empty_reason_is_kept_as_it_is() {
    assert_eq!(
        Stage::PinOnTop.advance(HostOutcome::Failed(String::new())),
        Transition::Abort(SetupError::AlwaysOnTopRejected(String::new()))
    );
}
