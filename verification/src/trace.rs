//! Startup as a whole: the stages run one after another against a host that
//! answers as it will, and what can be said of every such run.

use vstd::prelude::*;
use crate::error::{always_on_top_prefix, decorations_prefix, error_text, SetupErrorView};
use crate::host::{host_effect, HostCallView, HostOutcomeView, WindowState};
use crate::setup::{first_stage, main_window_label, stage_call, stage_step, Stage, TransitionView};

verus! {

/// A run of startup, as far as the host has answered.
pub struct SetupRun {
    /// The requests that the host has answered, in order.
    pub calls: Seq<HostCallView>,
    /// The window after those requests.
    pub window: WindowState,
    /// Where the run stands: at a stage whose request is unanswered, at
    /// completion, or at an error.
    pub end: TransitionView,
}

/// Runs startup from `stage` on. The host's answers are taken from `answers`
/// in order, one for each request, until startup completes, is given up, or
/// the answers run out; answers beyond that point are never asked for.
pub open spec fn run_from(
    stage: Stage,
    window: WindowState,
    answers: Seq<HostOutcomeView>,
) -> SetupRun
    decreases answers.len(),
{
    if answers.len() == 0 {
        SetupRun { calls: Seq::empty(), window, end: TransitionView::Continue(stage) }
    } else {
        let call = stage_call(stage);
        let after = host_effect(window, call, answers[0]);
        match stage_step(stage, answers[0]) {
            TransitionView::Continue(next) => {
                let rest = run_from(next, after, answers.drop_first());
                SetupRun { calls: seq![call] + rest.calls, ..rest }
            },
            end => SetupRun { calls: seq![call], window: after, end },
        }
    }
}

/// Runs startup from its first stage.
pub open spec fn run_setup(window: WindowState, answers: Seq<HostOutcomeView>) -> SetupRun {
    run_from(first_stage(), window, answers)
}

/// The requests of a startup that nothing stops, in their order.
pub open spec fn full_sequence() -> Seq<HostCallView> {
    seq![
        HostCallView::FindWindow(main_window_label()),
        HostCallView::SetAlwaysOnTop(true),
        HostCallView::SetDecorations(false),
    ]
}

/// Whether the host goes on to its event loop after this run: only a
/// completed startup lets it.
pub open spec fn enters_event_loop(run: SetupRun) -> bool {
    run.end is Complete
}

/// Whether `text` ends with `tail`.
pub open spec fn ends_with(text: Seq<char>, tail: Seq<char>) -> bool {
    tail.len() <= text.len() && text.subrange(text.len() - tail.len(), text.len() as int) == tail
}

/// Whatever the host answers, startup asks for the lookup, the pinning and
/// the removal of decorations in this order, each at most once, and for
/// nothing else.
pub proof fn lemma_requests_follow_the_sequence(
    window: WindowState,
    answers: Seq<HostOutcomeView>,
)
    ensures
        run_setup(window, answers).calls.len() <= 3,
        run_setup(window, answers).calls.len() <= answers.len(),
        run_setup(window, answers).calls == full_sequence().take(
            run_setup(window, answers).calls.len() as int,
        ),
{
    reveal_with_fuel(run_from, 4);
    let run = run_setup(window, answers);
    assert(run.calls =~= full_sequence().take(run.calls.len() as int));
}

/// Startup completes exactly when the host carries out all three requests.
pub proof fn lemma_setup_completes_iff_all_granted(
    window: WindowState,
    answers: Seq<HostOutcomeView>,
)
    ensures
        run_setup(window, answers).end is Complete <==> answers.len() >= 3 && answers[0] is Done
            && answers[1] is Done && answers[2] is Done,
{
    reveal_with_fuel(run_from, 4);
}

/// After every startup that completes, the window is pinned above the others
/// and has no decorations, whatever its attributes were before; startup
/// never closes it.
pub proof fn lemma_completed_setup_configures_window(
    window: WindowState,
    answers: Seq<HostOutcomeView>,
)
    requires
        run_setup(window, answers).end is Complete,
    ensures
        run_setup(window, answers).window.always_on_top,
        !run_setup(window, answers).window.decorations,
        run_setup(window, answers).window.open == window.open,
        run_setup(window, answers).calls == full_sequence(),
{
    reveal_with_fuel(run_from, 4);
    assert(run_setup(window, answers).calls =~= full_sequence());
}

/// If the window cannot be found, startup ends with an error after that one
/// request: no attribute is touched, and the host never enters its event
/// loop.
pub proof fn lemma_missing_window_aborts(
    window: WindowState,
    answers: Seq<HostOutcomeView>,
)
    requires
        answers.len() > 0,
        answers[0] is Failed,
    ensures
        run_setup(window, answers).end == TransitionView::Abort(SetupErrorView::WindowNotFound),
        !enters_event_loop(run_setup(window, answers)),
        run_setup(window, answers).calls == seq![HostCallView::FindWindow(main_window_label())],
        run_setup(window, answers).window == window,
{
    reveal_with_fuel(run_from, 2);
}

/// If the host refuses to change an attribute, startup ends with the error of
/// that attribute, whose message ends with the host's reason, and the refused
/// request is the last one made: what was applied before stays applied, and
/// nothing after it is attempted.
pub proof fn lemma_rejected_mutation_aborts(
    window: WindowState,
    answers: Seq<HostOutcomeView>,
    refused: int,
    reason: Seq<char>,
)
    requires
        1 <= refused <= 2,
        refused < answers.len(),
        forall|i: int| 0 <= i < refused ==> answers[i] is Done,
        answers[refused] == HostOutcomeView::Failed(reason),
    ensures
        run_setup(window, answers).end matches TransitionView::Abort(error) && {
            &&& refused == 1 ==> error == SetupErrorView::AlwaysOnTopRejected(reason)
            &&& refused == 2 ==> error == SetupErrorView::DecorationsRejected(reason)
            &&& ends_with(error_text(error), reason)
        },
        !enters_event_loop(run_setup(window, answers)),
        run_setup(window, answers).calls == full_sequence().take(refused + 1),
        run_setup(window, answers).window.always_on_top == (if refused == 2 {
            true
        } else {
            window.always_on_top
        }),
        run_setup(window, answers).window.decorations == window.decorations,
        run_setup(window, answers).window.open == window.open,
{
    reveal_with_fuel(run_from, 4);
    let run = run_setup(window, answers);
    assert(answers[0] is Done);
    assert(run.calls =~= full_sequence().take(refused + 1));
    assert((always_on_top_prefix() + reason).subrange(
        always_on_top_prefix().len() as int,
        (always_on_top_prefix() + reason).len() as int,
    ) =~= reason);
    assert((decorations_prefix() + reason).subrange(
        decorations_prefix().len() as int,
        (decorations_prefix() + reason).len() as int,
    ) =~= reason);
}

} // verus!
