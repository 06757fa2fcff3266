//! Whole runs of setup: what holds of every sequence of replies.

use crate::bootstrap::{
    abandoned, is_terminal, launch_of, moves_window, transition, ActionView, Phase, Reply,
};
use crate::error::SetupError;
use crate::geometry::{min_size_of, PhysicalSize};
use vstd::prelude::*;

verus! {

/// The phase that setup is in after the first `n` of `replies`, having
/// started in `start`.
pub open spec fn phase_after(start: Phase, replies: Seq<Reply>, n: nat) -> Phase
    decreases n,
{
    if n == 0 {
        start
    } else {
        transition(phase_after(start, replies, (n - 1) as nat), replies[n - 1]).0
    }
}

/// The request that answers `replies[i]`.
pub open spec fn action_at(start: Phase, replies: Seq<Reply>, i: nat) -> ActionView {
    transition(phase_after(start, replies, i), replies[i as int]).1
}

/// The requests that answer `replies`, one for each, in order.
pub open spec fn actions(start: Phase, replies: Seq<Reply>) -> Seq<ActionView> {
    Seq::new(replies.len(), |i: int| action_at(start, replies, i as nat))
}

/// How far setup has come, as a number that only grows.
pub open spec fn progress(phase: Phase) -> nat {
    match phase {
        Phase::CreatingWindow => 0,
        Phase::QueryingMonitor => 1,
        Phase::SettingMinSize(_) => 2,
        Phase::SettingSize(_) => 3,
        Phase::Centering => 4,
        Phase::Running => 5,
        Phase::Failed(_) => 5,
    }
}

/// The reply names a monitor.
pub open spec fn names_monitor(reply: Reply) -> bool {
    reply matches Reply::Monitor(Some(_))
}

/// The request that a phase stands for: what the host was asked when setup
/// entered it. Creating the window has none here, because the window's
/// configuration is not part of the phase.
pub open spec fn pending(phase: Phase) -> Option<ActionView> {
    match phase {
        Phase::CreatingWindow => None,
        Phase::QueryingMonitor => Some(ActionView::QueryMonitor),
        Phase::SettingMinSize(size) => Some(ActionView::SetMinSize(size)),
        Phase::SettingSize(size) => Some(ActionView::SetSize(size)),
        Phase::Centering => Some(ActionView::Center),
        Phase::Running => Some(ActionView::Finish),
        Phase::Failed(error) => Some(ActionView::Abort(error)),
    }
}

/// Launching asks for the window exactly when the address parsed, gives up
/// with a malformed address exactly when it did not, and never touches the
/// window's size or position.
pub proof fn lemma_launch_outcomes(parsed: Option<Seq<char>>, title_bar_override: bool)
    ensures
        parsed is Some <==> launch_of(parsed, title_bar_override).0 == Phase::CreatingWindow,
        parsed is Some <==> launch_of(parsed, title_bar_override).1 is CreateWindow,
        parsed is None <==> launch_of(parsed, title_bar_override) == abandoned(
            SetupError::MalformedUrl,
        ),
        !moves_window(launch_of(parsed, title_bar_override).1),
{
}

/// Every step asks for what its new phase stands for, and no step goes back
/// to creating the window.
pub proof fn lemma_request_matches_phase(phase: Phase, reply: Reply)
    ensures
        transition(phase, reply).0 != Phase::CreatingWindow,
        pending(transition(phase, reply).0) == Some(transition(phase, reply).1),
{
}

/// Setup never goes back: a final phase stays as it is, whatever the host
/// reports, and every other phase moves strictly forward.
pub proof fn lemma_no_way_back(phase: Phase, reply: Reply)
    ensures
        is_terminal(phase) <==> progress(phase) == 5,
        progress(phase) <= 5,
        is_terminal(phase) ==> transition(phase, reply).0 == phase,
        !is_terminal(phase) ==> progress(transition(phase, reply).0) > progress(phase),
{
}

/// A phase that waits for a confirmation gives up on any other reply, with
/// the error that belongs to the request that failed.
pub proof fn lemma_fails_fast(phase: Phase, reply: Reply)
    requires
        reply != Reply::Completed,
    ensures
        phase == Phase::CreatingWindow ==> transition(phase, reply) == abandoned(
            SetupError::WindowCreation,
        ),
        phase is SettingMinSize ==> transition(phase, reply) == abandoned(SetupError::SetMinSize),
        phase is SettingSize ==> transition(phase, reply) == abandoned(SetupError::SetSize),
        phase == Phase::Centering ==> transition(phase, reply) == abandoned(SetupError::Center),
{
}

/// Once setup is abandoned it stays abandoned with the same error, and every
/// later request is to stop with that error.
pub proof fn lemma_failure_is_final(error: SetupError, replies: Seq<Reply>, n: nat)
    requires
        n < replies.len(),
    ensures
        phase_after(Phase::Failed(error), replies, n) == Phase::Failed(error),
        action_at(Phase::Failed(error), replies, n) == ActionView::Abort(error),
    decreases n,
{
    if n > 0 {
        lemma_failure_is_final(error, replies, (n - 1) as nat);
    }
}

/// Once setup is complete it stays complete, and nothing more is asked of the
/// host.
pub proof fn lemma_running_is_final(replies: Seq<Reply>, n: nat)
    requires
        n < replies.len(),
    ensures
        phase_after(Phase::Running, replies, n) == Phase::Running,
        action_at(Phase::Running, replies, n) == ActionView::Finish,
    decreases n,
{
    if n > 0 {
        lemma_running_is_final(replies, (n - 1) as nat);
    }
}

/// Setup is over after five replies at the latest, wherever it started and
/// whatever the host reported.
pub proof fn lemma_setup_ends(start: Phase, replies: Seq<Reply>, n: nat)
    requires
        n <= replies.len(),
    ensures
        progress(phase_after(start, replies, n)) >= if n < 5 { n } else { 5 },
        n >= 5 ==> is_terminal(phase_after(start, replies, n)),
    decreases n,
{
    if n > 0 {
        lemma_setup_ends(start, replies, (n - 1) as nat);
        lemma_no_way_back(phase_after(start, replies, (n - 1) as nat), replies[n - 1]);
    }
}

/// Where the monitor query is answered with no monitor, or not answered at
/// all, setup is complete at once and the window is left as it is.
pub proof fn lemma_no_monitor_skips_geometry(reply: Reply)
    requires
        !names_monitor(reply),
    ensures
        transition(Phase::QueryingMonitor, reply) == (Phase::Running, ActionView::Finish),
{
}

/// Until the host has named a monitor, no request changes the window's size
/// or position.
pub proof fn lemma_no_move_before_monitor(replies: Seq<Reply>, i: nat)
    requires
        i < replies.len(),
        forall|j: int| 0 <= j <= i ==> !names_monitor(#[trigger] replies[j]),
    ensures
        !moves_window(action_at(Phase::CreatingWindow, replies, i)),
        progress(phase_after(Phase::CreatingWindow, replies, i)) <= 1 || is_terminal(
            phase_after(Phase::CreatingWindow, replies, i),
        ),
    decreases i,
{
    if i > 0 {
        lemma_no_move_before_monitor(replies, (i - 1) as nat);
    }
}

/// The requests that change the window come in one order only. The minimum
/// size is asked for in answer to the monitor's size and is three quarters of
/// it; the size is asked for right after the minimum size and equals it;
/// centring is asked for right after the size.
pub proof fn lemma_moves_in_order(replies: Seq<Reply>, i: nat)
    requires
        i < replies.len(),
    ensures
        match action_at(Phase::CreatingWindow, replies, i) {
            ActionView::SetMinSize(size) => {
                &&& i >= 1
                &&& replies[i as int] matches Reply::Monitor(Some(monitor))
                &&& size == min_size_of(monitor)
            },
            ActionView::SetSize(size) => {
                &&& i >= 2
                &&& action_at(Phase::CreatingWindow, replies, (i - 1) as nat)
                    == ActionView::SetMinSize(size)
            },
            ActionView::Center => {
                &&& i >= 3
                &&& action_at(Phase::CreatingWindow, replies, (i - 1) as nat)
                    matches ActionView::SetSize(size)
                &&& action_at(Phase::CreatingWindow, replies, (i - 2) as nat)
                    == ActionView::SetMinSize(size)
            },
            ActionView::CreateWindow(_) => false,
            _ => true,
        },
{
    reveal_with_fuel(phase_after, 4);
}

/// A setup in which everything succeeds on a monitor of size `monitor`: the
/// host is asked for the monitor, for three quarters of it as the minimum
/// size, for the same as the size, to centre the window, and to run, in that
/// order, and setup is then complete.
pub proof fn lemma_full_setup(monitor: PhysicalSize)
    ensures
        ({
            let replies = seq![
                Reply::Completed,
                Reply::Monitor(Some(monitor)),
                Reply::Completed,
                Reply::Completed,
                Reply::Completed,
            ];
            &&& actions(Phase::CreatingWindow, replies) == seq![
                ActionView::QueryMonitor,
                ActionView::SetMinSize(min_size_of(monitor)),
                ActionView::SetSize(min_size_of(monitor)),
                ActionView::Center,
                ActionView::Finish,
            ]
            &&& phase_after(Phase::CreatingWindow, replies, 5) == Phase::Running
        }),
{
    reveal_with_fuel(phase_after, 6);
    let replies = seq![
        Reply::Completed,
        Reply::Monitor(Some(monitor)),
        Reply::Completed,
        Reply::Completed,
        Reply::Completed,
    ];
    let expected = seq![
        ActionView::QueryMonitor,
        ActionView::SetMinSize(min_size_of(monitor)),
        ActionView::SetSize(min_size_of(monitor)),
        ActionView::Center,
        ActionView::Finish,
    ];
    assert(action_at(Phase::CreatingWindow, replies, 0) == expected[0]);
    assert(action_at(Phase::CreatingWindow, replies, 1) == expected[1]);
    assert(action_at(Phase::CreatingWindow, replies, 2) == expected[2]);
    assert(action_at(Phase::CreatingWindow, replies, 3) == expected[3]);
    assert(action_at(Phase::CreatingWindow, replies, 4) == expected[4]);
    assert(actions(Phase::CreatingWindow, replies) =~= expected);
}

/// A setup in which the window is created and no monitor is found: the host
/// is asked for the monitor and then to run, and for nothing else.
pub proof fn lemma_setup_without_monitor()
    ensures
        ({
            let replies = seq![Reply::Completed, Reply::Monitor(None)];
            &&& actions(Phase::CreatingWindow, replies) == seq![
                ActionView::QueryMonitor,
                ActionView::Finish,
            ]
            &&& phase_after(Phase::CreatingWindow, replies, 2) == Phase::Running
        }),
{
    reveal_with_fuel(phase_after, 3);
    let replies = seq![Reply::Completed, Reply::Monitor(None)];
    let expected = seq![ActionView::QueryMonitor, ActionView::Finish];
    assert(actions(Phase::CreatingWindow, replies) =~= expected);
}

} // verus!
