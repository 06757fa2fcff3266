//! The start of the shell as a conversation with the host.
//!
//! The crate cannot create a window or look at a monitor; the host can. So
//! setup is a state machine: [`launch`] gives the first request, the host
//! carries it out and reports back with a [`Reply`], and [`step`] answers
//! each reply with the next request, until the request is [`Action::Finish`]
//! or [`Action::Abort`].
//!
//! Nothing has started before [`launch`]. From then on setup is being
//! configured, one [`Phase`] after the other and never backwards, until it is
//! either [`Phase::Running`] or [`Phase::Failed`]; both are final.

use crate::config::{window_config, window_config_of, WindowConfig, WindowConfigView};
use crate::error::SetupError;
use crate::geometry::{min_size_of, min_window_size, PhysicalSize};
use crate::target::{get_webview_url, parse_target, url_parse, webview_url};
use vstd::prelude::*;

verus! {

/// What is fixed when the shell is built.
#[derive(Clone, Copy, Debug, PartialEq, Eq, Structural)]
pub struct BuildFlags {
    /// A debug build loads the development server.
    pub debug: bool,
    /// The build is for the platform whose title bar the shell overrides.
    pub title_bar_override: bool,
}

/// Where setup stands: which request the host is working on, or how setup
/// ended.
#[derive(Clone, Copy, Debug, PartialEq, Eq, Structural)]
pub enum Phase {
    /// The host was asked to create the window.
    CreatingWindow,
    /// The host was asked which monitor the window is on.
    QueryingMonitor,
    /// The host was asked to make this the window's minimum size.
    SettingMinSize(PhysicalSize),
    /// The host was asked to give the window this size.
    SettingSize(PhysicalSize),
    /// The host was asked to centre the window.
    Centering,
    /// Setup is complete and the host's event loop has the window.
    Running,
    /// Setup was abandoned.
    Failed(SetupError),
}

/// What the host reports after carrying out a request.
#[derive(Clone, Copy, Debug, PartialEq, Eq, Structural)]
pub enum Reply {
    /// The request was carried out.
    Completed,
    /// The request could not be carried out.
    Rejected,
    /// The answer to a monitor query: the monitor's size, or `None` where the
    /// window is on no monitor that the host can name.
    Monitor(Option<PhysicalSize>),
}

/// What the host is asked to do next.
#[derive(Clone, Debug, PartialEq, Eq)]
pub enum Action {
    /// Create the window with this configuration.
    CreateWindow(WindowConfig),
    /// Report the monitor that the window is on.
    QueryMonitor,
    /// Make this the window's minimum size.
    SetMinSize(PhysicalSize),
    /// Give the window this size.
    SetSize(PhysicalSize),
    /// Centre the window on its monitor.
    Center,
    /// Setup is complete: run the event loop.
    Finish,
    /// Setup is abandoned: stop with this error.
    Abort(SetupError),
}

/// A request as a mathematical value.
pub enum ActionView {
    CreateWindow(WindowConfigView),
    QueryMonitor,
    SetMinSize(PhysicalSize),
    SetSize(PhysicalSize),
    Center,
    Finish,
    Abort(SetupError),
}

impl View for Action {
    type V = ActionView;

    open spec fn view(&self) -> ActionView {
        match *self {
            Action::CreateWindow(config) => ActionView::CreateWindow(config@),
            Action::QueryMonitor => ActionView::QueryMonitor,
            Action::SetMinSize(size) => ActionView::SetMinSize(size),
            Action::SetSize(size) => ActionView::SetSize(size),
            Action::Center => ActionView::Center,
            Action::Finish => ActionView::Finish,
            Action::Abort(error) => ActionView::Abort(error),
        }
    }
}

/// Setup has ended, well or badly.
pub open spec fn is_terminal(phase: Phase) -> bool {
    phase is Running || phase is Failed
}

/// The request changes the window's size or position.
pub open spec fn moves_window(action: ActionView) -> bool {
    action is SetMinSize || action is SetSize || action is Center
}

/// Setup abandoned with `error`.
pub open spec fn abandoned(error: SetupError) -> (Phase, ActionView) {
    (Phase::Failed(error), ActionView::Abort(error))
}

/// The first phase and request, given what the address parsed to: create the
/// window that shows the address, or give up where there is none.
pub open spec fn launch_of(parsed: Option<Seq<char>>, title_bar_override: bool) -> (
    Phase,
    ActionView,
) {
    match parsed {
        Some(url) => (
            Phase::CreatingWindow,
            ActionView::CreateWindow(window_config_of(url, title_bar_override)),
        ),
        None => abandoned(SetupError::MalformedUrl),
    }
}

/// The phase and the request that follow a reply.
///
/// A phase that waits for a confirmation goes on when it gets one and gives
/// up on anything else. The monitor query goes on to sizing when it is
/// answered with a monitor and straight to the event loop on anything else.
/// The two final phases stay as they are.
pub open spec fn transition(phase: Phase, reply: Reply) -> (Phase, ActionView) {
    match (phase, reply) {
        (Phase::CreatingWindow, Reply::Completed) => (
            Phase::QueryingMonitor,
            ActionView::QueryMonitor,
        ),
        (Phase::CreatingWindow, _) => abandoned(SetupError::WindowCreation),
        (Phase::QueryingMonitor, Reply::Monitor(Some(monitor))) => (
            Phase::SettingMinSize(min_size_of(monitor)),
            ActionView::SetMinSize(min_size_of(monitor)),
        ),
        (Phase::QueryingMonitor, _) => (Phase::Running, ActionView::Finish),
        (Phase::SettingMinSize(size), Reply::Completed) => (
            Phase::SettingSize(size),
            ActionView::SetSize(size),
        ),
        (Phase::SettingMinSize(_), _) => abandoned(SetupError::SetMinSize),
        (Phase::SettingSize(_), Reply::Completed) => (Phase::Centering, ActionView::Center),
        (Phase::SettingSize(_), _) => abandoned(SetupError::SetSize),
        (Phase::Centering, Reply::Completed) => (Phase::Running, ActionView::Finish),
        (Phase::Centering, _) => abandoned(SetupError::Center),
        (Phase::Running, _) => (Phase::Running, ActionView::Finish),
        (Phase::Failed(error), _) => abandoned(error),
    }
}

fn abandon(error: SetupError) -> (r: (Phase, Action))
    ensures
        (r.0, r.1@) == abandoned(error),
{
    (Phase::Failed(error), Action::Abort(error))
}

/// The first phase and request for a target that was already checked: the
/// window for a good address, the end of setup for a bad one.
pub fn launch_with(target: Result<String, SetupError>, title_bar_override: bool) -> (r: (
    Phase,
    Action,
))
    ensures
        match target {
            Ok(url) => (r.0, r.1@) == launch_of(Some(url@), title_bar_override),
            Err(error) => (r.0, r.1@) == abandoned(error),
        },
{
    match target {
        Ok(url) => (
            Phase::CreatingWindow,
            Action::CreateWindow(window_config(url, title_bar_override)),
        ),
        Err(error) => abandon(error),
    }
}

/// Starts setup: picks the address for this build, checks that it is an
/// absolute URL, and asks for the window that shows it.
pub fn launch(flags: BuildFlags) -> (r: (Phase, Action))
    ensures
        (r.0, r.1@) == launch_of(url_parse(webview_url(flags.debug)), flags.title_bar_override),
{
    let target = parse_target(get_webview_url(flags.debug));
    launch_with(target, flags.title_bar_override)
}

/// Answers the host's reply with the next phase and request.
pub fn step(phase: Phase, reply: Reply) -> (r: (Phase, Action))
    ensures
        (r.0, r.1@) == transition(phase, reply),
{
    let confirmed = match reply {
        Reply::Completed => true,
        _ => false,
    };
    match phase {
        Phase::CreatingWindow => {
            if confirmed {
                (Phase::QueryingMonitor, Action::QueryMonitor)
            } else {
                abandon(SetupError::WindowCreation)
            }
        },
        Phase::QueryingMonitor => {
            match reply {
                Reply::Monitor(Some(monitor)) => {
                    let size = min_window_size(monitor);
                    (Phase::SettingMinSize(size), Action::SetMinSize(size))
                },
                _ => (Phase::Running, Action::Finish),
            }
        },
        Phase::SettingMinSize(size) => {
            if confirmed {
                (Phase::SettingSize(size), Action::SetSize(size))
            } else {
                abandon(SetupError::SetMinSize)
            }
        },
        Phase::SettingSize(_) => {
            if confirmed {
                (Phase::Centering, Action::Center)
            } else {
                abandon(SetupError::SetSize)
            }
        },
        Phase::Centering => {
            if confirmed {
                (Phase::Running, Action::Finish)
            } else {
                abandon(SetupError::Center)
            }
        },
        Phase::Running => (Phase::Running, Action::Finish),
        Phase::Failed(error) => abandon(error),
    }
}

} // verus!
