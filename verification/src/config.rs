//! The configuration of the one window.

use vstd::prelude::*;

verus! {

/// The name by which the host knows the window.
pub const WINDOW_LABEL: &'static str = "main";

/// The window's title: none.
pub const WINDOW_TITLE: &'static str = "";

/// How the title bar is presented.
#[derive(Clone, Copy, Debug, PartialEq, Eq, Structural)]
pub enum TitleBarStyle {
    /// Whatever the platform does when nothing is asked of it.
    Default,
    /// A title bar that lets the window's content show through.
    Transparent,
}

/// Everything the host needs to create the window.
#[derive(Clone, Debug, PartialEq, Eq)]
pub struct WindowConfig {
    pub label: String,
    pub url: String,
    pub title: String,
    pub resizable: bool,
    pub fullscreen: bool,
    pub decorations: bool,
    pub visible: bool,
    pub title_bar_style: TitleBarStyle,
}

/// A window configuration as a mathematical value.
pub struct WindowConfigView {
    pub label: Seq<char>,
    pub url: Seq<char>,
    pub title: Seq<char>,
    pub resizable: bool,
    pub fullscreen: bool,
    pub decorations: bool,
    pub visible: bool,
    pub title_bar_style: TitleBarStyle,
}

impl View for WindowConfig {
    type V = WindowConfigView;

    open spec fn view(&self) -> WindowConfigView {
        WindowConfigView {
            label: self.label@,
            url: self.url@,
            title: self.title@,
            resizable: self.resizable,
            fullscreen: self.fullscreen,
            decorations: self.decorations,
            visible: self.visible,
            title_bar_style: self.title_bar_style,
        }
    }
}

/// The title-bar style of a build: transparent on the platform whose title
/// bar the shell overrides, the platform's own everywhere else.
pub open spec fn title_bar_for(title_bar_override: bool) -> TitleBarStyle {
    if title_bar_override {
        TitleBarStyle::Transparent
    } else {
        TitleBarStyle::Default
    }
}

/// The configuration of the window that shows `url`: visible, resizable,
/// decorated, not fullscreen, untitled, and labelled `WINDOW_LABEL`.
pub open spec fn window_config_of(url: Seq<char>, title_bar_override: bool) -> WindowConfigView {
    WindowConfigView {
        label: WINDOW_LABEL@,
        url,
        title: WINDOW_TITLE@,
        resizable: true,
        fullscreen: false,
        decorations: true,
        visible: true,
        title_bar_style: title_bar_for(title_bar_override),
    }
}

/// The title-bar style for this build.
pub fn title_bar_style(title_bar_override: bool) -> (style: TitleBarStyle)
    ensures
        style == title_bar_for(title_bar_override),
{
    if title_bar_override {
        TitleBarStyle::Transparent
    } else {
        TitleBarStyle::Default
    }
}

/// The configuration of the window that shows `url`.
pub fn window_config(url: String, title_bar_override: bool) -> (config: WindowConfig)
    ensures
        config@ == window_config_of(url@, title_bar_override),
{
    WindowConfig {
        label: WINDOW_LABEL.to_owned(),
        url,
        title: WINDOW_TITLE.to_owned(),
        resizable: true,
        fullscreen: false,
        decorations: true,
        visible: true,
        title_bar_style: title_bar_style(title_bar_override),
    }
}

/// On every platform and for every address the window is visible, resizable
/// and decorated, and it is not fullscreen.
pub proof fn lemma_flags_are_fixed(url: Seq<char>, title_bar_override: bool)
    ensures
        window_config_of(url, title_bar_override).visible,
        window_config_of(url, title_bar_override).resizable,
        window_config_of(url, title_bar_override).decorations,
        !window_config_of(url, title_bar_override).fullscreen,
{
}

/// The title bar is transparent exactly on the platform whose title bar the
/// shell overrides; everywhere else it is the platform's own.
pub proof fn lemma_title_bar_follows_platform(url: Seq<char>, title_bar_override: bool)
    ensures
        window_config_of(url, title_bar_override).title_bar_style == TitleBarStyle::Transparent
            <==> title_bar_override,
        window_config_of(url, title_bar_override).title_bar_style == TitleBarStyle::Default
            <==> !title_bar_override,
{
}

/// The two platform branches give the same window but for the title bar.
pub proof fn lemma_platforms_differ_in_title_bar_only(url: Seq<char>)
    ensures
        window_config_of(url, true) == (WindowConfigView {
            title_bar_style: TitleBarStyle::Transparent,
            ..window_config_of(url, false)
        }),
        window_config_of(url, true) != window_config_of(url, false),
{
}

/// The window has no title, and its label is the four letters of "main".
pub proof fn lemma_label_and_title(url: Seq<char>, title_bar_override: bool)
    ensures
        window_config_of(url, title_bar_override).title.len() == 0,
        window_config_of(url, title_bar_override).label == seq!['m', 'a', 'i', 'n'],
{
    reveal_strlit("main");
    reveal_strlit("");
    assert(WINDOW_LABEL@ =~= seq!['m', 'a', 'i', 'n']);
}

} // verus!
