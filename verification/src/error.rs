//! The ways in which the start of the shell can fail.

use vstd::prelude::*;

verus! {

/// Why setup was abandoned. Every one of these is fatal: nothing is retried,
/// and nothing that was already done is undone.
#[derive(Clone, Copy, Debug, PartialEq, Eq, Structural)]
pub enum SetupError {
    /// The address for the webview is not an absolute URL.
    MalformedUrl,
    /// The host could not create the window.
    WindowCreation,
    /// The host could not apply the minimum size.
    SetMinSize,
    /// The host could not apply the initial size.
    SetSize,
    /// The host could not centre the window.
    Center,
}

} // verus!
