//! Window bootstrap for a single-webview desktop shell.
//!
//! The crate decides everything about the start of the shell that can be
//! decided without touching the windowing system: which address the webview
//! loads, how the one window is configured, how large it is made on the
//! monitor it appears on, and in which order the host is asked to act.
//! The host performs each request and reports back; see [`bootstrap`].

pub mod bootstrap;
pub mod config;
pub mod error;
pub mod geometry;
pub mod target;
pub mod trace;

pub use crate::bootstrap::{launch, step};
pub use crate::target::get_webview_url;
