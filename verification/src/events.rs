//! The webview and window events, as marker types.
//!
//! Each marker names one event kind; `Runtime::on`, `once`, `off` and `clear`
//! take the kind a marker stands for.

use vstd::prelude::*;

use crate::registry::EventKind;

verus! {

/// Fired when the DOM is ready.
pub struct DomReadyEvent;

/// Fired when the page is about to navigate.  Handlers may block it.
pub struct NavigateEvent;

/// Fired when the page navigates.
pub struct NavigatedEvent;

/// Fired when the page title changes.
pub struct TitleEvent;

/// Fired when the favicon changes.
pub struct FaviconEvent;

/// Fired when the page starts to load or has finished loading.
pub struct LoadEvent;

/// Fired when the decoration status of the window changes.
pub struct DecoratedEvent;

/// Fired when the window is maximized or unmaximized.
pub struct MaximizeEvent;

/// Fired when the window is minimized or unminimized.
pub struct MinimizeEvent;

/// Fired when the window is closed.
pub struct ClosedEvent;

/// Fired when the window size changes.
pub struct ResizeEvent;

/// Fired when the window is focused or loses focus.
pub struct FocusEvent;

/// Fired when the window is about to close.  Handlers may block it.
pub struct CloseEvent;

/// The load state of a web page, distinguishing the two stages a `LoadEvent`
/// reports.
#[derive(Debug, Clone, Copy, PartialEq, Eq, Structural)]
pub enum WebviewLoadState {
    Started,
    Finished,
}

impl DomReadyEvent {
    /// The event kind this marker stands for.
    pub fn kind() -> (k: EventKind)
        ensures
            k == EventKind::DomReady,
    {
        EventKind::DomReady
    }
}

impl NavigateEvent {
    /// The event kind this marker stands for.
    pub fn kind() -> (k: EventKind)
        ensures
            k == EventKind::Navigate,
    {
        EventKind::Navigate
    }
}

impl NavigatedEvent {
    /// The event kind this marker stands for.
    pub fn kind() -> (k: EventKind)
        ensures
            k == EventKind::Navigated,
    {
        EventKind::Navigated
    }
}

impl TitleEvent {
    /// The event kind this marker stands for.
    pub fn kind() -> (k: EventKind)
        ensures
            k == EventKind::Title,
    {
        EventKind::Title
    }
}

impl FaviconEvent {
    /// The event kind this marker stands for.
    pub fn kind() -> (k: EventKind)
        ensures
            k == EventKind::Favicon,
    {
        EventKind::Favicon
    }
}

impl LoadEvent {
    /// The event kind this marker stands for.
    pub fn kind() -> (k: EventKind)
        ensures
            k == EventKind::Load,
    {
        EventKind::Load
    }
}

impl DecoratedEvent {
    /// The event kind this marker stands for.
    pub fn kind() -> (k: EventKind)
        ensures
            k == EventKind::Decorated,
    {
        EventKind::Decorated
    }
}

impl MaximizeEvent {
    /// The event kind this marker stands for.
    pub fn kind() -> (k: EventKind)
        ensures
            k == EventKind::Maximize,
    {
        EventKind::Maximize
    }
}

impl MinimizeEvent {
    /// The event kind this marker stands for.
    pub fn kind() -> (k: EventKind)
        ensures
            k == EventKind::Minimize,
    {
        EventKind::Minimize
    }
}

impl ClosedEvent {
    /// The event kind this marker stands for.
    pub fn kind() -> (k: EventKind)
        ensures
            k == EventKind::Closed,
    {
        EventKind::Closed
    }
}

impl ResizeEvent {
    /// The event kind this marker stands for.
    pub fn kind() -> (k: EventKind)
        ensures
            k == EventKind::Resize,
    {
        EventKind::Resize
    }
}

impl FocusEvent {
    /// The event kind this marker stands for.
    pub fn kind() -> (k: EventKind)
        ensures
            k == EventKind::Focus,
    {
        EventKind::Focus
    }
}

impl CloseEvent {
    /// The event kind this marker stands for.
    pub fn kind() -> (k: EventKind)
        ensures
            k == EventKind::Close,
    {
        EventKind::Close
    }
}

} // verus!
