//! Details about one navigation a webview is about to perform.

use vstd::prelude::*;

verus! {

/// Describes a navigation action: where it goes and how it was initiated.
pub struct WebviewNavigation {
    /// The URL the navigation targets.
    pub url: String,
    /// Whether the navigation asks for a new window.
    pub new_window: bool,
    /// Whether a redirection initiated the navigation.
    pub redirection: bool,
    /// Whether a user action initiated the navigation.
    pub user_initiated: bool,
}

impl WebviewNavigation {
    /// Wraps the details of one navigation as the engine reported them.
    pub fn new(url: String, new_window: bool, redirection: bool, user_initiated: bool) -> (r:
        WebviewNavigation)
        ensures
            r.url == url,
            r.new_window == new_window,
            r.redirection == redirection,
            r.user_initiated == user_initiated,
    {
        WebviewNavigation { url, new_window, redirection, user_initiated }
    }

    /// Whether the navigation requests a new window to be created.
    pub fn is_new_window(&self) -> (r: bool)
        ensures
            r == self.new_window,
    {
        self.new_window
    }

    /// Whether the navigation is initiated by a redirection.
    pub fn is_redirection(&self) -> (r: bool)
        ensures
            r == self.redirection,
    {
        self.redirection
    }

    /// Whether the navigation is initiated by user actions.
    pub fn is_user_initiated(&self) -> (r: bool)
        ensures
            r == self.user_initiated,
    {
        self.user_initiated
    }
}

} // verus!
