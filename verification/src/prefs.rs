//! Preferences for creating a webview.

use vstd::prelude::*;

verus! {

/// Preferences handed to the engine when a webview is created.  Cookies are
/// persistent and hardware acceleration is enabled by default.
pub struct Preferences {
    /// Whether cookies persist across sessions.
    pub persistent_cookies: bool,
    /// Whether hardware acceleration is enabled.
    pub hardware_acceleration: bool,
    /// Where browser data is stored; `None` leaves the engine's default.
    pub storage_path: Option<String>,
    /// The user agent; `None` leaves the engine's default.
    pub user_agent: Option<String>,
    /// Browser flags, in the order they were added.
    pub browser_flags: Vec<String>,
}

impl Preferences {
    /// Creates a new preferences object with the defaults.
    pub fn new() -> (r: Preferences)
        ensures
            r.persistent_cookies,
            r.hardware_acceleration,
            r.storage_path is None,
            r.user_agent is None,
            r.browser_flags@ == Seq::<String>::empty(),
    {
        Preferences {
            persistent_cookies: true,
            hardware_acceleration: true,
            storage_path: None,
            user_agent: None,
            browser_flags: Vec::new(),
        }
    }

    /// Sets whether cookies should be persistent.
    pub fn set_persistent_cookies(&mut self, persist: bool)
        ensures
            *final(self) == (Preferences { persistent_cookies: persist, ..*old(self) }),
    {
        self.persistent_cookies = persist;
    }

    /// Sets whether hardware acceleration is enabled.
    pub fn set_hardware_acceleration(&mut self, acc: bool)
        ensures
            *final(self) == (Preferences { hardware_acceleration: acc, ..*old(self) }),
    {
        self.hardware_acceleration = acc;
    }

    /// Sets the path to store browser data.
    pub fn set_storage_path(&mut self, pt: String)
        ensures
            *final(self) == (Preferences { storage_path: Some(pt), ..*old(self) }),
    {
        self.storage_path = Some(pt);
    }

    /// Adds a browser flag.
    pub fn add_browser_flag(&mut self, flag: String)
        ensures
            final(self).browser_flags@ == old(self).browser_flags@.push(flag),
            final(self).persistent_cookies == old(self).persistent_cookies,
            final(self).hardware_acceleration == old(self).hardware_acceleration,
            final(self).storage_path == old(self).storage_path,
            final(self).user_agent == old(self).user_agent,
    {
        self.browser_flags.push(flag);
    }

    /// Sets the user agent.
    pub fn set_user_agent(&mut self, ua: String)
        ensures
            *final(self) == (Preferences { user_agent: Some(ua), ..*old(self) }),
    {
        self.user_agent = Some(ua);
    }
}

} // verus!
