//! A script to be injected into webview frames.

use vstd::prelude::*;

verus! {

/// Possible values of the time that a script is injected.
#[derive(Debug, Clone, Copy, PartialEq, Eq, Structural)]
pub enum ScriptLoadTime {
    /// Executes the script when the document is created.
    Creation,
    /// Executes the script when the DOM is ready.
    Ready,
}

/// Possible values of the frame that a script is injected into.
#[derive(Debug, Clone, Copy, PartialEq, Eq, Structural)]
pub enum ScriptWebFrame {
    /// Executes the script only in the top frame.
    Top,
    /// Executes the script in all frames.
    All,
}

/// A script together with the load time and frame it is injected at.  A fresh
/// script targets the top frame and is not permanent.
pub struct Script {
    /// The code of the script.
    pub code: String,
    /// When the script runs.
    pub time: ScriptLoadTime,
    /// Which frames the script is injected into.
    pub frame: ScriptWebFrame,
    /// Whether the script survives a clear of injected scripts.
    pub permanent: bool,
}

impl Script {
    /// Creates a new script with the given code and load time.
    pub fn new(code: String, time: ScriptLoadTime) -> (r: Script)
        ensures
            r.code == code,
            r.time == time,
            r.frame == ScriptWebFrame::Top,
            !r.permanent,
    {
        Script { code, time, frame: ScriptWebFrame::Top, permanent: false }
    }

    /// Sets the frame this script should be injected into.
    pub fn set_frame(&mut self, frame: ScriptWebFrame)
        ensures
            *final(self) == (Script { frame, ..*old(self) }),
    {
        self.frame = frame;
    }

    /// Sets the time to inject the script.
    pub fn set_time(&mut self, time: ScriptLoadTime)
        ensures
            *final(self) == (Script { time, ..*old(self) }),
    {
        self.time = time;
    }

    /// Sets whether the script should be permanent.  Permanent scripts cannot
    /// be removed once injected.
    pub fn set_permanent(&mut self, permanent: bool)
        ensures
            *final(self) == (Script { permanent, ..*old(self) }),
    {
        self.permanent = permanent;
    }

    /// Sets the code content of the script.
    pub fn set_code(&mut self, code: String)
        ensures
            *final(self) == (Script { code, ..*old(self) }),
    {
        self.code = code;
    }
}

} // verus!
