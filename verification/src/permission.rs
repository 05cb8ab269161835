//! Permission requests raised by the web content.

use vstd::prelude::*;

verus! {

/// What a permission request asks for.
#[derive(Debug, Clone, Copy, PartialEq, Eq, Structural)]
pub enum PermissionType {
    Unknown,
    AudioMedia,
    VideoMedia,
    DesktopMedia,
    MouseLock,
    DeviceInfo,
    Location,
    Clipboard,
    Notification,
}

/// A pending permission request: what is asked and by which URL.  The
/// decision itself travels back to the engine through the embedding.
pub struct PermissionRequest {
    /// The requested permission.
    pub kind: PermissionType,
    /// The URL asking for it.
    pub url: String,
}

impl PermissionRequest {
    /// Wraps one permission request as the engine reported it.
    pub fn new(kind: PermissionType, url: String) -> (r: PermissionRequest)
        ensures
            r.kind == kind,
            r.url == url,
    {
        PermissionRequest { kind, url }
    }

    /// Gets the requested permission type.
    pub fn kind(&self) -> (k: PermissionType)
        ensures
            k == self.kind,
    {
        self.kind
    }
}

} // verus!
