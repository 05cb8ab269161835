//! Static content embedded into the webview, served under a chosen name.

use vstd::prelude::*;

use crate::stash::Stash;

verus! {

/// Content to be embedded into a webview together with its MIME type.
pub struct EmbedFile {
    /// The embedded bytes.
    pub data: Vec<u8>,
    /// The MIME type the content is served with.
    pub mime: String,
}

impl EmbedFile {
    /// Creates a new embedded file from the given stash and MIME type.  The
    /// content is copied, so the stash may be dropped right after.
    pub fn new(content: &Stash, mime: String) -> (r: EmbedFile)
        ensures
            r.data@ == content.bytes@,
            r.mime == mime,
    {
        EmbedFile { data: vstd::slice::slice_to_vec(content.data()), mime }
    }
}

} // verus!
