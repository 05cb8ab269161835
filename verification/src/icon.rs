//! Icon data exchanged with the webview.

use vstd::prelude::*;

use crate::stash::Stash;

verus! {

/// Icon data as the engine handed it over or as it will receive it.  Whether
/// bytes decode to an image is the engine's decision; the library carries
/// them unchanged.
pub struct Icon {
    /// The encoded icon bytes.
    pub bytes: Vec<u8>,
}

impl Icon {
    /// Creates an icon carrying the bytes of the given stash.
    pub fn from_data(stash: &Stash) -> (icon: Icon)
        ensures
            icon.bytes@ == stash.bytes@,
    {
        Icon { bytes: vstd::slice::slice_to_vec(stash.data()) }
    }

    /// Whether the icon holds no data.
    pub fn is_empty(&self) -> (r: bool)
        ensures
            r == (self.bytes@.len() == 0),
    {
        self.bytes.len() == 0
    }

    /// Copies and returns the icon content.
    pub fn data(&self) -> (s: Stash)
        ensures
            s.bytes@ == self.bytes@,
    {
        Stash::copy(self.bytes.as_slice())
    }
}

} // verus!
