//! An immutable byte container used to exchange binary data with the engine.

use vstd::prelude::*;

verus! {

/// An immutable block of binary data.  The engine copies stash contents
/// whenever it keeps them, so the model owns its bytes outright; a stash
/// built from borrowed data holds a copy of it.
pub struct Stash {
    /// The bytes the stash carries.
    pub bytes: Vec<u8>,
}

impl Stash {
    /// Creates a stash carrying a copy of the given data.
    pub fn view(data: &[u8]) -> (s: Stash)
        ensures
            s.bytes@ == data@,
    {
        Stash { bytes: vstd::slice::slice_to_vec(data) }
    }

    /// Creates a stash by copying the given data.
    pub fn copy(data: &[u8]) -> (s: Stash)
        ensures
            s.bytes@ == data@,
    {
        Stash { bytes: vstd::slice::slice_to_vec(data) }
    }

    /// The size of the stash.
    pub fn size(&self) -> (n: usize)
        ensures
            n == self.bytes@.len(),
    {
        self.bytes.len()
    }

    /// The data inside the stash.
    pub fn data(&self) -> (d: &[u8])
        ensures
            d@ == self.bytes@,
    {
        self.bytes.as_slice()
    }
}

} // verus!
