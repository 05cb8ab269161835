//! Owning container for one opaque native pointer, bound to its host thread.

use vstd::prelude::*;

verus! {

/// An owning container for one opaque native pointer plus the id of the
/// thread on which the pointer may be freed.
///
/// The pointer is held as a plain number; it is `Some` exactly while the
/// native object is alive.  `take` empties the slot and is safe to call a
/// second time: the second call observes `None`.
pub struct NativeSlot {
    pointer: Option<u64>,
    host_thread: u64,
}

impl NativeSlot {
    /// The pointer held by the slot, if the native object is still alive.
    pub closed spec fn ptr(self) -> Option<u64> {
        self.pointer
    }

    /// The id of the thread on which the pointer may be freed.
    pub closed spec fn host(self) -> u64 {
        self.host_thread
    }

    /// True while the slot still owns a live pointer.
    pub open spec fn is_alive(self) -> bool {
        self.ptr() is Some
    }

    /// Wraps a freshly created native pointer, recording the calling thread
    /// as its host.
    pub fn new(pointer: u64, host_thread: u64) -> (s: Self)
        ensures
            s.ptr() == Some(pointer),
            s.host() == host_thread,
    {
        NativeSlot { pointer: Some(pointer), host_thread }
    }

    /// Whether `current` is the thread the slot was created on.
    pub fn is_host_thread(&self, current: u64) -> (r: bool)
        ensures
            r == (current == self.host()),
    {
        current == self.host_thread
    }

    /// Whether the slot still owns a live pointer.  Any thread may ask; only
    /// the host thread may act on the answer exclusively.
    pub fn has_pointer(&self) -> (r: bool)
        ensures
            r == self.is_alive(),
    {
        match self.pointer {
            Some(_) => true,
            None => false,
        }
    }

    /// Empties the slot, handing out the pointer exactly once.  The first
    /// call returns the pointer; every later call returns `None`.
    pub fn take(&mut self) -> (r: Option<u64>)
        ensures
            r == old(self).ptr(),
            !final(self).is_alive(),
            final(self).host() == old(self).host(),
    {
        let r = self.pointer;
        self.pointer = None;
        r
    }
}

} // verus!
