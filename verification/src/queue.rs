//! The cross-thread post queue: the FIFO channel into the native event loop.

use vstd::prelude::*;

verus! {

/// One message waiting in the event loop's queue.
#[derive(Debug, Clone, Copy, PartialEq, Eq, Structural)]
pub enum QueueItem {
    /// A posted closure, identified by its token.
    Posted(u64),
    /// A self-addressed request to drain the deferred collector.
    DrainRequest,
    /// A request to leave the event loop.
    QuitRequest,
}

/// The queue of messages flowing into the event loop, together with the flag
/// that tells whether the loop has stopped accepting new posts.
pub struct EventQueue {
    /// Pending messages, oldest first.
    pub items: Vec<QueueItem>,
    /// True once the event loop has returned; new posts are then ignored.
    pub stopped: bool,
}

impl EventQueue {
    /// An empty queue of a freshly started application.
    pub fn new() -> (q: EventQueue)
        ensures
            q.items@ == Seq::<QueueItem>::empty(),
            !q.stopped,
    {
        EventQueue { items: Vec::new(), stopped: false }
    }

    /// Appends a message unconditionally.  Used for messages that bypass the
    /// stopped check, such as a quit issued on the host thread.
    pub fn push(&mut self, item: QueueItem)
        ensures
            final(self).items@ == old(self).items@.push(item),
            final(self).stopped == old(self).stopped,
    {
        self.items.push(item);
    }

    /// Offers a message subject to the stopped flag: once the loop has
    /// stopped, the message is ignored and the queue is unchanged.  Returns
    /// whether the message was accepted.  Acceptance appends at the tail, so
    /// messages offered from one thread keep their submission order.
    pub fn offer(&mut self, item: QueueItem) -> (accepted: bool)
        ensures
            accepted == !old(self).stopped,
            accepted ==> final(self).items@ == old(self).items@.push(item),
            !accepted ==> *final(self) == *old(self),
            final(self).stopped == old(self).stopped,
    {
        if self.stopped {
            false
        } else {
            self.items.push(item);
            true
        }
    }

    /// Removes and returns the oldest message, if any.
    pub fn pop(&mut self) -> (r: Option<QueueItem>)
        ensures
            final(self).stopped == old(self).stopped,
            old(self).items@.len() == 0 ==> r is None && *final(self) == *old(self),
            old(self).items@.len() > 0 ==> {
                &&& r == Some(old(self).items@[0])
                &&& final(self).items@ == old(self).items@.subrange(
                    1,
                    old(self).items@.len() as int,
                )
            },
    {
        if self.items.len() == 0 {
            None
        } else {
            Some(self.items.remove(0))
        }
    }

    /// Marks the loop as no longer accepting posts (set when `run` returns)
    /// or as accepting them again (cleared when `run` is entered).
    pub fn set_stopped(&mut self, stopped: bool)
        ensures
            final(self).items == old(self).items,
            final(self).stopped == stopped,
    {
        self.stopped = stopped;
    }
}

/// A posted closure that a timer thread races the event loop for: whichever
/// side takes the token first consumes it, the other observes it already
/// gone.  At most one side ever receives the token.
pub struct TimedPost {
    /// The token of the closure, present until one side consumes it.
    pub token: Option<u64>,
}

impl TimedPost {
    /// Wraps a closure token for a timed post.
    pub fn new(token: u64) -> (t: TimedPost)
        ensures
            t.token == Some(token),
    {
        TimedPost { token: Some(token) }
    }

    /// Consumes the token.  The first call (from either the event loop or the
    /// timer) receives it; every later call receives `None`, so the closure
    /// can neither run twice nor be dropped twice.
    pub fn consume(&mut self) -> (r: Option<u64>)
        ensures
            r == old(self).token,
            final(self).token is None,
    {
        let r = self.token;
        self.token = None;
        r
    }
}

} // verus!
