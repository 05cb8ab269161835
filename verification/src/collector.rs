//! The deferred collector: the single choke point where cleanup jobs that
//! originated on foreign threads are routed back to the host thread.

use vstd::prelude::*;

verus! {

/// Which resource a queued cleanup job frees.
#[derive(Debug, Clone, Copy, PartialEq, Eq, Structural)]
pub enum CleanupTarget {
    /// The application object.
    App,
    /// The webview object at this index.
    Webview(usize),
}

/// A thread-confined queue of pending cleanup jobs plus a live-object count.
///
/// Every resource registers itself at creation and is discharged exactly once
/// when its native object is freed, so `live` counts the resources whose
/// cleanup has not run yet.  The queue holds the jobs of resources whose last
/// handle was dropped on a foreign thread, in the order the drops happened.
pub struct Collector {
    /// Cleanup jobs waiting to be executed on the host thread, FIFO.
    pub queue: Vec<CleanupTarget>,
    /// Resources registered and not yet freed.
    pub live: u64,
    /// Id of the thread that may execute cleanup jobs.
    pub host_thread: u64,
}

impl Collector {
    /// A fresh collector with no registered resources.
    pub fn new(host_thread: u64) -> (c: Collector)
        ensures
            c.queue@ == Seq::<CleanupTarget>::empty(),
            c.live == 0,
            c.host_thread == host_thread,
    {
        Collector { queue: Vec::new(), live: 0, host_thread }
    }

    /// A new resource takes its share of the live-object count.
    pub fn register(&mut self)
        requires
            old(self).live < u64::MAX,
        ensures
            final(self).live == old(self).live + 1,
            final(self).queue == old(self).queue,
            final(self).host_thread == old(self).host_thread,
    {
        self.live = self.live + 1;
    }

    /// A resource freed inline on the host thread gives its share back.
    pub fn discharge(&mut self)
        requires
            old(self).live > 0,
        ensures
            final(self).live == old(self).live - 1,
            final(self).queue == old(self).queue,
            final(self).host_thread == old(self).host_thread,
    {
        self.live = self.live - 1;
    }

    /// A foreign-thread drop hands its cleanup job to the collector.
    pub fn enqueue(&mut self, target: CleanupTarget)
        ensures
            final(self).queue@ == old(self).queue@.push(target),
            final(self).live == old(self).live,
            final(self).host_thread == old(self).host_thread,
    {
        self.queue.push(target);
    }

    /// Removes the oldest queued job, if any, and discharges its share of the
    /// live count.  Only the host thread drains; the runtime enforces that.
    pub fn pop_job(&mut self) -> (r: Option<CleanupTarget>)
        requires
            old(self).queue@.len() > 0 ==> old(self).live > 0,
        ensures
            final(self).host_thread == old(self).host_thread,
            old(self).queue@.len() == 0 ==> r is None && *final(self) == *old(self),
            old(self).queue@.len() > 0 ==> {
                &&& r == Some(old(self).queue@[0])
                &&& final(self).queue@ == old(self).queue@.subrange(
                    1,
                    old(self).queue@.len() as int,
                )
                &&& final(self).live == old(self).live - 1
            },
    {
        if self.queue.len() == 0 {
            None
        } else {
            let t = self.queue.remove(0);
            self.live = self.live - 1;
            Some(t)
        }
    }
}

} // verus!
