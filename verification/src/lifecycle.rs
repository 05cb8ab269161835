//! The lifecycle of one shared, thread-confined resource.
//!
//! A resource is owned jointly by a number of strong handles.  Handles may be
//! cloned and dropped on any thread, but the native object behind the
//! resource may be freed only on its host thread.  Dropping the last handle
//! on the host thread frees inline; dropping it on a foreign thread parks the
//! resource in a pending state until the host thread drains the deferred
//! collector.  This module captures that state machine and proves that the
//! native free runs exactly once, whatever the interleaving.

use vstd::prelude::*;

verus! {

/// Where a resource stands in its two-phase teardown.
#[derive(Debug, Clone, Copy, PartialEq, Eq, Structural)]
pub enum SlotState {
    /// The native object is alive.
    Live,
    /// The last handle was dropped on a foreign thread; the cleanup job sits
    /// in the deferred collector and the native object is still allocated.
    PendingDeferredFree,
    /// The native object has been freed.  Terminal.
    Freed,
}

/// One operation a program can perform on the handles of a resource.
#[derive(Debug, Clone, Copy, PartialEq, Eq, Structural)]
pub enum HandleOp {
    /// Clone one of the live handles.
    CloneRef,
    /// Drop one handle; the payload is the id of the thread doing so.
    DropRef(u64),
    /// The host thread executes the resource's deferred cleanup job.
    Collect,
}

/// What a handle drop decided to do.
#[derive(Debug, Clone, Copy, PartialEq, Eq, Structural)]
pub enum DropOutcome {
    /// Other handles remain; nothing was freed.
    SharedRemain,
    /// This was the last handle and we are on the host thread: freed inline.
    FreedInline,
    /// This was the last handle but we are on a foreign thread: the cleanup
    /// was deferred to the collector.
    Deferred,
}

/// The lifecycle state of one resource: how many strong handles exist, where
/// its teardown stands, and how many times the native free has run.
pub struct Lifecycle {
    /// Number of strong handles currently alive.
    pub strong: u64,
    /// Teardown phase of the native object.
    pub state: SlotState,
    /// How many times the native free has run for this resource.
    pub frees: u64,
    /// Id of the thread on which the native object may be freed.
    pub host_thread: u64,
}

impl Lifecycle {
    /// Well-formedness: the native free has run exactly once in the terminal
    /// state and never before it, and handles exist only while the object is
    /// live.
    pub open spec fn wf(self) -> bool {
        &&& (self.state == SlotState::Freed <==> self.frees == 1)
        &&& (self.state != SlotState::Freed ==> self.frees == 0)
        &&& (self.strong > 0 ==> self.state == SlotState::Live)
    }

    /// Whether `op` may be performed in this state.
    pub open spec fn enabled(self, op: HandleOp) -> bool {
        match op {
            HandleOp::CloneRef => self.strong > 0 && self.strong < u64::MAX,
            HandleOp::DropRef(_) => self.strong > 0,
            HandleOp::Collect => self.state == SlotState::PendingDeferredFree,
        }
    }

    /// The transition each operation makes.
    pub open spec fn step(self, op: HandleOp) -> Lifecycle {
        match op {
            HandleOp::CloneRef => Lifecycle { strong: (self.strong + 1) as u64, ..self },
            HandleOp::DropRef(thread) => if self.strong > 1 {
                Lifecycle { strong: (self.strong - 1) as u64, ..self }
            } else if thread == self.host_thread {
                Lifecycle { strong: 0, state: SlotState::Freed, frees: 1, ..self }
            } else {
                Lifecycle { strong: 0, state: SlotState::PendingDeferredFree, frees: 0, ..self }
            },
            HandleOp::Collect => Lifecycle { state: SlotState::Freed, frees: 1, ..self },
        }
    }

    /// A fresh resource: one handle, live, never freed.
    pub fn new(host_thread: u64) -> (l: Lifecycle)
        ensures
            l == (Lifecycle { strong: 1, state: SlotState::Live, frees: 0, host_thread }),
            l.wf(),
    {
        Lifecycle { strong: 1, state: SlotState::Live, frees: 0, host_thread }
    }

    /// Clones a handle: one more strong reference, nothing else changes.
    pub fn clone_ref(&mut self)
        requires
            old(self).enabled(HandleOp::CloneRef),
        ensures
            *final(self) == old(self).step(HandleOp::CloneRef),
    {
        self.strong = self.strong + 1;
    }

    /// Drops a handle on the thread with id `current`.
    ///
    /// While other handles remain the native object stays untouched.  The
    /// last drop frees inline on the host thread and defers to the collector
    /// on any other thread; either way the free runs at most once.
    pub fn drop_ref(&mut self, current: u64) -> (r: DropOutcome)
        requires
            old(self).wf(),
            old(self).strong > 0,
        ensures
            *final(self) == old(self).step(HandleOp::DropRef(current)),
            final(self).wf(),
            r == (if old(self).strong > 1 {
                DropOutcome::SharedRemain
            } else if current == old(self).host_thread {
                DropOutcome::FreedInline
            } else {
                DropOutcome::Deferred
            }),
    {
        if self.strong > 1 {
            self.strong = self.strong - 1;
            DropOutcome::SharedRemain
        } else if current == self.host_thread {
            self.strong = 0;
            self.state = SlotState::Freed;
            self.frees = self.frees + 1;
            DropOutcome::FreedInline
        } else {
            self.strong = 0;
            self.state = SlotState::PendingDeferredFree;
            DropOutcome::Deferred
        }
    }

    /// The host thread executes the deferred cleanup job of this resource.
    pub fn collect(&mut self)
        requires
            old(self).wf(),
            old(self).state == SlotState::PendingDeferredFree,
        ensures
            *final(self) == old(self).step(HandleOp::Collect),
            final(self).wf(),
            final(self).frees == 1,
    {
        self.state = SlotState::Freed;
        self.frees = self.frees + 1;
    }
}

/// The state after performing every operation of `ops` in order.
pub open spec fn run_ops(l: Lifecycle, ops: Seq<HandleOp>) -> Lifecycle
    decreases ops.len(),
{
    if ops.len() == 0 {
        l
    } else {
        run_ops(l.step(ops[0]), ops.subrange(1, ops.len() as int))
    }
}

/// Whether every operation of `ops` is enabled at the state it runs in.
pub open spec fn ops_enabled(l: Lifecycle, ops: Seq<HandleOp>) -> bool
    decreases ops.len(),
{
    ops.len() == 0 || (l.enabled(ops[0]) && ops_enabled(
        l.step(ops[0]),
        ops.subrange(1, ops.len() as int),
    ))
}

/// How many clones a sequence of operations contains.
pub open spec fn count_clones(ops: Seq<HandleOp>) -> int
    decreases ops.len(),
{
    if ops.len() == 0 {
        0
    } else {
        (if ops[0] == HandleOp::CloneRef {
            1int
        } else {
            0int
        }) + count_clones(ops.subrange(1, ops.len() as int))
    }
}

/// How many drops a sequence of operations contains.
pub open spec fn count_drops(ops: Seq<HandleOp>) -> int
    decreases ops.len(),
{
    if ops.len() == 0 {
        0
    } else {
        (if ops[0] is DropRef {
            1int
        } else {
            0int
        }) + count_drops(ops.subrange(1, ops.len() as int))
    }
}

/// A resource is sound when it is well formed and, once all handles are
/// gone, it is no longer in the live state.
pub open spec fn sound(l: Lifecycle) -> bool {
    l.wf() && (l.strong == 0 ==> l.state != SlotState::Live)
}

/// Every enabled operation preserves soundness and accounts for handles:
/// clones add one strong reference and drops take one away.
pub proof fn lemma_step_sound(l: Lifecycle, op: HandleOp)
    requires
        sound(l),
        l.enabled(op),
    ensures
        sound(l.step(op)),
        l.step(op).strong == l.strong + (if op == HandleOp::CloneRef {
            1int
        } else {
            0int
        }) - (if op is DropRef {
            1int
        } else {
            0int
        }),
        l.step(op).host_thread == l.host_thread,
{
}

/// Running any enabled sequence of operations keeps the resource sound, and
/// leaves exactly `strong + clones - drops` handles alive.
pub proof fn lemma_run_ops_sound(l: Lifecycle, ops: Seq<HandleOp>)
    requires
        sound(l),
        ops_enabled(l, ops),
    ensures
        sound(run_ops(l, ops)),
        run_ops(l, ops).strong == l.strong + count_clones(ops) - count_drops(ops),
        run_ops(l, ops).host_thread == l.host_thread,
    decreases ops.len(),
{
    if ops.len() > 0 {
        lemma_step_sound(l, ops[0]);
        lemma_run_ops_sound(l.step(ops[0]), ops.subrange(1, ops.len() as int));
    }
}

/// The native free runs exactly once: starting from a fresh resource, any
/// enabled interleaving of clones and drops (on arbitrary threads) that drops
/// every handle and does not end with a cleanup still parked in the collector
/// has freed the native object exactly one time.  In particular, no
/// interleaving ever frees it twice: well-formedness bounds `frees` by one at
/// every intermediate state as well.
pub proof fn lemma_free_exactly_once(host_thread: u64, ops: Seq<HandleOp>)
    requires
        ops_enabled(Lifecycle { strong: 1, state: SlotState::Live, frees: 0, host_thread }, ops),
        count_drops(ops) == 1 + count_clones(ops),
        run_ops(
            Lifecycle { strong: 1, state: SlotState::Live, frees: 0, host_thread },
            ops,
        ).state != SlotState::PendingDeferredFree,
    ensures
        run_ops(Lifecycle { strong: 1, state: SlotState::Live, frees: 0, host_thread }, ops).frees
            == 1,
        run_ops(Lifecycle { strong: 1, state: SlotState::Live, frees: 0, host_thread }, ops).strong
            == 0,
{
    let l0 = Lifecycle { strong: 1, state: SlotState::Live, frees: 0, host_thread };
    lemma_run_ops_sound(l0, ops);
}

/// Deferred teardown completes: when the last handle is dropped on a foreign
/// thread the resource is not freed synchronously, and the next drain of its
/// cleanup job frees it exactly once.
pub proof fn lemma_deferred_then_drained(l: Lifecycle, thread: u64)
    requires
        l.wf(),
        l.strong == 1,
        thread != l.host_thread,
    ensures
        l.step(HandleOp::DropRef(thread)).frees == 0,
        l.step(HandleOp::DropRef(thread)).state == SlotState::PendingDeferredFree,
        l.step(HandleOp::DropRef(thread)).step(HandleOp::Collect).frees == 1,
        l.step(HandleOp::DropRef(thread)).step(HandleOp::Collect).state == SlotState::Freed,
{
}

} // verus!
