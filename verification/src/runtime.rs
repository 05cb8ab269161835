//! The runtime: one application object, its webviews, the deferred collector
//! and the event queue, composed into a single verified state machine.
//!
//! Threads are represented by their ids: every operation that the engine
//! restricts to the event thread takes the calling thread's id and either
//! refuses or defers exactly as the handle-based API does.  An embedding
//! holds the real closures (keyed by token) and the real native pointers; it
//! performs each decision this state machine hands back.

use vstd::prelude::*;

use crate::collector::CleanupTarget;
use crate::collector::Collector;
use crate::lifecycle::DropOutcome;
use crate::lifecycle::Lifecycle;
use crate::lifecycle::SlotState;
use crate::lifecycle::sound;
use crate::queue::EventQueue;
use crate::queue::QueueItem;
use crate::registry::Delivery;
use crate::registry::EventKind;
use crate::registry::EventRegistry;
use crate::registry::HandlerEntry;
use crate::registry::OnceEntry;
use crate::registry::SchemeSlot;

verus! {

/// Two runtime states that differ at most in the callback registry of the
/// webview at index `i`.
pub open spec fn same_but_registry(post: Runtime, pre: Runtime, i: int) -> bool {
    &&& post.host_thread == pre.host_thread
    &&& post.app == pre.app
    &&& post.collector == pre.collector
    &&& post.queue == pre.queue
    &&& post.webviews@.len() == pre.webviews@.len()
    &&& forall|j: int|
        0 <= j < pre.webviews@.len() && j != i ==> post.webviews@[j] == pre.webviews@[j]
    &&& post.webviews@[i].life == pre.webviews@[i].life
}

/// What one iteration of the event loop did.
#[derive(Debug)]
pub enum RunEvent {
    /// The queue was empty; nothing to do.
    Idle,
    /// A posted closure with this token ran on the event thread.
    Ran(u64),
    /// A posted closure was discarded unrun: its weak application reference
    /// no longer upgrades.
    DroppedPost(u64),
    /// A drain request ran the deferred collector; the payload holds the
    /// callback tokens the collected webviews released.
    Drained(Vec<u64>),
    /// A quit request was consumed.
    QuitSeen,
}

/// Whether a quit request is waiting somewhere in the queue.
pub open spec fn has_quit(s: Seq<QueueItem>) -> bool
    decreases s.len(),
{
    if s.len() == 0 {
        false
    } else if s[0] == QueueItem::QuitRequest {
        true
    } else {
        has_quit(s.subrange(1, s.len() as int))
    }
}

/// The posted tokens that precede the first quit request, in queue order:
/// exactly the closures one call to `run` executes.
pub open spec fn posted_before_quit(s: Seq<QueueItem>) -> Seq<u64>
    decreases s.len(),
{
    if s.len() == 0 {
        Seq::empty()
    } else {
        match s[0] {
            QueueItem::Posted(t) => seq![t] + posted_before_quit(s.subrange(1, s.len() as int)),
            QueueItem::QuitRequest => Seq::empty(),
            QueueItem::DrainRequest => posted_before_quit(s.subrange(1, s.len() as int)),
        }
    }
}

/// Removing the front of a duplicate-free queue removes exactly that target
/// from its membership.
pub proof fn lemma_queue_pop_contains(q: Seq<CleanupTarget>, q2: Seq<CleanupTarget>)
    requires
        q.len() > 0,
        q2 == q.subrange(1, q.len() as int),
        forall|k1: int, k2: int| 0 <= k1 < k2 < q.len() ==> (#[trigger] q[k1]) != (#[trigger] q[k2]),
    ensures
        forall|t: CleanupTarget| #[trigger] q2.contains(t) <==> (q.contains(t) && t != q[0]),
{
    assert forall|t: CleanupTarget| #[trigger] q2.contains(t) implies (q.contains(t) && t
        != q[0]) by {
        let k = choose|k: int| 0 <= k < q2.len() && q2[k] == t;
        assert(q[k + 1] == t);
    }
    assert forall|t: CleanupTarget| q.contains(t) && t != q[0] implies q2.contains(t) by {
        let k = choose|k: int| 0 <= k < q.len() && q[k] == t;
        assert(q2[k - 1] == t);
    }
}

/// How one resource may have changed while the collector drained: either it
/// was untouched, or its deferred cleanup ran, freeing the native object and
/// releasing every callback of its registry.
pub open spec fn collected_from(w_new: WebviewState, w_old: WebviewState) -> bool {
    ||| w_new == w_old
    ||| {
        &&& w_old.life.state == SlotState::PendingDeferredFree
        &&& w_new.life == (Lifecycle {
            strong: w_old.life.strong,
            state: SlotState::Freed,
            frees: 1,
            host_thread: w_old.life.host_thread,
        })
        &&& w_new.registry.entries@.len() == 0
        &&& w_new.registry.once_entries@.len() == 0
        &&& w_new.registry.message_handler is None
        &&& w_new.registry.scheme_handlers@.len() == 0
    }
}

/// One webview: its lifecycle plus the callbacks registered on it.
pub struct WebviewState {
    /// Handle accounting and teardown phase of the native webview object.
    pub life: Lifecycle,
    /// The callbacks registered on this webview.
    pub registry: EventRegistry,
}

/// The whole process state around one application object.
pub struct Runtime {
    /// The event thread: the thread the application was created on.
    pub host_thread: u64,
    /// Lifecycle of the application object itself.
    pub app: Lifecycle,
    /// Every webview ever created, by index; freed ones stay as tombstones so
    /// indices remain stable.
    pub webviews: Vec<WebviewState>,
    /// The deferred collector all resources report to.
    pub collector: Collector,
    /// The FIFO queue of messages into the event loop.
    pub queue: EventQueue,
    /// Closures handed to the background worker pool and not yet picked up.
    /// The pool promises no ordering and no eventual execution; jobs left
    /// here when the pool is torn down are lost.
    pub pool: Vec<u64>,
}

/// How many of the webviews still have an uncollected native object.
pub open spec fn count_live(s: Seq<WebviewState>) -> int
    decreases s.len(),
{
    if s.len() == 0 {
        0
    } else {
        count_live(s.subrange(0, s.len() - 1)) + (if s.last().life.state != SlotState::Freed {
            1int
        } else {
            0int
        })
    }
}

/// How many of the webviews still have at least one strong handle.  Each such
/// webview holds one strong reference to the application.
pub open spec fn count_holding(s: Seq<WebviewState>) -> int
    decreases s.len(),
{
    if s.len() == 0 {
        0
    } else {
        count_holding(s.subrange(0, s.len() - 1)) + (if s.last().life.strong > 0 {
            1int
        } else {
            0int
        })
    }
}

/// Replacing one element changes each count by that element's contribution.
pub proof fn lemma_counts_update(s: Seq<WebviewState>, i: int, x: WebviewState)
    requires
        0 <= i < s.len(),
    ensures
        count_live(s.update(i, x)) == count_live(s) + (if x.life.state != SlotState::Freed {
            1int
        } else {
            0int
        }) - (if s[i].life.state != SlotState::Freed {
            1int
        } else {
            0int
        }),
        count_holding(s.update(i, x)) == count_holding(s) + (if x.life.strong > 0 {
            1int
        } else {
            0int
        }) - (if s[i].life.strong > 0 {
            1int
        } else {
            0int
        }),
    decreases s.len(),
{
    let t = s.update(i, x);
    if i == s.len() - 1 {
        assert(t.subrange(0, t.len() - 1) =~= s.subrange(0, s.len() - 1));
        assert(t.last() == x);
    } else {
        assert(t.subrange(0, t.len() - 1) =~= s.subrange(0, s.len() - 1).update(i, x));
        assert(t.last() == s.last());
        lemma_counts_update(s.subrange(0, s.len() - 1), i, x);
    }
}

/// Appending one element adds that element's contribution to each count.
pub proof fn lemma_counts_push(s: Seq<WebviewState>, x: WebviewState)
    ensures
        count_live(s.push(x)) == count_live(s) + (if x.life.state != SlotState::Freed {
            1int
        } else {
            0int
        }),
        count_holding(s.push(x)) == count_holding(s) + (if x.life.strong > 0 {
            1int
        } else {
            0int
        }),
{
    assert(s.push(x).subrange(0, s.push(x).len() - 1) =~= s);
    assert(s.push(x).last() == x);
}

/// The counts are bounded below by any single witness, and every counted
/// element is bounded above by the length.
pub proof fn lemma_counts_bounds(s: Seq<WebviewState>)
    ensures
        0 <= count_live(s) <= s.len(),
        0 <= count_holding(s) <= s.len(),
        forall|i: int|
            0 <= i < s.len() && (#[trigger] s[i]).life.state != SlotState::Freed ==> count_live(s)
                >= 1,
        forall|i: int|
            0 <= i < s.len() && (#[trigger] s[i]).life.strong > 0 ==> count_holding(s) >= 1,
        (forall|i: int| 0 <= i < s.len() ==> (#[trigger] s[i]).life.state == SlotState::Freed)
            ==> count_live(s) == 0,
    decreases s.len(),
{
    if s.len() > 0 {
        lemma_counts_bounds(s.subrange(0, s.len() - 1));
        assert forall|i: int|
            0 <= i < s.len() && (#[trigger] s[i]).life.state != SlotState::Freed implies count_live(
            s,
        ) >= 1 by {
            if i < s.len() - 1 {
                assert(s.subrange(0, s.len() - 1)[i] == s[i]);
            }
        }
        assert forall|i: int|
            0 <= i < s.len() && (#[trigger] s[i]).life.strong > 0 implies count_holding(s) >= 1 by {
            if i < s.len() - 1 {
                assert(s.subrange(0, s.len() - 1)[i] == s[i]);
            }
        }
        if forall|i: int| 0 <= i < s.len() ==> (#[trigger] s[i]).life.state == SlotState::Freed {
            assert forall|i: int| 0 <= i < s.len() - 1 implies (#[trigger] s.subrange(
                0,
                s.len() - 1,
            )[i]).life.state == SlotState::Freed by {
                assert(s.subrange(0, s.len() - 1)[i] == s[i]);
            }
        }
    }
}

/// Pushing a target onto the cleanup queue adds exactly that target to the
/// queue's membership.
pub proof fn lemma_queue_push_contains(
    q: Seq<CleanupTarget>,
    q2: Seq<CleanupTarget>,
    x: CleanupTarget,
)
    requires
        q2 == q.push(x),
    ensures
        forall|t: CleanupTarget| #[trigger] q2.contains(t) <==> (q.contains(t) || t == x),
{
    assert forall|t: CleanupTarget| #[trigger] q2.contains(t) implies (q.contains(t) || t == x) by {
        let k = choose|k: int| 0 <= k < q2.len() && q2[k] == t;
        if k < q.len() {
            assert(q[k] == t);
        }
    }
    assert forall|t: CleanupTarget| q.contains(t) || t == x implies q2.contains(t) by {
        if q.contains(t) {
            let k = choose|k: int| 0 <= k < q.len() && q[k] == t;
            assert(q2[k] == t);
        } else {
            assert(q2[q.len() as int] == t);
        }
    }
}

/// In every reachable runtime state the native free has run at most once per
/// resource, and exactly once for each resource in its terminal state: the
/// free count never exceeds one, whatever interleaving of clones, drops and
/// drains led here.
pub proof fn lemma_frees_at_most_once(rt: Runtime)
    requires
        rt.inv(),
    ensures
        rt.app.frees <= 1,
        rt.app.frees == 1 <==> rt.app.state == SlotState::Freed,
        forall|i: int|
            0 <= i < rt.webviews@.len() ==> (#[trigger] rt.webviews@[i]).life.frees <= 1,
        forall|i: int|
            0 <= i < rt.webviews@.len() ==> ((#[trigger] rt.webviews@[i]).life.frees == 1
                <==> rt.webviews@[i].life.state == SlotState::Freed),
{
}

impl Runtime {
    /// Resources whose native object has not been freed yet: exactly the
    /// resources still carrying a share of the collector's live count.
    pub open spec fn live_count(self) -> int {
        (if self.app.state != SlotState::Freed {
            1int
        } else {
            0int
        }) + count_live(self.webviews@)
    }

    /// Webviews that still have a strong handle; each holds one strong
    /// reference to the application.
    pub open spec fn holding_count(self) -> int {
        count_holding(self.webviews@)
    }

    /// Strong application handles held by the embedding itself, beyond the
    /// ones the live webviews hold internally.
    pub open spec fn app_user_handles(self) -> int {
        self.app.strong - self.holding_count()
    }

    /// A cleanup job may only name the application or an existing webview.
    pub open spec fn target_valid(self, t: CleanupTarget) -> bool {
        match t {
            CleanupTarget::App => true,
            CleanupTarget::Webview(i) => i < self.webviews@.len(),
        }
    }

    /// The system invariant, preserved by every operation.
    pub open spec fn inv(self) -> bool {
        &&& self.app.host_thread == self.host_thread
        &&& self.collector.host_thread == self.host_thread
        &&& sound(self.app)
        &&& forall|i: int|
            0 <= i < self.webviews@.len() ==> sound((#[trigger] self.webviews@[i]).life)
        &&& forall|i: int|
            0 <= i < self.webviews@.len() ==> (#[trigger] self.webviews@[i]).life.host_thread
                == self.host_thread
        &&& forall|i: int|
            0 <= i < self.webviews@.len() ==> (#[trigger] self.webviews@[i]).registry.wf()
        &&& self.collector.live == self.live_count()
        &&& (self.app.state == SlotState::PendingDeferredFree <==> self.collector.queue@.contains(
            CleanupTarget::App,
        ))
        &&& forall|i: int|
            0 <= i < self.webviews@.len() ==> ((#[trigger] self.webviews@[i]).life.state
                == SlotState::PendingDeferredFree <==> self.collector.queue@.contains(
                CleanupTarget::Webview(i as usize),
            ))
        &&& forall|k: int|
            0 <= k < self.collector.queue@.len() ==> self.target_valid(
                #[trigger] self.collector.queue@[k],
            )
        &&& forall|k1: int, k2: int|
            0 <= k1 < k2 < self.collector.queue@.len() ==> (#[trigger] self.collector.queue@[k1])
                != (#[trigger] self.collector.queue@[k2])
        &&& self.app.strong >= self.holding_count()
    }

    /// Creates the application on the calling thread, which becomes the event
    /// thread, and registers it with a fresh collector.
    pub fn new(host_thread: u64) -> (r: Runtime)
        ensures
            r.inv(),
            r.host_thread == host_thread,
            r.app == (Lifecycle {
                strong: 1,
                state: SlotState::Live,
                frees: 0,
                host_thread,
            }),
            r.webviews@ == Seq::<WebviewState>::empty(),
            r.collector.live == 1,
            r.collector.queue@ == Seq::<CleanupTarget>::empty(),
            r.queue.items@ == Seq::<QueueItem>::empty(),
            !r.queue.stopped,
            r.pool@ == Seq::<u64>::empty(),
    {
        let app = Lifecycle::new(host_thread);
        let mut collector = Collector::new(host_thread);
        collector.register();
        Runtime {
            host_thread,
            app,
            webviews: Vec::new(),
            collector,
            queue: EventQueue::new(),
            pool: Vec::new(),
        }
    }

    /// Whether the calling thread is the event thread.  Safe from any thread.
    pub fn is_thread_safe(&self, current: u64) -> (r: bool)
        ensures
            r == (current == self.host_thread),
    {
        current == self.host_thread
    }

    /// Clones an application handle.  Callable from any thread; never frees
    /// or blocks.
    pub fn clone_app(&mut self)
        requires
            old(self).inv(),
            old(self).app.strong > 0,
            old(self).app.strong < u64::MAX,
        ensures
            final(self).inv(),
            final(self).app.strong == old(self).app.strong + 1,
            final(self).app.state == old(self).app.state,
            final(self).app.frees == old(self).app.frees,
            final(self).webviews == old(self).webviews,
            final(self).collector == old(self).collector,
            final(self).queue == old(self).queue,
            final(self).host_thread == old(self).host_thread,
    {
        self.app.clone_ref();
    }

    /// Tries to upgrade a weak application reference into a strong handle.
    /// A weak reference carries no share of the strong count, so it succeeds
    /// — taking one more strong reference — exactly while some strong handle
    /// is still alive.  Callbacks capture weak references rather than strong
    /// handles, or the handle could never reach zero and be freed.
    pub fn upgrade_app(&mut self) -> (r: bool)
        requires
            old(self).inv(),
            old(self).app.strong < u64::MAX,
        ensures
            final(self).inv(),
            r == (old(self).app.strong > 0),
            r ==> final(self).app.strong == old(self).app.strong + 1 && final(self).app.state
                == old(self).app.state && final(self).app.frees == old(self).app.frees,
            !r ==> *final(self) == *old(self),
            final(self).webviews == old(self).webviews,
            final(self).collector == old(self).collector,
            final(self).queue == old(self).queue,
            final(self).host_thread == old(self).host_thread,
    {
        if self.app.strong > 0 {
            self.app.clone_ref();
            true
        } else {
            false
        }
    }

    /// Tries to upgrade a weak webview reference into a strong handle, in the
    /// same way as `upgrade_app`.  Trampolines do this before invoking a
    /// callback: when the upgrade fails the callback is skipped, which is
    /// expected once the owning handle is gone.
    pub fn upgrade_webview(&mut self, i: usize) -> (r: bool)
        requires
            old(self).inv(),
            i < old(self).webviews@.len(),
            old(self).webviews@[i as int].life.strong < u64::MAX,
        ensures
            final(self).inv(),
            r == (old(self).webviews@[i as int].life.strong > 0),
            !r ==> final(self).webviews@ == old(self).webviews@ && final(self).app == old(
                self,
            ).app && final(self).collector == old(self).collector && final(self).queue == old(
                self,
            ).queue && final(self).pool == old(self).pool,
            r ==> {
                &&& final(self).webviews@.len() == old(self).webviews@.len()
                &&& forall|j: int|
                    0 <= j < old(self).webviews@.len() && j != i ==> final(self).webviews@[j]
                        == old(self).webviews@[j]
                &&& final(self).webviews@[i as int].life.strong == old(
                    self,
                ).webviews@[i as int].life.strong + 1
                &&& final(self).webviews@[i as int].life.state == old(
                    self,
                ).webviews@[i as int].life.state
                &&& final(self).webviews@[i as int].registry == old(
                    self,
                ).webviews@[i as int].registry
                &&& final(self).app == old(self).app
                &&& final(self).collector == old(self).collector
                &&& final(self).queue == old(self).queue
            },
            final(self).host_thread == old(self).host_thread,
    {
        let mut ws = self.webviews.remove(i);
        let alive = ws.life.strong > 0;
        if alive {
            ws.life.clone_ref();
        }
        let ghost gws = ws;
        self.webviews.insert(i, ws);
        proof {
            assert(self.webviews@ =~= old(self).webviews@.update(i as int, gws));
            lemma_counts_update(old(self).webviews@, i as int, gws);
            if !alive {
                assert(self.webviews@ =~= old(self).webviews@);
            }
        }
        alive
    }

    /// Releases one strong reference to the application; shared by the
    /// user-handle drop and by a webview giving back its internal reference.
    fn app_release(&mut self, current: u64) -> (r: DropOutcome)
        requires
            old(self).inv(),
            old(self).app.strong > old(self).holding_count(),
        ensures
            final(self).inv(),
            final(self).app == old(self).app.step(
                crate::lifecycle::HandleOp::DropRef(current),
            ),
            r == (if old(self).app.strong > 1 {
                DropOutcome::SharedRemain
            } else if current == old(self).host_thread {
                DropOutcome::FreedInline
            } else {
                DropOutcome::Deferred
            }),
            final(self).webviews == old(self).webviews,
            final(self).queue == old(self).queue,
            final(self).host_thread == old(self).host_thread,
            r == DropOutcome::Deferred ==> final(self).collector.queue@ == old(self)
                .collector.queue@.push(CleanupTarget::App),
            r != DropOutcome::Deferred ==> final(self).collector.queue == old(self)
                .collector.queue,
    {
        proof {
            lemma_counts_bounds(self.webviews@);
        }
        let outcome = self.app.drop_ref(current);
        match outcome {
            DropOutcome::SharedRemain => {},
            DropOutcome::FreedInline => {
                self.collector.discharge();
            },
            DropOutcome::Deferred => {
                self.collector.enqueue(CleanupTarget::App);
                proof {
                    let q0 = old(self).collector.queue@;
                    assert(self.collector.queue@.last() == CleanupTarget::App);
                    assert forall|k: int| 0 <= k < q0.len() implies q0[k]
                        != CleanupTarget::App by {
                        if q0[k] == CleanupTarget::App {
                            assert(q0.contains(CleanupTarget::App));
                        }
                    }
                    assert forall|i: int|
                        0 <= i < self.webviews@.len() && (#[trigger] self.webviews@[i]).life.state
                            == SlotState::PendingDeferredFree implies self.collector.queue@
                        .contains(CleanupTarget::Webview(i as usize)) by {
                        assert(q0.contains(CleanupTarget::Webview(i as usize)));
                        let k = choose|k: int|
                            0 <= k < q0.len() && q0[k] == CleanupTarget::Webview(i as usize);
                        assert(self.collector.queue@[k] == CleanupTarget::Webview(i as usize));
                    }
                }
            },
        }
        outcome
    }

    /// Drops an application handle held by the embedding, on the thread with
    /// id `current`.
    ///
    /// While other handles remain — the embedding's own clones or the
    /// reference inside any webview that still has a handle — nothing is
    /// freed.  The last drop frees the application inline on the event thread
    /// and defers to the collector from any other thread; the application is
    /// never freed while a webview handle is alive.
    pub fn drop_app(&mut self, current: u64) -> (r: DropOutcome)
        requires
            old(self).inv(),
            old(self).app_user_handles() > 0,
        ensures
            final(self).inv(),
            final(self).app == old(self).app.step(
                crate::lifecycle::HandleOp::DropRef(current),
            ),
            r == (if old(self).app.strong > 1 {
                DropOutcome::SharedRemain
            } else if current == old(self).host_thread {
                DropOutcome::FreedInline
            } else {
                DropOutcome::Deferred
            }),
            old(self).holding_count() > 0 ==> r == DropOutcome::SharedRemain && final(self)
                .app.state == SlotState::Live && final(self).app.frees == 0,
            final(self).webviews == old(self).webviews,
            final(self).queue == old(self).queue,
            final(self).host_thread == old(self).host_thread,
    {
        proof {
            lemma_counts_bounds(self.webviews@);
        }
        self.app_release(current)
    }

    /// Creates a webview.  Succeeds only on the event thread; from any other
    /// thread it is a no-op returning `None`.  The new webview registers with
    /// the collector and holds one strong reference to the application, so
    /// the application cannot be freed while the webview has a handle.
    pub fn new_webview(&mut self, current: u64) -> (r: Option<usize>)
        requires
            old(self).inv(),
            old(self).app.strong > 0,
            old(self).app.strong < u64::MAX,
            old(self).collector.live < u64::MAX,
        ensures
            final(self).inv(),
            final(self).host_thread == old(self).host_thread,
            current != old(self).host_thread ==> r is None && *final(self) == *old(self),
            current == old(self).host_thread ==> {
                &&& r == Some(old(self).webviews@.len() as usize)
                &&& final(self).webviews@.len() == old(self).webviews@.len() + 1
                &&& forall|j: int|
                    0 <= j < old(self).webviews@.len() ==> final(self).webviews@[j] == old(
                        self,
                    ).webviews@[j]
                &&& final(self).webviews@.last().life == (Lifecycle {
                    strong: 1,
                    state: SlotState::Live,
                    frees: 0,
                    host_thread: old(self).host_thread,
                })
                &&& final(self).webviews@.last().registry.entries@.len() == 0
                &&& final(self).webviews@.last().registry.once_entries@.len() == 0
                &&& final(self).app.strong == old(self).app.strong + 1
                &&& final(self).app.state == old(self).app.state
                &&& final(self).collector.live == old(self).collector.live + 1
                &&& final(self).collector.queue == old(self).collector.queue
                &&& final(self).queue == old(self).queue
            },
    {
        if current != self.host_thread {
            return None;
        }
        let idx = self.webviews.len();
        let w = WebviewState {
            life: Lifecycle::new(self.host_thread),
            registry: EventRegistry::new(),
        };
        let ghost gw = w;
        self.collector.register();
        self.app.clone_ref();
        self.webviews.push(w);
        proof {
            lemma_counts_push(old(self).webviews@, gw);
            assert forall|k: int| 0 <= k < self.collector.queue@.len() implies self.target_valid(
                #[trigger] self.collector.queue@[k],
            ) by {
                assert(old(self).target_valid(self.collector.queue@[k]));
            }
            if self.collector.queue@.contains(CleanupTarget::Webview(idx)) {
                let k = choose|k: int|
                    0 <= k < self.collector.queue@.len() && self.collector.queue@[k]
                        == CleanupTarget::Webview(idx);
                assert(old(self).target_valid(self.collector.queue@[k]));
            }
        }
        Some(idx)
    }

    /// Clones a webview handle.  Callable from any thread.
    pub fn clone_webview(&mut self, i: usize)
        requires
            old(self).inv(),
            i < old(self).webviews@.len(),
            old(self).webviews@[i as int].life.strong > 0,
            old(self).webviews@[i as int].life.strong < u64::MAX,
        ensures
            final(self).inv(),
            final(self).webviews@.len() == old(self).webviews@.len(),
            forall|j: int|
                0 <= j < old(self).webviews@.len() && j != i ==> final(self).webviews@[j] == old(
                    self,
                ).webviews@[j],
            final(self).webviews@[i as int].life.strong == old(self).webviews@[i as int].life.strong
                + 1,
            final(self).webviews@[i as int].life.state == old(self).webviews@[i as int].life.state,
            final(self).webviews@[i as int].life.frees == old(self).webviews@[i as int].life.frees,
            final(self).webviews@[i as int].registry == old(self).webviews@[i as int].registry,
            final(self).app == old(self).app,
            final(self).collector == old(self).collector,
            final(self).queue == old(self).queue,
            final(self).host_thread == old(self).host_thread,
    {
        let mut ws = self.webviews.remove(i);
        ws.life.clone_ref();
        let ghost gws = ws;
        self.webviews.insert(i, ws);
        proof {
            assert(self.webviews@ =~= old(self).webviews@.update(i as int, gws));
            lemma_counts_update(old(self).webviews@, i as int, gws);
        }
    }

    /// Drops a webview handle on the thread with id `current`, returning what
    /// the drop decided and the callback tokens it released.
    ///
    /// While other handles of the webview remain, nothing happens.  The last
    /// drop on the event thread frees the native object inline and releases
    /// every registered callback; on a foreign thread it hands the cleanup
    /// job to the collector and offers a drain request to the event queue.
    /// Either way the webview then gives back the strong application
    /// reference it held, which may in turn free or defer the application
    /// itself.
    pub fn drop_webview(&mut self, i: usize, current: u64) -> (r: (DropOutcome, Vec<u64>))
        requires
            old(self).inv(),
            i < old(self).webviews@.len(),
            old(self).webviews@[i as int].life.strong > 0,
        ensures
            final(self).inv(),
            final(self).host_thread == old(self).host_thread,
            final(self).webviews@.len() == old(self).webviews@.len(),
            forall|j: int|
                0 <= j < old(self).webviews@.len() && j != i ==> final(self).webviews@[j] == old(
                    self,
                ).webviews@[j],
            final(self).webviews@[i as int].life == old(self).webviews@[i as int].life.step(
                crate::lifecycle::HandleOp::DropRef(current),
            ),
            r.0 == (if old(self).webviews@[i as int].life.strong > 1 {
                DropOutcome::SharedRemain
            } else if current == old(self).host_thread {
                DropOutcome::FreedInline
            } else {
                DropOutcome::Deferred
            }),
            r.0 == DropOutcome::SharedRemain ==> {
                &&& final(self).app == old(self).app
                &&& final(self).collector == old(self).collector
                &&& final(self).queue == old(self).queue
                &&& final(self).webviews@[i as int].registry == old(
                    self,
                ).webviews@[i as int].registry
                &&& r.1@ == Seq::<u64>::empty()
            },
            r.0 != DropOutcome::SharedRemain ==> final(self).app == old(self).app.step(
                crate::lifecycle::HandleOp::DropRef(current),
            ),
            r.0 == DropOutcome::FreedInline ==> {
                &&& r.1@ == crate::registry::all_entry_tokens(
                    old(self).webviews@[i as int].registry.entries@,
                ) + crate::registry::all_once_tokens(
                    old(self).webviews@[i as int].registry.once_entries@,
                ) + (match old(self).webviews@[i as int].registry.message_handler {
                    Some(t) => seq![t],
                    None => Seq::<u64>::empty(),
                }) + crate::registry::all_scheme_tokens(
                    old(self).webviews@[i as int].registry.scheme_handlers@,
                )
                &&& final(self).webviews@[i as int].registry.entries@.len() == 0
                &&& final(self).webviews@[i as int].registry.once_entries@.len() == 0
                &&& final(self).webviews@[i as int].registry.message_handler is None
                &&& final(self).webviews@[i as int].registry.scheme_handlers@.len() == 0
                &&& final(self).webviews@[i as int].life.frees == 1
                &&& final(self).queue == old(self).queue
            },
            r.0 == DropOutcome::Deferred ==> {
                &&& r.1@ == Seq::<u64>::empty()
                &&& final(self).webviews@[i as int].registry == old(
                    self,
                ).webviews@[i as int].registry
                &&& final(self).webviews@[i as int].life.frees == 0
                &&& final(self).collector.queue@.contains(CleanupTarget::Webview(i))
                &&& old(self).queue.stopped ==> final(self).queue == old(self).queue
                &&& !old(self).queue.stopped ==> final(self).queue.items@ == old(
                    self,
                ).queue.items@.push(QueueItem::DrainRequest)
            },
    {
        proof {
            lemma_counts_bounds(old(self).webviews@);
        }
        let mut ws = self.webviews.remove(i);
        let outcome = ws.life.drop_ref(current);
        match outcome {
            DropOutcome::SharedRemain => {
                let ghost gws = ws;
                self.webviews.insert(i, ws);
                proof {
                    assert(self.webviews@ =~= old(self).webviews@.update(i as int, gws));
                    lemma_counts_update(old(self).webviews@, i as int, gws);
                }
                (outcome, Vec::new())
            },
            DropOutcome::FreedInline => {
                let released = ws.registry.release_all();
                self.collector.discharge();
                let ghost gws = ws;
                self.webviews.insert(i, ws);
                proof {
                    assert(self.webviews@ =~= old(self).webviews@.update(i as int, gws));
                    lemma_counts_update(old(self).webviews@, i as int, gws);
                }
                let _ = self.app_release(current);
                (outcome, released)
            },
            DropOutcome::Deferred => {
                self.collector.enqueue(CleanupTarget::Webview(i));
                let _ = self.queue.offer(QueueItem::DrainRequest);
                let ghost gws = ws;
                self.webviews.insert(i, ws);
                let wlen = self.webviews.len();
                proof {
                    assert(self.webviews@ =~= old(self).webviews@.update(i as int, gws));
                    lemma_counts_update(old(self).webviews@, i as int, gws);
                    lemma_queue_push_contains(
                        old(self).collector.queue@,
                        self.collector.queue@,
                        CleanupTarget::Webview(i),
                    );
                    assert(self.collector.queue@.contains(CleanupTarget::Webview(i)));
                    let q0 = old(self).collector.queue@;
                    assert forall|j: int| 0 <= j < self.webviews@.len() implies ((
                    #[trigger] self.webviews@[j]).life.state == SlotState::PendingDeferredFree
                        <==> self.collector.queue@.contains(
                        CleanupTarget::Webview(j as usize),
                    )) by {
                        assert(j < wlen as int);
                        if j == i as int {
                            assert(self.webviews@[j].life.state
                                == SlotState::PendingDeferredFree);
                        } else {
                            assert(self.webviews@[j] == old(self).webviews@[j]);
                            assert(CleanupTarget::Webview(j as usize) != CleanupTarget::Webview(
                                i,
                            ));
                        }
                    }
                    assert forall|k1: int, k2: int|
                        0 <= k1 < k2 < self.collector.queue@.len() implies (
                    #[trigger] self.collector.queue@[k1]) != (
                    #[trigger] self.collector.queue@[k2]) by {
                        if k2 == q0.len() {
                            if q0[k1] == CleanupTarget::Webview(i) {
                                assert(q0.contains(CleanupTarget::Webview(i)));
                            }
                        }
                    }
                    assert forall|k: int| 0 <= k < self.collector.queue@.len() implies self
                        .target_valid(#[trigger] self.collector.queue@[k]) by {
                        if k < q0.len() {
                            assert(old(self).target_valid(q0[k]));
                        }
                    }
                }
                let _ = self.app_release(current);
                (outcome, Vec::new())
            },
        }
    }

    /// Schedules a closure, by token, onto the event thread.  Callable from
    /// any thread; never blocks.  Once the loop has stopped, new posts are
    /// ignored rather than queued.  Accepted posts append at the tail, so
    /// posts from one thread run in submission order.
    pub fn post(&mut self, token: u64) -> (accepted: bool)
        requires
            old(self).inv(),
            old(self).app.strong > 0,
        ensures
            final(self).inv(),
            accepted == !old(self).queue.stopped,
            accepted ==> final(self).queue.items@ == old(self).queue.items@.push(
                QueueItem::Posted(token),
            ),
            !accepted ==> final(self).queue == old(self).queue,
            final(self).queue.stopped == old(self).queue.stopped,
            final(self).app == old(self).app,
            final(self).webviews == old(self).webviews,
            final(self).collector == old(self).collector,
            final(self).host_thread == old(self).host_thread,
    {
        self.queue.offer(QueueItem::Posted(token))
    }

    /// Requests the event loop to quit.  On the event thread the request is
    /// queued unconditionally; from a foreign thread it travels as an
    /// ordinary post and is ignored once the loop has stopped.  Each call
    /// enqueues an independent termination request.
    pub fn quit(&mut self, current: u64)
        requires
            old(self).inv(),
            old(self).app.strong > 0,
        ensures
            final(self).inv(),
            current == old(self).host_thread || !old(self).queue.stopped ==> final(self)
                .queue.items@ == old(self).queue.items@.push(QueueItem::QuitRequest),
            current != old(self).host_thread && old(self).queue.stopped ==> final(self).queue
                == old(self).queue,
            final(self).queue.stopped == old(self).queue.stopped,
            final(self).app == old(self).app,
            final(self).webviews == old(self).webviews,
            final(self).collector == old(self).collector,
            final(self).host_thread == old(self).host_thread,
    {
        if current == self.host_thread {
            self.queue.push(QueueItem::QuitRequest);
        } else {
            let _ = self.queue.offer(QueueItem::QuitRequest);
        }
    }

    /// Hands a closure to the background worker pool and returns at once.
    /// The weakest contract of the three dispatch paths: the job sits in the
    /// pool until a worker takes it, and jobs still there when the pool is
    /// torn down are lost, so callers must not assume timely or eventual
    /// execution.
    pub fn pool_emplace(&mut self, token: u64)
        requires
            old(self).inv(),
            old(self).app.strong > 0,
        ensures
            final(self).inv(),
            final(self).pool@ == old(self).pool@.push(token),
            final(self).app == old(self).app,
            final(self).webviews == old(self).webviews,
            final(self).collector == old(self).collector,
            final(self).queue == old(self).queue,
            final(self).host_thread == old(self).host_thread,
    {
        self.pool.push(token);
    }

    /// A pool worker takes one job, if any is left.  The model hands jobs out
    /// oldest first; the engine itself promises no order at all.
    pub fn take_pool_job(&mut self) -> (r: Option<u64>)
        requires
            old(self).inv(),
        ensures
            final(self).inv(),
            old(self).pool@.len() == 0 ==> r is None && *final(self) == *old(self),
            old(self).pool@.len() > 0 ==> {
                &&& r == Some(old(self).pool@[0])
                &&& final(self).pool@ == old(self).pool@.subrange(1, old(self).pool@.len() as int)
            },
            final(self).app == old(self).app,
            final(self).webviews == old(self).webviews,
            final(self).collector == old(self).collector,
            final(self).queue == old(self).queue,
            final(self).host_thread == old(self).host_thread,
    {
        if self.pool.len() == 0 {
            None
        } else {
            Some(self.pool.remove(0))
        }
    }

    /// Executes the oldest queued cleanup job, if any; only the event thread
    /// drains.  Returns which resource was collected and, for a webview, the
    /// callback tokens its registry released.
    pub fn collect_one(&mut self, current: u64) -> (r: (Option<CleanupTarget>, Vec<u64>))
        requires
            old(self).inv(),
            current == old(self).host_thread,
        ensures
            final(self).inv(),
            final(self).host_thread == old(self).host_thread,
            final(self).queue == old(self).queue,
            old(self).collector.queue@.len() == 0 ==> r.0 is None && *final(self) == *old(self)
                && r.1@ == Seq::<u64>::empty(),
            old(self).collector.queue@.len() > 0 ==> {
                &&& r.0 == Some(old(self).collector.queue@[0])
                &&& final(self).collector.queue@ == old(self).collector.queue@.subrange(
                    1,
                    old(self).collector.queue@.len() as int,
                )
                &&& final(self).collector.live == old(self).collector.live - 1
            },
            old(self).collector.queue@.len() > 0 && old(self).collector.queue@[0]
                == CleanupTarget::App ==> {
                &&& final(self).app == (Lifecycle {
                    strong: old(self).app.strong,
                    state: SlotState::Freed,
                    frees: 1,
                    host_thread: old(self).host_thread,
                })
                &&& final(self).webviews == old(self).webviews
                &&& r.1@ == Seq::<u64>::empty()
            },
            forall|i: usize|
                old(self).collector.queue@.len() > 0 && old(self).collector.queue@[0]
                    == CleanupTarget::Webview(i) ==> {
                    &&& final(self).app == old(self).app
                    &&& final(self).webviews@.len() == old(self).webviews@.len()
                    &&& forall|j: int|
                        0 <= j < old(self).webviews@.len() && j != i ==> final(self).webviews@[j]
                            == old(self).webviews@[j]
                    &&& collected_from(
                        final(self).webviews@[i as int],
                        old(self).webviews@[i as int],
                    )
                    &&& final(self).webviews@[i as int].life.state == SlotState::Freed
                    &&& r.1@ == crate::registry::all_entry_tokens(
                        old(self).webviews@[i as int].registry.entries@,
                    ) + crate::registry::all_once_tokens(
                        old(self).webviews@[i as int].registry.once_entries@,
                    ) + (match old(self).webviews@[i as int].registry.message_handler {
                        Some(t) => seq![t],
                        None => Seq::<u64>::empty(),
                    }) + crate::registry::all_scheme_tokens(
                        old(self).webviews@[i as int].registry.scheme_handlers@,
                    )
                },
            final(self).app.strong == old(self).app.strong,
            final(self).webviews@.len() == old(self).webviews@.len(),
            forall|j: int|
                0 <= j < old(self).webviews@.len() ==> (#[trigger] final(self).webviews@[j])
                    .life.strong == old(self).webviews@[j].life.strong,
            forall|j: int|
                0 <= j < old(self).webviews@.len() ==> collected_from(
                    #[trigger] final(self).webviews@[j],
                    old(self).webviews@[j],
                ),
            final(self).app == old(self).app || (old(self).app.state
                == SlotState::PendingDeferredFree && final(self).app == (Lifecycle {
                strong: old(self).app.strong,
                state: SlotState::Freed,
                frees: 1,
                host_thread: old(self).host_thread,
            })),
    {
        if self.collector.queue.len() == 0 {
            return (None, Vec::new());
        }
        proof {
            lemma_counts_bounds(self.webviews@);
            let t0 = self.collector.queue@[0];
            assert(self.collector.queue@.contains(t0));
            assert(self.target_valid(t0));
            match t0 {
                CleanupTarget::App => {
                    assert(self.app.state == SlotState::PendingDeferredFree);
                },
                CleanupTarget::Webview(i) => {
                    assert(self.webviews@[i as int].life.state
                        == SlotState::PendingDeferredFree);
                },
            }
        }
        let job = self.collector.pop_job();
        match job {
            None => {
                proof {
                    assert(false);
                }
                (None, Vec::new())
            },
            Some(CleanupTarget::App) => {
                self.app.collect();
                let wlen = self.webviews.len();
                proof {
                    let q0 = old(self).collector.queue@;
                    lemma_queue_pop_contains(q0, self.collector.queue@);
                    assert forall|i: int| 0 <= i < self.webviews@.len() implies ((
                    #[trigger] self.webviews@[i]).life.state == SlotState::PendingDeferredFree
                        <==> self.collector.queue@.contains(
                        CleanupTarget::Webview(i as usize),
                    )) by {
                        assert(i < wlen as int);
                        assert(self.webviews@[i] == old(self).webviews@[i]);
                        assert(CleanupTarget::Webview(i as usize) != q0[0]);
                    }
                    assert(!self.collector.queue@.contains(CleanupTarget::App));
                    assert forall|k: int| 0 <= k < self.collector.queue@.len() implies self
                        .target_valid(#[trigger] self.collector.queue@[k]) by {
                        assert(self.collector.queue@[k] == q0[k + 1]);
                        assert(old(self).target_valid(q0[k + 1]));
                    }
                    assert forall|k1: int, k2: int|
                        0 <= k1 < k2 < self.collector.queue@.len() implies (
                    #[trigger] self.collector.queue@[k1]) != (
                    #[trigger] self.collector.queue@[k2]) by {
                        assert(self.collector.queue@[k1] == q0[k1 + 1]);
                        assert(self.collector.queue@[k2] == q0[k2 + 1]);
                    }
                }
                (Some(CleanupTarget::App), Vec::new())
            },
            Some(CleanupTarget::Webview(i)) => {
                let mut ws = self.webviews.remove(i);
                ws.life.collect();
                let released = ws.registry.release_all();
                let ghost gws = ws;
                self.webviews.insert(i, ws);
                let wlen = self.webviews.len();
                proof {
                    let q0 = old(self).collector.queue@;
                    assert(self.webviews@ =~= old(self).webviews@.update(i as int, gws));
                    lemma_counts_update(old(self).webviews@, i as int, gws);
                    lemma_queue_pop_contains(q0, self.collector.queue@);
                    assert forall|j: int| 0 <= j < self.webviews@.len() implies ((
                    #[trigger] self.webviews@[j]).life.state == SlotState::PendingDeferredFree
                        <==> self.collector.queue@.contains(
                        CleanupTarget::Webview(j as usize),
                    )) by {
                        assert(j < wlen as int);
                        if j == i as int {
                            assert(self.webviews@[j].life.state == SlotState::Freed);
                        } else {
                            assert(self.webviews@[j] == old(self).webviews@[j]);
                            assert(CleanupTarget::Webview(j as usize) != CleanupTarget::Webview(
                                i,
                            ));
                        }
                    }
                    assert(self.app.state == SlotState::PendingDeferredFree
                        <==> self.collector.queue@.contains(CleanupTarget::App));
                    assert forall|k: int| 0 <= k < self.collector.queue@.len() implies self
                        .target_valid(#[trigger] self.collector.queue@[k]) by {
                        assert(self.collector.queue@[k] == q0[k + 1]);
                        assert(old(self).target_valid(q0[k + 1]));
                    }
                    assert forall|k1: int, k2: int|
                        0 <= k1 < k2 < self.collector.queue@.len() implies (
                    #[trigger] self.collector.queue@[k1]) != (
                    #[trigger] self.collector.queue@[k2]) by {
                        assert(self.collector.queue@[k1] == q0[k1 + 1]);
                        assert(self.collector.queue@[k2] == q0[k2 + 1]);
                    }
                }
                (Some(CleanupTarget::Webview(i)), released)
            },
        }
    }

    /// Drains every cleanup job currently queued, without blocking; only the
    /// event thread drains.  Afterwards no resource is still pending: every
    /// cleanup that a foreign-thread drop deferred has run.  Returns the
    /// callback tokens released by the collected webviews, in queue order.
    pub fn try_collect(&mut self, current: u64) -> (released: Vec<u64>)
        requires
            old(self).inv(),
            current == old(self).host_thread,
        ensures
            final(self).inv(),
            final(self).host_thread == old(self).host_thread,
            final(self).queue == old(self).queue,
            final(self).collector.queue@.len() == 0,
            final(self).app.state != SlotState::PendingDeferredFree,
            forall|j: int|
                0 <= j < final(self).webviews@.len() ==> (#[trigger] final(self).webviews@[j])
                    .life.state != SlotState::PendingDeferredFree,
            final(self).app.strong == old(self).app.strong,
            final(self).webviews@.len() == old(self).webviews@.len(),
            forall|j: int|
                0 <= j < old(self).webviews@.len() ==> (#[trigger] final(self).webviews@[j])
                    .life.strong == old(self).webviews@[j].life.strong,
            forall|j: int|
                0 <= j < old(self).webviews@.len() ==> collected_from(
                    #[trigger] final(self).webviews@[j],
                    old(self).webviews@[j],
                ),
            final(self).app == old(self).app || (old(self).app.state
                == SlotState::PendingDeferredFree && final(self).app == (Lifecycle {
                strong: old(self).app.strong,
                state: SlotState::Freed,
                frees: 1,
                host_thread: old(self).host_thread,
            })),
    {
        let mut released: Vec<u64> = Vec::new();
        loop
            invariant
                self.inv(),
                current == self.host_thread,
                self.host_thread == old(self).host_thread,
                self.queue == old(self).queue,
                self.app.strong == old(self).app.strong,
                self.webviews@.len() == old(self).webviews@.len(),
                forall|j: int|
                    0 <= j < old(self).webviews@.len() ==> (#[trigger] self.webviews@[j])
                        .life.strong == old(self).webviews@[j].life.strong,
                forall|j: int|
                    0 <= j < old(self).webviews@.len() ==> collected_from(
                        #[trigger] self.webviews@[j],
                        old(self).webviews@[j],
                    ),
                self.app == old(self).app || (old(self).app.state
                    == SlotState::PendingDeferredFree && self.app == (Lifecycle {
                    strong: old(self).app.strong,
                    state: SlotState::Freed,
                    frees: 1,
                    host_thread: old(self).host_thread,
                })),
            ensures
                self.collector.queue@.len() == 0,
            decreases self.collector.queue@.len(),
        {
            let ghost mid = *self;
            let (job, mut tokens) = self.collect_one(current);
            match job {
                None => {
                    proof {
                        assert(self.collector.queue@.len() == 0);
                    }
                    break ;
                },
                Some(_) => {
                    released.append(&mut tokens);
                    proof {
                        assert forall|j: int| 0 <= j < old(self).webviews@.len() implies
                        collected_from(
                            #[trigger] self.webviews@[j],
                            old(self).webviews@[j],
                        ) by {
                            assert(collected_from(self.webviews@[j], mid.webviews@[j]));
                            assert(collected_from(mid.webviews@[j], old(self).webviews@[j]));
                        }
                    }
                },
            }
        }
        proof {
            if self.app.state == SlotState::PendingDeferredFree {
                assert(self.collector.queue@.contains(CleanupTarget::App));
            }
            assert forall|j: int| 0 <= j < self.webviews@.len() implies (
            #[trigger] self.webviews@[j]).life.state != SlotState::PendingDeferredFree by {
                if self.webviews@[j].life.state == SlotState::PendingDeferredFree {
                    assert(self.collector.queue@.contains(CleanupTarget::Webview(j as usize)));
                }
            }
        }
        released
    }

    /// Polls and processes at most one queued message; only the event thread
    /// runs the loop.  A posted closure runs only if the application handle
    /// behind its weak reference still upgrades; a drain request runs the
    /// deferred collector; a quit request is merely consumed, since `run`
    /// decides what it means.
    pub fn run_once(&mut self, current: u64) -> (e: RunEvent)
        requires
            old(self).inv(),
            current == old(self).host_thread,
        ensures
            final(self).inv(),
            final(self).host_thread == old(self).host_thread,
            final(self).queue.stopped == old(self).queue.stopped,
            old(self).queue.items@.len() == 0 ==> e is Idle && *final(self) == *old(self),
            old(self).queue.items@.len() > 0 ==> final(self).queue.items@ == old(
                self,
            ).queue.items@.subrange(1, old(self).queue.items@.len() as int),
            forall|t: u64|
                old(self).queue.items@.len() > 0 && old(self).queue.items@[0]
                    == QueueItem::Posted(t) ==> {
                    &&& (old(self).app.strong > 0 ==> e == RunEvent::Ran(t))
                    &&& (old(self).app.strong == 0 ==> e == RunEvent::DroppedPost(t))
                    &&& final(self).app == old(self).app
                    &&& final(self).webviews == old(self).webviews
                    &&& final(self).collector == old(self).collector
                },
            old(self).queue.items@.len() > 0 && old(self).queue.items@[0]
                == QueueItem::QuitRequest ==> {
                &&& e is QuitSeen
                &&& final(self).app == old(self).app
                &&& final(self).webviews == old(self).webviews
                &&& final(self).collector == old(self).collector
            },
            old(self).queue.items@.len() > 0 && old(self).queue.items@[0]
                == QueueItem::DrainRequest ==> {
                &&& e is Drained
                &&& final(self).collector.queue@.len() == 0
                &&& final(self).app.state != SlotState::PendingDeferredFree
                &&& forall|j: int|
                    0 <= j < final(self).webviews@.len() ==> (#[trigger] final(self).webviews@[j])
                        .life.state != SlotState::PendingDeferredFree
            },
            final(self).app.strong == old(self).app.strong,
            final(self).webviews@.len() == old(self).webviews@.len(),
            forall|j: int|
                0 <= j < old(self).webviews@.len() ==> (#[trigger] final(self).webviews@[j])
                    .life.strong == old(self).webviews@[j].life.strong,
            forall|j: int|
                0 <= j < old(self).webviews@.len() ==> collected_from(
                    #[trigger] final(self).webviews@[j],
                    old(self).webviews@[j],
                ),
    {
        let item = self.queue.pop();
        match item {
            None => RunEvent::Idle,
            Some(QueueItem::Posted(t)) => {
                if self.app.strong > 0 {
                    RunEvent::Ran(t)
                } else {
                    RunEvent::DroppedPost(t)
                }
            },
            Some(QueueItem::QuitRequest) => RunEvent::QuitSeen,
            Some(QueueItem::DrainRequest) => {
                let released = self.try_collect(current);
                RunEvent::Drained(released)
            },
        }
    }

    /// Runs the event loop: processes queued messages in order until a quit
    /// request is consumed, then stops accepting posts.  Returns the tokens
    /// of the posted closures that ran, in submission order: exactly those
    /// posted before the first quit request, provided an application handle
    /// is still alive; a dead application drops them all unrun.
    ///
    /// Messages queued behind the quit request are neither run nor lost:
    /// they stay queued for a later `run_once`, `collect_now` or the final
    /// collector audit, which is this library's policy for posts that arrive
    /// around shutdown.
    pub fn run(&mut self, current: u64) -> (ran: Vec<u64>)
        requires
            old(self).inv(),
            current == old(self).host_thread,
            has_quit(old(self).queue.items@),
        ensures
            final(self).inv(),
            final(self).host_thread == old(self).host_thread,
            final(self).queue.stopped,
            old(self).app.strong > 0 ==> ran@ == posted_before_quit(old(self).queue.items@),
            old(self).app.strong == 0 ==> ran@ == Seq::<u64>::empty(),
            final(self).app.strong == old(self).app.strong,
            final(self).webviews@.len() == old(self).webviews@.len(),
            forall|j: int|
                0 <= j < old(self).webviews@.len() ==> (#[trigger] final(self).webviews@[j])
                    .life.strong == old(self).webviews@[j].life.strong,
            forall|j: int|
                0 <= j < old(self).webviews@.len() ==> collected_from(
                    #[trigger] final(self).webviews@[j],
                    old(self).webviews@[j],
                ),
    {
        self.queue.set_stopped(false);
        let mut ran: Vec<u64> = Vec::new();
        loop
            invariant_except_break
                has_quit(self.queue.items@),
                old(self).app.strong > 0 ==> ran@ + posted_before_quit(self.queue.items@)
                    == posted_before_quit(old(self).queue.items@),
            invariant
                self.inv(),
                current == self.host_thread,
                self.host_thread == old(self).host_thread,
                self.app.strong == old(self).app.strong,
                self.webviews@.len() == old(self).webviews@.len(),
                old(self).app.strong == 0 ==> ran@ == Seq::<u64>::empty(),
                forall|j: int|
                    0 <= j < old(self).webviews@.len() ==> (#[trigger] self.webviews@[j])
                        .life.strong == old(self).webviews@[j].life.strong,
                forall|j: int|
                    0 <= j < old(self).webviews@.len() ==> collected_from(
                        #[trigger] self.webviews@[j],
                        old(self).webviews@[j],
                    ),
            ensures
                old(self).app.strong > 0 ==> ran@ == posted_before_quit(old(self).queue.items@),
            decreases self.queue.items@.len(),
        {
            let ghost mid = *self;
            let ghost items0 = self.queue.items@;
            let item = self.queue.pop();
            match item {
                None => {
                    proof {
                        assert(false);
                    }
                },
                Some(QueueItem::Posted(t)) => {
                    proof {
                        assert(posted_before_quit(items0) == seq![t] + posted_before_quit(
                            self.queue.items@,
                        ));
                    }
                    let ghost ran0 = ran@;
                    if self.app.strong > 0 {
                        ran.push(t);
                        proof {
                            if old(self).app.strong > 0 {
                                assert(ran0.push(t) + posted_before_quit(self.queue.items@) =~= ran0
                                    + (seq![t] + posted_before_quit(self.queue.items@)));
                            }
                        }
                    }
                },
                Some(QueueItem::QuitRequest) => {
                    proof {
                        assert(posted_before_quit(items0) == Seq::<u64>::empty());
                        if old(self).app.strong > 0 {
                            assert(ran@ + posted_before_quit(items0) =~= ran@);
                        }
                    }
                    break ;
                },
                Some(QueueItem::DrainRequest) => {
                    proof {
                        assert(posted_before_quit(items0) == posted_before_quit(
                            self.queue.items@,
                        ));
                    }
                    let _ = self.try_collect(current);
                    proof {
                        assert forall|j: int| 0 <= j < old(self).webviews@.len() implies
                        collected_from(
                            #[trigger] self.webviews@[j],
                            old(self).webviews@[j],
                        ) by {
                            assert(collected_from(self.webviews@[j], mid.webviews@[j]));
                            assert(collected_from(mid.webviews@[j], old(self).webviews@[j]));
                        }
                    }
                },
            }
        }
        self.queue.set_stopped(true);
        ran
    }

    /// Deterministic teardown once every handle has been dropped: drains the
    /// collector until nothing is live.  Used when the event loop has already
    /// stopped and no further iterations would drain opportunistically.  Only
    /// the event thread may call it, and — since nothing here blocks waiting
    /// for other threads — only once every handle is already gone.
    pub fn collect_now(&mut self, current: u64)
        requires
            old(self).inv(),
            current == old(self).host_thread,
            old(self).app.strong == 0,
            forall|j: int|
                0 <= j < old(self).webviews@.len() ==> (#[trigger] old(self).webviews@[j])
                    .life.strong == 0,
        ensures
            final(self).inv(),
            final(self).host_thread == old(self).host_thread,
            final(self).collector.live == 0,
            final(self).collector.queue@.len() == 0,
            final(self).app.state == SlotState::Freed,
            final(self).app.frees == 1,
            forall|j: int|
                0 <= j < final(self).webviews@.len() ==> (#[trigger] final(self).webviews@[j])
                    .life.state == SlotState::Freed && final(self).webviews@[j].life.frees == 1,
            final(self).queue == old(self).queue,
    {
        let _ = self.try_collect(current);
        proof {
            assert forall|j: int| 0 <= j < self.webviews@.len() implies (
            #[trigger] self.webviews@[j]).life.state == SlotState::Freed && self.webviews@[j]
                .life.frees == 1 by {
                assert(collected_from(self.webviews@[j], old(self).webviews@[j]));
            }
            lemma_counts_bounds(self.webviews@);
        }
    }

    /// Final audit when the collector itself is torn down: drains once, then
    /// reports a leak if anything is still live.  It errs, with the number of
    /// resources still held, exactly when at least one handle derived from
    /// this runtime is still alive; once every handle has been dropped and
    /// collected it always succeeds.  A reference cycle that keeps a handle
    /// alive forever therefore surfaces here rather than leaking silently.
    pub fn finish(&mut self, current: u64) -> (r: Result<(), u64>)
        requires
            old(self).inv(),
            current == old(self).host_thread,
        ensures
            final(self).inv(),
            r is Err <==> (old(self).app.strong > 0 || exists|j: int|
                0 <= j < old(self).webviews@.len() && (#[trigger] old(self).webviews@[j])
                    .life.strong > 0),
            r is Err ==> r == Err::<(), u64>(final(self).collector.live),
            r is Ok ==> final(self).collector.live == 0,
    {
        let _ = self.try_collect(current);
        proof {
            lemma_counts_bounds(self.webviews@);
            assert forall|j: int|
                0 <= j < self.webviews@.len() && (#[trigger] self.webviews@[j]).life.state
                    != SlotState::Freed implies self.webviews@[j].life.strong > 0 && old(
                self,
            ).webviews@[j].life.strong > 0 by {
                assert(sound(self.webviews@[j].life));
                assert(self.webviews@[j].life.state == SlotState::Live);
                assert(self.webviews@[j].life.strong == old(self).webviews@[j].life.strong);
            }
            assert forall|j: int|
                0 <= j < self.webviews@.len() && (#[trigger] old(self).webviews@[j]).life.strong
                    > 0 implies self.webviews@[j].life.state != SlotState::Freed by {
                assert(self.webviews@[j].life.strong == old(self).webviews@[j].life.strong);
                assert(sound(self.webviews@[j].life));
            }
            if self.collector.live > 0 {
                if self.app.state == SlotState::Freed {
                    assert(count_live(self.webviews@) > 0);
                    assert(exists|j: int|
                        0 <= j < self.webviews@.len() && (#[trigger] self.webviews@[j]).life.state
                            != SlotState::Freed) by {
                        if forall|j: int|
                            0 <= j < self.webviews@.len() ==> (#[trigger] self.webviews@[j])
                                .life.state == SlotState::Freed {
                            assert(count_live(self.webviews@) == 0);
                        }
                    }
                    let j = choose|j: int|
                        0 <= j < self.webviews@.len() && (#[trigger] self.webviews@[j]).life.state
                            != SlotState::Freed;
                    assert(old(self).webviews@[j].life.strong > 0);
                } else {
                    assert(self.app.state == SlotState::Live);
                    assert(sound(self.app));
                    assert(old(self).app.strong == self.app.strong);
                    assert(old(self).app.strong > 0);
                }
            } else {
                assert(self.live_count() == 0);
                assert(self.app.state == SlotState::Freed);
                assert(count_live(self.webviews@) == 0);
                assert(sound(self.app));
                assert(old(self).app.strong == self.app.strong);
                assert(old(self).app.strong == 0);
                assert forall|j: int| 0 <= j < self.webviews@.len() implies (#[trigger] old(
                    self,
                ).webviews@[j]).life.strong == 0 by {
                    if old(self).webviews@[j].life.strong > 0 {
                        assert(self.webviews@[j].life.state != SlotState::Freed);
                    }
                }
            }
        }
        if self.collector.live > 0 {
            Err(self.collector.live)
        } else {
            Ok(())
        }
    }

    /// Registers a repeatable handler of `kind` on webview `i` and returns
    /// its id, distinct from every id handed out before.  Succeeds only on
    /// the event thread; anywhere else it is a no-op returning `None`.
    pub fn on(&mut self, i: usize, current: u64, kind: EventKind, token: u64) -> (r: Option<u64>)
        requires
            old(self).inv(),
            i < old(self).webviews@.len(),
            old(self).webviews@[i as int].life.strong > 0,
            old(self).webviews@[i as int].registry.next_id < u64::MAX,
        ensures
            final(self).inv(),
            current != old(self).host_thread ==> r is None && *final(self) == *old(self),
            current == old(self).host_thread ==> {
                &&& same_but_registry(*final(self), *old(self), i as int)
                &&& r == Some(old(self).webviews@[i as int].registry.next_id)
                &&& final(self).webviews@[i as int].registry.entries@ == old(
                    self,
                ).webviews@[i as int].registry.entries@.push(
                    HandlerEntry {
                        kind,
                        id: old(self).webviews@[i as int].registry.next_id,
                        token,
                    },
                )
                &&& final(self).webviews@[i as int].registry.next_id == old(
                    self,
                ).webviews@[i as int].registry.next_id + 1
                &&& final(self).webviews@[i as int].registry.once_entries == old(
                    self,
                ).webviews@[i as int].registry.once_entries
                &&& final(self).webviews@[i as int].registry.message_handler == old(
                    self,
                ).webviews@[i as int].registry.message_handler
                &&& final(self).webviews@[i as int].registry.scheme_handlers == old(
                    self,
                ).webviews@[i as int].registry.scheme_handlers
            },
    {
        if current != self.host_thread {
            return None;
        }
        let mut ws = self.webviews.remove(i);
        let id = ws.registry.on(kind, token);
        let ghost gws = ws;
        self.webviews.insert(i, ws);
        proof {
            assert(self.webviews@ =~= old(self).webviews@.update(i as int, gws));
            lemma_counts_update(old(self).webviews@, i as int, gws);
        }
        Some(id)
    }

    /// Registers a one-shot handler of `kind` on webview `i`, reclaiming
    /// already-fired entries along the way.  A no-op off the event thread.
    pub fn once(&mut self, i: usize, current: u64, kind: EventKind, token: u64)
        requires
            old(self).inv(),
            i < old(self).webviews@.len(),
            old(self).webviews@[i as int].life.strong > 0,
        ensures
            final(self).inv(),
            current != old(self).host_thread ==> *final(self) == *old(self),
            current == old(self).host_thread ==> {
                &&& same_but_registry(*final(self), *old(self), i as int)
                &&& final(self).webviews@[i as int].registry.once_entries@
                    == crate::registry::retained_once(
                    old(self).webviews@[i as int].registry.once_entries@,
                ).push(OnceEntry { kind, token: Some(token) })
                &&& final(self).webviews@[i as int].registry.entries == old(
                    self,
                ).webviews@[i as int].registry.entries
                &&& final(self).webviews@[i as int].registry.next_id == old(
                    self,
                ).webviews@[i as int].registry.next_id
                &&& final(self).webviews@[i as int].registry.message_handler == old(
                    self,
                ).webviews@[i as int].registry.message_handler
                &&& final(self).webviews@[i as int].registry.scheme_handlers == old(
                    self,
                ).webviews@[i as int].registry.scheme_handlers
            },
    {
        if current != self.host_thread {
            return ;
        }
        let mut ws = self.webviews.remove(i);
        ws.registry.once(kind, token);
        let ghost gws = ws;
        self.webviews.insert(i, ws);
        proof {
            assert(self.webviews@ =~= old(self).webviews@.update(i as int, gws));
            lemma_counts_update(old(self).webviews@, i as int, gws);
        }
    }

    /// Unregisters the handler of `kind` with the given id on webview `i`,
    /// returning its token.  Exactly the matching handler is removed; the
    /// others stay callable, and an unknown id is a no-op.  Off the event
    /// thread nothing happens.
    pub fn off(&mut self, i: usize, current: u64, kind: EventKind, id: u64) -> (removed: Option<
        u64,
    >)
        requires
            old(self).inv(),
            i < old(self).webviews@.len(),
            old(self).webviews@[i as int].life.strong > 0,
        ensures
            final(self).inv(),
            current != old(self).host_thread ==> removed is None && *final(self) == *old(self),
            current == old(self).host_thread ==> {
                &&& same_but_registry(*final(self), *old(self), i as int)
                &&& final(self).webviews@[i as int].registry.entries@
                    == crate::registry::without_entry(
                    old(self).webviews@[i as int].registry.entries@,
                    kind,
                    id,
                )
                &&& (removed is Some <==> exists|j: int|
                    0 <= j < old(self).webviews@[i as int].registry.entries@.len() && (
                    #[trigger] old(self).webviews@[i as int].registry.entries@[j]).kind == kind
                        && old(self).webviews@[i as int].registry.entries@[j].id == id)
                &&& forall|j: int|
                    0 <= j < old(self).webviews@[i as int].registry.entries@.len() && (
                    #[trigger] old(self).webviews@[i as int].registry.entries@[j]).kind == kind
                        && old(self).webviews@[i as int].registry.entries@[j].id == id
                        ==> removed == Some(
                        old(self).webviews@[i as int].registry.entries@[j].token,
                    )
                &&& final(self).webviews@[i as int].registry.once_entries == old(
                    self,
                ).webviews@[i as int].registry.once_entries
                &&& final(self).webviews@[i as int].registry.next_id == old(
                    self,
                ).webviews@[i as int].registry.next_id
                &&& final(self).webviews@[i as int].registry.message_handler == old(
                    self,
                ).webviews@[i as int].registry.message_handler
                &&& final(self).webviews@[i as int].registry.scheme_handlers == old(
                    self,
                ).webviews@[i as int].registry.scheme_handlers
            },
    {
        if current != self.host_thread {
            return None;
        }
        let mut ws = self.webviews.remove(i);
        let removed = ws.registry.off(kind, id);
        let ghost gws = ws;
        self.webviews.insert(i, ws);
        proof {
            assert(self.webviews@ =~= old(self).webviews@.update(i as int, gws));
            lemma_counts_update(old(self).webviews@, i as int, gws);
        }
        removed
    }

    /// Removes every repeatable handler of `kind` on webview `i`, returning
    /// their tokens in registration order.  A no-op off the event thread.
    pub fn clear(&mut self, i: usize, current: u64, kind: EventKind) -> (dropped: Vec<u64>)
        requires
            old(self).inv(),
            i < old(self).webviews@.len(),
            old(self).webviews@[i as int].life.strong > 0,
        ensures
            final(self).inv(),
            current != old(self).host_thread ==> dropped@ == Seq::<u64>::empty() && *final(self)
                == *old(self),
            current == old(self).host_thread ==> {
                &&& same_but_registry(*final(self), *old(self), i as int)
                &&& final(self).webviews@[i as int].registry.entries@
                    == crate::registry::without_kind(
                    old(self).webviews@[i as int].registry.entries@,
                    kind,
                )
                &&& dropped@ == crate::registry::repeat_tokens(
                    old(self).webviews@[i as int].registry.entries@,
                    kind,
                )
                &&& final(self).webviews@[i as int].registry.once_entries == old(
                    self,
                ).webviews@[i as int].registry.once_entries
                &&& final(self).webviews@[i as int].registry.next_id == old(
                    self,
                ).webviews@[i as int].registry.next_id
                &&& final(self).webviews@[i as int].registry.message_handler == old(
                    self,
                ).webviews@[i as int].registry.message_handler
                &&& final(self).webviews@[i as int].registry.scheme_handlers == old(
                    self,
                ).webviews@[i as int].registry.scheme_handlers
            },
    {
        if current != self.host_thread {
            return Vec::new();
        }
        let mut ws = self.webviews.remove(i);
        let dropped = ws.registry.clear(kind);
        let ghost gws = ws;
        self.webviews.insert(i, ws);
        proof {
            assert(self.webviews@ =~= old(self).webviews@.update(i as int, gws));
            lemma_counts_update(old(self).webviews@, i as int, gws);
        }
        dropped
    }

    /// Sets the single message handler of webview `i`, returning the replaced
    /// one so that it is dropped rather than leaked.  A no-op off the event
    /// thread.
    pub fn on_message(&mut self, i: usize, current: u64, token: u64) -> (replaced: Option<u64>)
        requires
            old(self).inv(),
            i < old(self).webviews@.len(),
            old(self).webviews@[i as int].life.strong > 0,
        ensures
            final(self).inv(),
            current != old(self).host_thread ==> replaced is None && *final(self) == *old(self),
            current == old(self).host_thread ==> {
                &&& same_but_registry(*final(self), *old(self), i as int)
                &&& final(self).webviews@[i as int].registry.message_handler == Some(token)
                &&& replaced == old(self).webviews@[i as int].registry.message_handler
                &&& final(self).webviews@[i as int].registry.entries == old(
                    self,
                ).webviews@[i as int].registry.entries
                &&& final(self).webviews@[i as int].registry.once_entries == old(
                    self,
                ).webviews@[i as int].registry.once_entries
                &&& final(self).webviews@[i as int].registry.next_id == old(
                    self,
                ).webviews@[i as int].registry.next_id
                &&& final(self).webviews@[i as int].registry.scheme_handlers == old(
                    self,
                ).webviews@[i as int].registry.scheme_handlers
            },
    {
        if current != self.host_thread {
            return None;
        }
        let mut ws = self.webviews.remove(i);
        let replaced = ws.registry.set_message_handler(token);
        let ghost gws = ws;
        self.webviews.insert(i, ws);
        proof {
            assert(self.webviews@ =~= old(self).webviews@.update(i as int, gws));
            lemma_counts_update(old(self).webviews@, i as int, gws);
        }
        replaced
    }

    /// Removes the message handler of webview `i`, if any, returning it.  A
    /// no-op off the event thread.
    pub fn off_message(&mut self, i: usize, current: u64) -> (removed: Option<u64>)
        requires
            old(self).inv(),
            i < old(self).webviews@.len(),
            old(self).webviews@[i as int].life.strong > 0,
        ensures
            final(self).inv(),
            current != old(self).host_thread ==> removed is None && *final(self) == *old(self),
            current == old(self).host_thread ==> {
                &&& same_but_registry(*final(self), *old(self), i as int)
                &&& final(self).webviews@[i as int].registry.message_handler is None
                &&& removed == old(self).webviews@[i as int].registry.message_handler
                &&& final(self).webviews@[i as int].registry.entries == old(
                    self,
                ).webviews@[i as int].registry.entries
                &&& final(self).webviews@[i as int].registry.once_entries == old(
                    self,
                ).webviews@[i as int].registry.once_entries
                &&& final(self).webviews@[i as int].registry.next_id == old(
                    self,
                ).webviews@[i as int].registry.next_id
                &&& final(self).webviews@[i as int].registry.scheme_handlers == old(
                    self,
                ).webviews@[i as int].registry.scheme_handlers
            },
    {
        if current != self.host_thread {
            return None;
        }
        let mut ws = self.webviews.remove(i);
        let removed = ws.registry.remove_message_handler();
        let ghost gws = ws;
        self.webviews.insert(i, ws);
        proof {
            assert(self.webviews@ =~= old(self).webviews@.update(i as int, gws));
            lemma_counts_update(old(self).webviews@, i as int, gws);
        }
        removed
    }

    /// Sets the handler of the scheme called `name` on webview `i`, replacing
    /// and returning any previous one.  A no-op off the event thread.
    pub fn handle_scheme(&mut self, i: usize, current: u64, name: String, token: u64) -> (replaced:
        Option<u64>)
        requires
            old(self).inv(),
            i < old(self).webviews@.len(),
            old(self).webviews@[i as int].life.strong > 0,
        ensures
            final(self).inv(),
            current != old(self).host_thread ==> replaced is None && *final(self) == *old(self),
            current == old(self).host_thread ==> {
                &&& same_but_registry(*final(self), *old(self), i as int)
                &&& (replaced is Some <==> exists|j: int|
                    0 <= j < old(self).webviews@[i as int].registry.scheme_handlers@.len() && (
                    #[trigger] old(self).webviews@[i as int].registry.scheme_handlers@[j]).name@
                        == name@)
                &&& forall|j: int|
                    0 <= j < old(self).webviews@[i as int].registry.scheme_handlers@.len() && (
                    #[trigger] old(self).webviews@[i as int].registry.scheme_handlers@[j]).name@
                        == name@ ==> replaced == Some(
                        old(self).webviews@[i as int].registry.scheme_handlers@[j].token,
                    ) && final(self).webviews@[i as int].registry.scheme_handlers@ == old(
                        self,
                    ).webviews@[i as int].registry.scheme_handlers@.update(
                        j,
                        SchemeSlot { name, token },
                    )
                &&& replaced is None ==> final(self).webviews@[i as int].registry.scheme_handlers@
                    == old(self).webviews@[i as int].registry.scheme_handlers@.push(
                    SchemeSlot { name, token },
                )
                &&& final(self).webviews@[i as int].registry.entries == old(
                    self,
                ).webviews@[i as int].registry.entries
                &&& final(self).webviews@[i as int].registry.once_entries == old(
                    self,
                ).webviews@[i as int].registry.once_entries
                &&& final(self).webviews@[i as int].registry.next_id == old(
                    self,
                ).webviews@[i as int].registry.next_id
                &&& final(self).webviews@[i as int].registry.message_handler == old(
                    self,
                ).webviews@[i as int].registry.message_handler
            },
    {
        if current != self.host_thread {
            return None;
        }
        let mut ws = self.webviews.remove(i);
        let replaced = ws.registry.set_scheme_handler(name, token);
        let ghost gws = ws;
        self.webviews.insert(i, ws);
        proof {
            assert(self.webviews@ =~= old(self).webviews@.update(i as int, gws));
            lemma_counts_update(old(self).webviews@, i as int, gws);
        }
        replaced
    }

    /// Removes the handler of the scheme called `name` on webview `i`, if
    /// any, returning it.  A no-op off the event thread.
    pub fn remove_scheme(&mut self, i: usize, current: u64, name: &String) -> (removed: Option<
        u64,
    >)
        requires
            old(self).inv(),
            i < old(self).webviews@.len(),
            old(self).webviews@[i as int].life.strong > 0,
        ensures
            final(self).inv(),
            current != old(self).host_thread ==> removed is None && *final(self) == *old(self),
            current == old(self).host_thread ==> {
                &&& same_but_registry(*final(self), *old(self), i as int)
                &&& (removed is Some <==> exists|j: int|
                    0 <= j < old(self).webviews@[i as int].registry.scheme_handlers@.len() && (
                    #[trigger] old(self).webviews@[i as int].registry.scheme_handlers@[j]).name@
                        == name@)
                &&& forall|j: int|
                    0 <= j < old(self).webviews@[i as int].registry.scheme_handlers@.len() && (
                    #[trigger] old(self).webviews@[i as int].registry.scheme_handlers@[j]).name@
                        == name@ ==> removed == Some(
                        old(self).webviews@[i as int].registry.scheme_handlers@[j].token,
                    ) && final(self).webviews@[i as int].registry.scheme_handlers@ == old(
                        self,
                    ).webviews@[i as int].registry.scheme_handlers@.remove(j)
                &&& removed is None ==> final(self).webviews@[i as int].registry.scheme_handlers
                    == old(self).webviews@[i as int].registry.scheme_handlers
                &&& final(self).webviews@[i as int].registry.entries == old(
                    self,
                ).webviews@[i as int].registry.entries
                &&& final(self).webviews@[i as int].registry.once_entries == old(
                    self,
                ).webviews@[i as int].registry.once_entries
                &&& final(self).webviews@[i as int].registry.next_id == old(
                    self,
                ).webviews@[i as int].registry.next_id
                &&& final(self).webviews@[i as int].registry.message_handler == old(
                    self,
                ).webviews@[i as int].registry.message_handler
            },
    {
        if current != self.host_thread {
            return None;
        }
        let mut ws = self.webviews.remove(i);
        let removed = ws.registry.remove_scheme_handler(name);
        let ghost gws = ws;
        self.webviews.insert(i, ws);
        proof {
            assert(self.webviews@ =~= old(self).webviews@.update(i as int, gws));
            lemma_counts_update(old(self).webviews@, i as int, gws);
        }
        removed
    }

    /// Delivers one native event of `kind` to webview `i`, whose native
    /// object must still exist.  Repeatable handlers of the kind run in
    /// registration order, then the live one-shot handlers of the kind, whose
    /// tokens are consumed either way: they run if a webview handle is still
    /// alive and are released unrun if not.
    pub fn deliver(&mut self, i: usize, current: u64, kind: EventKind) -> (d: Delivery)
        requires
            old(self).inv(),
            current == old(self).host_thread,
            i < old(self).webviews@.len(),
            old(self).webviews@[i as int].life.state != SlotState::Freed,
        ensures
            final(self).inv(),
            same_but_registry(*final(self), *old(self), i as int),
            final(self).webviews@[i as int].registry.entries == old(
                self,
            ).webviews@[i as int].registry.entries,
            final(self).webviews@[i as int].registry.next_id == old(
                self,
            ).webviews@[i as int].registry.next_id,
            final(self).webviews@[i as int].registry.message_handler == old(
                self,
            ).webviews@[i as int].registry.message_handler,
            final(self).webviews@[i as int].registry.scheme_handlers == old(
                self,
            ).webviews@[i as int].registry.scheme_handlers,
            final(self).webviews@[i as int].registry.once_entries@.len() == old(
                self,
            ).webviews@[i as int].registry.once_entries@.len(),
            forall|j: int|
                0 <= j < old(self).webviews@[i as int].registry.once_entries@.len()
                    ==> #[trigger] final(self).webviews@[i as int].registry.once_entries@[j] == (
                if old(self).webviews@[i as int].registry.once_entries@[j].kind == kind {
                    OnceEntry {
                        kind: old(self).webviews@[i as int].registry.once_entries@[j].kind,
                        token: None::<u64>,
                    }
                } else {
                    old(self).webviews@[i as int].registry.once_entries@[j]
                }),
            old(self).webviews@[i as int].life.strong > 0 ==> d.ran@
                == crate::registry::repeat_tokens(
                old(self).webviews@[i as int].registry.entries@,
                kind,
            ) + crate::registry::once_tokens(
                old(self).webviews@[i as int].registry.once_entries@,
                kind,
            ) && d.released@ == Seq::<u64>::empty(),
            old(self).webviews@[i as int].life.strong == 0 ==> d.ran@ == Seq::<u64>::empty()
                && d.released@ == crate::registry::once_tokens(
                old(self).webviews@[i as int].registry.once_entries@,
                kind,
            ),
    {
        let mut ws = self.webviews.remove(i);
        let alive = ws.life.strong > 0;
        let d = ws.registry.deliver(kind, alive);
        let ghost gws = ws;
        self.webviews.insert(i, ws);
        proof {
            assert(self.webviews@ =~= old(self).webviews@.update(i as int, gws));
            lemma_counts_update(old(self).webviews@, i as int, gws);
        }
        d
    }
}

} // verus!
