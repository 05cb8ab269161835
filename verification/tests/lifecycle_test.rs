use saucers::collector::{CleanupTarget, Collector};
use saucers::lifecycle::{DropOutcome, Lifecycle, SlotState};
use saucers::queue::{EventQueue, QueueItem, TimedPost};
use saucers::slot::NativeSlot;

#[test]
fn slot_take_is_one_shot() {
    let mut slot = NativeSlot::new(0xabcd, 7);
    assert!(slot.is_host_thread(7));
    assert!(!slot.is_host_thread(8));
    assert!(slot.has_pointer());
    assert_eq!(slot.take(), Some(0xabcd));
    assert!(!slot.has_pointer());
    assert_eq!(slot.take(), None);
}

#[test]
fn lifecycle_inline_free_on_host() {
    let mut l = Lifecycle::new(1);
    l.clone_ref();
    assert_eq!(l.strong, 2);
    assert_eq!(l.drop_ref(1), DropOutcome::SharedRemain);
    assert_eq!(l.frees, 0);
    assert_eq!(l.state, SlotState::Live);
    assert_eq!(l.drop_ref(1), DropOutcome::FreedInline);
    assert_eq!(l.frees, 1);
    assert_eq!(l.state, SlotState::Freed);
}

#[test]
fn lifecycle_foreign_drop_defers() {
    let mut l = Lifecycle::new(1);
    assert_eq!(l.drop_ref(2), DropOutcome::Deferred);
    assert_eq!(l.frees, 0);
    assert_eq!(l.state, SlotState::PendingDeferredFree);
    l.collect();
    assert_eq!(l.frees, 1);
    assert_eq!(l.state, SlotState::Freed);
}

#[test]
fn collector_queue_is_fifo() {
    let mut c = Collector::new(1);
    c.register();
    c.register();
    c.enqueue(CleanupTarget::Webview(0));
    c.enqueue(CleanupTarget::App);
    assert_eq!(c.live, 2);
    assert_eq!(c.pop_job(), Some(CleanupTarget::Webview(0)));
    assert_eq!(c.pop_job(), Some(CleanupTarget::App));
    assert_eq!(c.pop_job(), None);
    assert_eq!(c.live, 0);
}

#[test]
fn event_queue_keeps_submission_order() {
    let mut q = EventQueue::new();
    assert!(q.offer(QueueItem::Posted(1)));
    assert!(q.offer(QueueItem::Posted(2)));
    q.push(QueueItem::QuitRequest);
    assert_eq!(q.pop(), Some(QueueItem::Posted(1)));
    assert_eq!(q.pop(), Some(QueueItem::Posted(2)));
    assert_eq!(q.pop(), Some(QueueItem::QuitRequest));
    assert_eq!(q.pop(), None);
}

#[test]
fn stopped_queue_ignores_posts() {
    let mut q = EventQueue::new();
    q.set_stopped(true);
    assert!(!q.offer(QueueItem::Posted(9)));
    assert_eq!(q.pop(), None);
}

#[test]
fn timed_post_is_consumed_once() {
    let mut t = TimedPost::new(42);
    assert_eq!(t.consume(), Some(42));
    assert_eq!(t.consume(), None);
}
