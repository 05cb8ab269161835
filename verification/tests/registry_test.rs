use saucers::registry::{EventKind, EventRegistry};

#[test]
fn on_hands_out_distinct_ids() {
    let mut r = EventRegistry::new();
    let a = r.on(EventKind::Title, 10);
    let b = r.on(EventKind::Title, 11);
    let c = r.on(EventKind::Title, 12);
    assert_ne!(a, b);
    assert_ne!(b, c);
    assert_ne!(a, c);
    // An id of another kind is distinct too.
    let d = r.on(EventKind::Resize, 13);
    assert_ne!(c, d);
}

#[test]
fn off_removes_exactly_one_handler() {
    let mut r = EventRegistry::new();
    let a = r.on(EventKind::Title, 10);
    let b = r.on(EventKind::Title, 11);
    let c = r.on(EventKind::Title, 12);
    assert_eq!(r.off(EventKind::Title, b), Some(11));
    // The others stay callable, in registration order.
    let d = r.deliver(EventKind::Title, true);
    assert_eq!(d.ran, vec![10, 12]);
    // Removing an unknown id is a no-op.
    assert_eq!(r.off(EventKind::Title, b), None);
    let _ = (a, c);
}

#[test]
fn clear_removes_only_the_kind() {
    let mut r = EventRegistry::new();
    let _ = r.on(EventKind::Title, 10);
    let _ = r.on(EventKind::Resize, 20);
    let _ = r.on(EventKind::Title, 11);
    let dropped = r.clear(EventKind::Title);
    assert_eq!(dropped, vec![10, 11]);
    let d = r.deliver(EventKind::Resize, true);
    assert_eq!(d.ran, vec![20]);
}

#[test]
fn once_fires_at_most_once() {
    let mut r = EventRegistry::new();
    r.once(EventKind::DomReady, 77);
    let first = r.deliver(EventKind::DomReady, true);
    assert_eq!(first.ran, vec![77]);
    let second = r.deliver(EventKind::DomReady, true);
    assert!(second.ran.is_empty());
    assert!(second.released.is_empty());
}

#[test]
fn once_registration_reclaims_fired_entries() {
    let mut r = EventRegistry::new();
    r.once(EventKind::DomReady, 1);
    let _ = r.deliver(EventKind::DomReady, true);
    assert_eq!(r.once_entries.len(), 1);
    // The next registration scans and drops the consumed entry.
    r.once(EventKind::DomReady, 2);
    assert_eq!(r.once_entries.len(), 1);
}

#[test]
fn dead_owner_releases_once_handlers_unrun() {
    let mut r = EventRegistry::new();
    let _ = r.on(EventKind::Close, 5);
    r.once(EventKind::Close, 6);
    let d = r.deliver(EventKind::Close, false);
    assert!(d.ran.is_empty());
    assert_eq!(d.released, vec![6]);
}

#[test]
fn repeatable_handlers_fire_in_registration_order() {
    let mut r = EventRegistry::new();
    let _ = r.on(EventKind::Navigated, 1);
    let _ = r.on(EventKind::Navigated, 2);
    let _ = r.on(EventKind::Navigated, 3);
    let d = r.deliver(EventKind::Navigated, true);
    assert_eq!(d.ran, vec![1, 2, 3]);
}

#[test]
fn message_handler_is_replaced_not_leaked() {
    let mut r = EventRegistry::new();
    assert_eq!(r.set_message_handler(1), None);
    assert_eq!(r.set_message_handler(2), Some(1));
    assert_eq!(r.remove_message_handler(), Some(2));
    assert_eq!(r.remove_message_handler(), None);
}

#[test]
fn scheme_handlers_are_keyed_by_name() {
    let mut r = EventRegistry::new();
    assert_eq!(r.set_scheme_handler(String::from("foo"), 1), None);
    assert_eq!(r.set_scheme_handler(String::from("bar"), 2), None);
    assert_eq!(r.set_scheme_handler(String::from("foo"), 3), Some(1));
    assert_eq!(r.remove_scheme_handler(&String::from("foo")), Some(3));
    assert_eq!(r.remove_scheme_handler(&String::from("foo")), None);
    assert_eq!(r.remove_scheme_handler(&String::from("bar")), Some(2));
}

#[test]
fn release_all_returns_every_token() {
    let mut r = EventRegistry::new();
    let _ = r.on(EventKind::Title, 1);
    r.once(EventKind::Load, 2);
    let _ = r.set_message_handler(3);
    let _ = r.set_scheme_handler(String::from("foo"), 4);
    let released = r.release_all();
    assert_eq!(released, vec![1, 2, 3, 4]);
    assert!(r.entries.is_empty());
    assert!(r.once_entries.is_empty());
    assert!(r.message_handler.is_none());
    assert!(r.scheme_handlers.is_empty());
}
