use saucers::lifecycle::{DropOutcome, SlotState};
use saucers::registry::EventKind;
use saucers::runtime::{RunEvent, Runtime};

const T0: u64 = 1;
const T1: u64 = 2;

#[test]
fn clones_share_one_native_object() {
    // Dropping a clone while another handle lives never frees; the last
    // drop frees exactly once, whatever threads the drops happen on.
    let mut rt = Runtime::new(T0);
    rt.clone_app();
    rt.clone_app();
    assert_eq!(rt.drop_app(T1), DropOutcome::SharedRemain);
    assert_eq!(rt.drop_app(T0), DropOutcome::SharedRemain);
    assert_eq!(rt.app.frees, 0);
    assert_eq!(rt.app.state, SlotState::Live);
    assert_eq!(rt.drop_app(T0), DropOutcome::FreedInline);
    assert_eq!(rt.app.frees, 1);
    assert_eq!(rt.app.state, SlotState::Freed);
    assert!(rt.finish(T0).is_ok());
}

#[test]
fn foreign_drop_waits_for_the_drain() {
    // The last drop on a foreign thread must not free synchronously; the
    // next drain of the collector frees exactly once.
    let mut rt = Runtime::new(T0);
    assert_eq!(rt.drop_app(T1), DropOutcome::Deferred);
    assert_eq!(rt.app.frees, 0);
    assert_eq!(rt.app.state, SlotState::PendingDeferredFree);
    let _ = rt.try_collect(T0);
    assert_eq!(rt.app.frees, 1);
    assert_eq!(rt.app.state, SlotState::Freed);
    assert!(rt.finish(T0).is_ok());
}

#[test]
fn collector_reports_leaked_handles() {
    // Teardown errs exactly while a handle is still alive, and with the
    // count of resources still held.
    let mut rt = Runtime::new(T0);
    assert_eq!(rt.finish(T0), Err(1));
    assert_eq!(rt.drop_app(T0), DropOutcome::FreedInline);
    assert_eq!(rt.finish(T0), Ok(()));
}

#[test]
fn collector_counts_webview_leaks_too() {
    let mut rt = Runtime::new(T0);
    let w = rt.new_webview(T0).unwrap();
    assert_eq!(rt.drop_app(T0), DropOutcome::SharedRemain);
    // Both the webview and the app it holds are still alive.
    assert_eq!(rt.finish(T0), Err(2));
    let _ = rt.drop_webview(w, T0);
    assert_eq!(rt.finish(T0), Ok(()));
}

#[test]
fn collect_now_drains_everything() {
    let mut rt = Runtime::new(T0);
    let w = rt.new_webview(T0).unwrap();
    let _ = rt.drop_webview(w, T1);
    assert_eq!(rt.drop_app(T1), DropOutcome::Deferred);
    rt.collect_now(T0);
    assert_eq!(rt.collector.live, 0);
    assert_eq!(rt.app.frees, 1);
    assert_eq!(rt.webviews[w].life.frees, 1);
}

#[test]
fn webview_creation_is_host_thread_only() {
    let mut rt = Runtime::new(T0);
    assert_eq!(rt.new_webview(T1), None);
    assert!(rt.new_webview(T0).is_some());
    let _ = rt.drop_webview(0, T0);
    let _ = rt.drop_app(T0);
    assert!(rt.finish(T0).is_ok());
}

#[test]
fn on_yields_distinct_ids_and_off_removes_one() {
    let mut rt = Runtime::new(T0);
    let w = rt.new_webview(T0).unwrap();
    let a = rt.on(w, T0, EventKind::Title, 10).unwrap();
    let b = rt.on(w, T0, EventKind::Title, 11).unwrap();
    let c = rt.on(w, T0, EventKind::Title, 12).unwrap();
    assert!(a != b && b != c && a != c);
    assert_eq!(rt.off(w, T0, EventKind::Title, b), Some(11));
    let d = rt.deliver(w, T0, EventKind::Title);
    assert_eq!(d.ran, vec![10, 12]);
    // Registration and removal are no-ops off the event thread.
    assert_eq!(rt.on(w, T1, EventKind::Title, 13), None);
    assert_eq!(rt.off(w, T1, EventKind::Title, a), None);
    let _ = rt.drop_webview(w, T0);
    let _ = rt.drop_app(T0);
    assert!(rt.finish(T0).is_ok());
}

#[test]
fn once_handler_fires_at_most_once() {
    let mut rt = Runtime::new(T0);
    let w = rt.new_webview(T0).unwrap();
    rt.once(w, T0, EventKind::DomReady, 77);
    let first = rt.deliver(w, T0, EventKind::DomReady);
    assert_eq!(first.ran, vec![77]);
    let second = rt.deliver(w, T0, EventKind::DomReady);
    assert!(second.ran.is_empty());
    let _ = rt.drop_webview(w, T0);
    let _ = rt.drop_app(T0);
    assert!(rt.finish(T0).is_ok());
}

#[test]
fn once_handler_released_when_webview_destroyed() {
    // A one-shot handler whose event never fires is still released when the
    // owning webview is torn down: its captured state is dropped, not leaked.
    let mut rt = Runtime::new(T0);
    let w = rt.new_webview(T0).unwrap();
    rt.once(w, T0, EventKind::Minimize, 55);
    let (outcome, released) = rt.drop_webview(w, T0);
    assert_eq!(outcome, DropOutcome::FreedInline);
    assert_eq!(released, vec![55]);
    let _ = rt.drop_app(T0);
    assert!(rt.finish(T0).is_ok());
}

#[test]
fn post_from_foreign_thread_runs_on_host() {
    // A clone posted from another thread runs on the event thread, sees the
    // event thread as safe, and quit ends the loop.
    let mut rt = Runtime::new(T0);
    rt.clone_app();
    // On the foreign thread: the closure is posted, then quit is requested.
    assert!(!rt.is_thread_safe(T1));
    assert!(rt.post(100));
    rt.quit(T1);
    assert_eq!(rt.drop_app(T1), DropOutcome::SharedRemain);
    // On the event thread the loop runs the closure exactly once.
    assert!(rt.is_thread_safe(T0));
    let ran = rt.run(T0);
    assert_eq!(ran, vec![100]);
    // Once the loop has returned, new posts are ignored.
    assert!(!rt.post(101));
    assert_eq!(rt.drop_app(T0), DropOutcome::FreedInline);
    assert!(rt.finish(T0).is_ok());
}

#[test]
fn posts_run_in_submission_order() {
    let mut rt = Runtime::new(T0);
    assert!(rt.post(1));
    assert!(rt.post(2));
    assert!(rt.post(3));
    rt.quit(T0);
    let ran = rt.run(T0);
    assert_eq!(ran, vec![1, 2, 3]);
    let _ = rt.drop_app(T0);
    assert!(rt.finish(T0).is_ok());
}

#[test]
fn app_outlives_outer_handle_while_webview_lives() {
    // Dropping the outer application handle while a webview handle is alive
    // must not free the application; only after the webview is gone does the
    // application's native resource get freed.
    let mut rt = Runtime::new(T0);
    let w = rt.new_webview(T0).unwrap();
    assert_eq!(rt.drop_app(T0), DropOutcome::SharedRemain);
    assert_eq!(rt.app.frees, 0);
    assert_eq!(rt.app.state, SlotState::Live);
    let (outcome, _) = rt.drop_webview(w, T0);
    assert_eq!(outcome, DropOutcome::FreedInline);
    assert_eq!(rt.webviews[w].life.frees, 1);
    assert_eq!(rt.app.frees, 1);
    assert_eq!(rt.app.state, SlotState::Freed);
    assert!(rt.finish(T0).is_ok());
}

#[test]
fn webview_dropped_on_foreign_thread_posts_a_drain() {
    let mut rt = Runtime::new(T0);
    let w = rt.new_webview(T0).unwrap();
    let (outcome, released) = rt.drop_webview(w, T1);
    assert_eq!(outcome, DropOutcome::Deferred);
    assert!(released.is_empty());
    assert_eq!(rt.webviews[w].life.frees, 0);
    // The event loop iteration drains the collector and frees the webview.
    match rt.run_once(T0) {
        RunEvent::Drained(_) => {}
        other => panic!("expected a drain, got {:?}", other),
    }
    assert_eq!(rt.webviews[w].life.frees, 1);
    let _ = rt.drop_app(T0);
    assert!(rt.finish(T0).is_ok());
}

#[test]
fn title_handler_fires_per_navigation_in_order() {
    // A repeatable title handler fires once per navigation, in navigation
    // order, each time with that navigation's title.
    let mut rt = Runtime::new(T0);
    let w = rt.new_webview(T0).unwrap();
    let token = 7;
    let id = rt.on(w, T0, EventKind::Title, token).unwrap();

    // The embedding maps tokens to closures; here the closure records the
    // title it was handed.
    let mut seen: Vec<String> = Vec::new();
    for title in ["first page", "second page"] {
        let d = rt.deliver(w, T0, EventKind::Title);
        for t in d.ran {
            assert_eq!(t, token);
            seen.push(title.to_string());
        }
    }
    assert_eq!(seen, vec!["first page".to_string(), "second page".to_string()]);

    assert_eq!(rt.off(w, T0, EventKind::Title, id), Some(token));
    let _ = rt.drop_webview(w, T0);
    let _ = rt.drop_app(T0);
    assert!(rt.finish(T0).is_ok());
}

#[test]
fn posted_closure_dropped_when_app_is_gone() {
    let mut rt = Runtime::new(T0);
    assert!(rt.post(9));
    assert_eq!(rt.drop_app(T0), DropOutcome::FreedInline);
    match rt.run_once(T0) {
        RunEvent::DroppedPost(t) => assert_eq!(t, 9),
        other => panic!("expected the post to be dropped, got {:?}", other),
    }
    assert!(rt.finish(T0).is_ok());
}

#[test]
fn weak_upgrades_succeed_only_while_alive() {
    let mut rt = Runtime::new(T0);
    // A weak reference upgrades into a fresh strong handle while one lives.
    assert!(rt.upgrade_app());
    assert_eq!(rt.app.strong, 2);
    let _ = rt.drop_app(T0);
    let _ = rt.drop_app(T0);
    // Once the last strong handle is gone, upgrades fail.
    assert!(!rt.upgrade_app());
    assert!(rt.finish(T0).is_ok());
}

#[test]
fn weak_webview_upgrade_follows_its_handles() {
    let mut rt = Runtime::new(T0);
    let w = rt.new_webview(T0).unwrap();
    assert!(rt.upgrade_webview(w));
    let _ = rt.drop_webview(w, T0);
    let _ = rt.drop_webview(w, T0);
    assert!(!rt.upgrade_webview(w));
    let _ = rt.drop_app(T0);
    assert!(rt.finish(T0).is_ok());
}

#[test]
fn pool_jobs_wait_for_a_worker() {
    let mut rt = Runtime::new(T0);
    rt.pool_emplace(61);
    rt.pool_emplace(62);
    assert_eq!(rt.take_pool_job(), Some(61));
    assert_eq!(rt.take_pool_job(), Some(62));
    assert_eq!(rt.take_pool_job(), None);
    let _ = rt.drop_app(T0);
    assert!(rt.finish(T0).is_ok());
}

#[test]
fn empty_queue_is_idle() {
    let mut rt = Runtime::new(T0);
    assert!(matches!(rt.run_once(T0), RunEvent::Idle));
    // Each quit enqueues an independent termination request.
    rt.quit(T0);
    rt.quit(T0);
    let ran = rt.run(T0);
    assert!(ran.is_empty());
    assert!(matches!(rt.run_once(T0), RunEvent::QuitSeen));
    let _ = rt.drop_app(T0);
    assert!(rt.finish(T0).is_ok());
}

#[test]
fn message_and_scheme_handlers_route_to_the_webview() {
    let mut rt = Runtime::new(T0);
    let w = rt.new_webview(T0).unwrap();
    assert_eq!(rt.on_message(w, T0, 31), None);
    assert_eq!(rt.on_message(w, T0, 32), Some(31));
    assert_eq!(rt.off_message(w, T0), Some(32));
    assert_eq!(rt.handle_scheme(w, T0, String::from("foo"), 41), None);
    assert_eq!(rt.handle_scheme(w, T0, String::from("foo"), 42), Some(41));
    assert_eq!(rt.remove_scheme(w, T0, &String::from("foo")), Some(42));
    // All of them are no-ops off the event thread.
    assert_eq!(rt.on_message(w, T1, 33), None);
    assert_eq!(rt.handle_scheme(w, T1, String::from("bar"), 43), None);
    let _ = rt.drop_webview(w, T0);
    let _ = rt.drop_app(T0);
    assert!(rt.finish(T0).is_ok());
}
