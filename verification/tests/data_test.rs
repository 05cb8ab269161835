use saucers::embed::EmbedFile;
use saucers::error::Error;
use saucers::events::{DomReadyEvent, TitleEvent, WebviewLoadState};
use saucers::icon::Icon;
use saucers::navigation::WebviewNavigation;
use saucers::options::AppOptions;
use saucers::pdf::{Layout, PrintSettings};
use saucers::permission::{PermissionRequest, PermissionType};
use saucers::picker::PickerOptions;
use saucers::policy::Policy;
use saucers::prefs::Preferences;
use saucers::registry::EventKind;
use saucers::screen::Screen;
use saucers::script::{Script, ScriptLoadTime, ScriptWebFrame};
use saucers::stash::Stash;
use saucers::url::Url;

#[test]
fn picker_options_accumulate() {
    let mut p = PickerOptions::new();
    assert!(p.initial.is_none());
    p.set_initial(String::from("/tmp"));
    p.set_initial(String::from("/home"));
    p.add_filter(String::from("*.png"));
    p.add_filter(String::from("*.jpg"));
    assert_eq!(p.initial.as_deref(), Some("/home"));
    assert_eq!(p.filters, vec![String::from("*.png"), String::from("*.jpg")]);
    let d = PickerOptions::default();
    assert!(d.initial.is_none() && d.filters.is_empty());
}

#[test]
fn print_settings_hold_their_values() {
    let mut s = PrintSettings::new();
    assert!(s.file.is_none());
    assert!(matches!(s.orientation, Layout::Portrait));
    s.set_file(String::from("out.pdf"));
    s.set_orientation(Layout::Landscape);
    assert_eq!(s.file.as_deref(), Some("out.pdf"));
    assert!(matches!(s.orientation, Layout::Landscape));
}

#[test]
fn script_setters_replace_fields() {
    let mut s = Script::new(String::from("console.log(1)"), ScriptLoadTime::Creation);
    assert!(matches!(s.frame, ScriptWebFrame::Top));
    assert!(!s.permanent);
    s.set_frame(ScriptWebFrame::All);
    s.set_time(ScriptLoadTime::Ready);
    s.set_permanent(true);
    s.set_code(String::from("console.log(2)"));
    assert!(matches!(s.frame, ScriptWebFrame::All));
    assert!(matches!(s.time, ScriptLoadTime::Ready));
    assert!(s.permanent);
    assert_eq!(s.code, "console.log(2)");
}

#[test]
fn stash_copies_its_bytes() {
    let s = Stash::view(b"hello");
    assert_eq!(s.size(), 5);
    assert_eq!(s.data(), b"hello");
    let c = Stash::copy(&[1u8, 2, 3]);
    assert_eq!(c.size(), 3);
    assert_eq!(c.data(), &[1, 2, 3]);
}

#[test]
fn icon_carries_data_through() {
    let stash = Stash::copy(&[9u8, 8, 7]);
    let icon = Icon::from_data(&stash);
    assert!(!icon.is_empty());
    assert_eq!(icon.data().data(), &[9, 8, 7]);
    let empty = Icon::from_data(&Stash::copy(&[]));
    assert!(empty.is_empty());
}

#[test]
fn embed_file_keeps_content_and_mime() {
    let stash = Stash::view(b"<html></html>");
    let f = EmbedFile::new(&stash, String::from("text/html"));
    assert_eq!(f.data, b"<html></html>".to_vec());
    assert_eq!(f.mime, "text/html");
}

#[test]
fn navigation_reports_its_flags() {
    let nav = WebviewNavigation::new(String::from("https://example.test"), true, false, true);
    assert!(nav.is_new_window());
    assert!(!nav.is_redirection());
    assert!(nav.is_user_initiated());
    assert_eq!(nav.url, "https://example.test");
}

#[test]
fn app_options_hold_id_args_threads() {
    let mut o = AppOptions::new(String::from("app_id"));
    assert_eq!(o.id, "app_id");
    assert!(o.args.is_empty() && o.threads.is_none());
    o.set_args(vec![String::from("--a"), String::from("--b")]);
    o.set_threads(4);
    assert_eq!(o.args.len(), 2);
    assert_eq!(o.threads, Some(4));
}

#[test]
fn preferences_defaults_match_the_engine() {
    let mut p = Preferences::new();
    assert!(p.persistent_cookies);
    assert!(p.hardware_acceleration);
    p.set_persistent_cookies(false);
    p.set_hardware_acceleration(false);
    p.set_storage_path(String::from("/data"));
    p.set_user_agent(String::from("saucer"));
    p.add_browser_flag(String::from("--no-sandbox"));
    assert!(!p.persistent_cookies && !p.hardware_acceleration);
    assert_eq!(p.storage_path.as_deref(), Some("/data"));
    assert_eq!(p.user_agent.as_deref(), Some("saucer"));
    assert_eq!(p.browser_flags, vec![String::from("--no-sandbox")]);
}

#[test]
fn error_carries_the_engine_code() {
    let e = Error::Saucer(-3);
    assert_eq!(e.code(), -3);
    assert_eq!(e, Error::Saucer(-3));
}

#[test]
fn creation_failure_is_an_error_value() {
    assert_eq!(saucers::error::creation_result(Some(0x40), -1), Ok(0x40));
    assert_eq!(
        saucers::error::creation_result(None, -7),
        Err(Error::Saucer(-7))
    );
}

#[test]
fn screen_is_plain_data() {
    let s = Screen::new(String::from("main"), (1920, 1080), (0, 0));
    assert_eq!(s.name, "main");
    assert_eq!(s.size, (1920, 1080));
    assert_eq!(s.pos, (0, 0));
}

#[test]
fn permission_request_reports_its_kind() {
    let r = PermissionRequest::new(PermissionType::Clipboard, String::from("https://a.test"));
    assert!(matches!(r.kind(), PermissionType::Clipboard));
    assert_eq!(r.url, "https://a.test");
}

#[test]
fn url_reports_its_parts() {
    let u = Url::new(
        String::from("https"),
        Some(String::from("example.test")),
        Some(8080),
        String::from("/index.html"),
    );
    assert_eq!(u.scheme(), "https");
    assert_eq!(u.host(), "example.test");
    assert_eq!(u.port(), Some(8080));
    assert_eq!(u.path(), "/index.html");
    // Absent parts come back as empty strings, absent ports as None.
    let bare = Url::new(String::from("file"), None, None, String::from("/tmp/a"));
    assert_eq!(bare.host(), "");
    assert_eq!(bare.user(), "");
    assert_eq!(bare.password(), "");
    assert_eq!(bare.port(), None);
}

#[test]
fn event_markers_name_their_kinds() {
    assert_eq!(DomReadyEvent::kind(), EventKind::DomReady);
    assert_eq!(TitleEvent::kind(), EventKind::Title);
    assert_ne!(DomReadyEvent::kind(), TitleEvent::kind());
    assert_eq!(WebviewLoadState::Started, WebviewLoadState::Started);
    assert_ne!(WebviewLoadState::Started, WebviewLoadState::Finished);
    assert_eq!(Policy::Allow, Policy::Allow);
}
