use rdesktop::devserver::{
    content_type, dev_server_address, frontend_body, frontend_relative_path, inject_bridge,
    is_html_extension, reload_step, shutdown_action, shutdown_failure_message, FrontendBody,
    ScreenshotFrames, ShutdownAction,
};
use rdesktop::recording::{RecordingSnapshot, RecordingStatus};

#[test]
fn frontend_paths() {
    assert_eq!(frontend_relative_path("/").as_deref(), Some("index.html"));
    assert_eq!(frontend_relative_path("///app.js").as_deref(), Some("app.js"));
    assert_eq!(frontend_relative_path("/assets/x.css").as_deref(), Some("assets/x.css"));
    assert_eq!(frontend_relative_path("/../etc/passwd"), None);
    assert_eq!(frontend_relative_path("/a/.."), None);
    assert_eq!(frontend_relative_path("/a\\b"), None);
    assert_eq!(frontend_relative_path("/a/..b/c").as_deref(), Some("a/..b/c"));
}

#[test]
fn bridge_goes_before_head_end() {
    assert_eq!(
        inject_bridge("<html><HEAD></HEAD><body></body></html>"),
        "<html><HEAD><script src=\"/__rdesktop__/bridge.js\"></script></HEAD><body></body></html>"
    );
    assert_eq!(
        inject_bridge("<p>no head</p>"),
        "<script src=\"/__rdesktop__/bridge.js\"></script><p>no head</p>"
    );
    let already = "<head><script src=\"/__rdesktop__/bridge.js\"></script></head>";
    assert_eq!(inject_bridge(already), already);
}

#[test]
fn bridge_injection_is_idempotent() {
    let once = inject_bridge("<head></head>");
    assert_eq!(inject_bridge(&once), once);
}

#[test]
fn frontend_bodies() {
    match frontend_body(b"<head></head>".to_vec(), true) {
        FrontendBody::Html(h) => assert_eq!(h, "<head><script src=\"/__rdesktop__/bridge.js\"></script></head>"),
        FrontendBody::Raw(_) => panic!("html must be injected"),
    }
    match frontend_body(vec![0xff, 0x00], false) {
        FrontendBody::Raw(b) => assert_eq!(b, vec![0xff, 0x00]),
        FrontendBody::Html(_) => panic!("binary files are served as read"),
    }
    match frontend_body(vec![0x3c, 0xff, 0x3e], true) {
        FrontendBody::Html(h) => assert_eq!(h, "<script src=\"/__rdesktop__/bridge.js\"></script><\u{FFFD}>"),
        FrontendBody::Raw(_) => panic!("html must be injected"),
    }
}

#[test]
fn dev_content_types() {
    assert!(is_html_extension(Some("HTML")));
    assert!(!is_html_extension(Some("htm")));
    assert!(!is_html_extension(None));
    assert_eq!(content_type("js"), "text/javascript; charset=utf-8");
    assert_eq!(content_type("jpeg"), "image/jpeg");
    assert_eq!(content_type("json"), "application/json");
    assert_eq!(content_type("bin"), "application/octet-stream");
}

#[test]
fn screenshot_publisher_returns_complete_frames_and_waits_for_new_generation() {
    let mut frames = ScreenshotFrames::new();
    assert_eq!(frames.generation(), 0);
    assert!(frames.latest().is_none());
    assert!(frames.newer_than(0).is_none());
    assert!(!frames.publish_png(b""));
    assert_eq!(frames.generation(), 0);
    assert!(frames.publish_png(b"complete-png-frame"));
    let frame = frames.newer_than(0).expect("new frame");
    assert_eq!(frame.generation, 1);
    assert_eq!(frame.png, b"complete-png-frame");
    assert_eq!(frames.latest().expect("latest frame").generation, 1);
    assert!(frames.newer_than(1).is_none());
}

#[test]
fn oversized_frames_are_refused() {
    let mut frames = ScreenshotFrames::new();
    let big = vec![0u8; 16 * 1024 * 1024 + 1];
    assert!(!frames.publish_png(&big));
    assert_eq!(frames.generation(), 0);
}

fn snapshot(status: RecordingStatus, native: bool, session: Option<&str>) -> RecordingSnapshot {
    RecordingSnapshot {
        status,
        session_id: session.map(|s| s.to_string()),
        path: String::new(),
        download_url: String::new(),
        mime_type: None,
        native,
        bytes: 0,
        error: None,
        started_at: None,
        finished_at: None,
    }
}

#[test]
fn shutdown_decisions() {
    assert!(matches!(shutdown_action(&snapshot(RecordingStatus::Idle, true, None)), ShutdownAction::Nothing));
    assert!(matches!(
        shutdown_action(&snapshot(RecordingStatus::Recording, true, Some("1-1"))),
        ShutdownAction::StopNative(ref s) if s == "1-1"
    ));
    assert!(matches!(
        shutdown_action(&snapshot(RecordingStatus::StopRequested, false, Some("1-2"))),
        ShutdownAction::FailBrowser(ref s) if s == "1-2"
    ));
    assert!(matches!(
        shutdown_action(&snapshot(RecordingStatus::Completed, false, Some("1-2"))),
        ShutdownAction::Nothing
    ));
    assert_eq!(shutdown_failure_message(), "dev server shut down before browser recording finalized");
}

#[test]
fn server_address_and_reload() {
    assert_eq!(
        dev_server_address("localhost", 1420),
        ("localhost:1420".to_string(), "http://localhost:1420".to_string())
    );
    assert_eq!(reload_step(5, 5, 3), (5, 3));
    assert_eq!(reload_step(5, 9, 3), (9, 4));
    assert_eq!(reload_step(5, 9, u64::MAX), (9, 0));
}
