use rdesktop::config::{AppConfig, HotkeyConfig, WindowConfig};
use rdesktop::platform::TargetOs;
use rdesktop::renderer::ResizeEdge;
use rdesktop::webview::{
    asset_answer, asset_request, asset_request_for, content_type, hotkey_plan, native_asset_url,
    parse_legacy_window_command, parse_window_command, parse_window_payload, exit_after_close, route_ipc_message, to_resize_direction,
    AssetOutcome, AssetRequest, IpcRoute, PathPart, PendingOp, PendingQueue, ResizeDirection, WindowAction,
    WindowCommand, WindowPayload,
};

fn payload(flag: Option<bool>, action: Option<&str>, edge: Option<&str>, value: Option<bool>) -> WindowPayload {
    WindowPayload {
        window_flag: flag,
        action: action.map(|a| a.to_string()),
        edge: edge.map(|e| e.to_string()),
        value,
    }
}

#[test]
fn parses_formal_window_command_envelope() {
    let message_payload = payload(Some(true), Some("close"), None, None);
    assert!(parse_window_command(&message_payload, 1).is_some());
}

#[test]
fn parses_legacy_top_level_window_command() {
    let raw = payload(Some(true), Some("minimize"), None, None);
    assert!(parse_legacy_window_command(&raw, 1).is_some());
}

#[test]
fn normalizes_runtime_asset_navigation_for_the_native_backend() {
    assert_eq!(
        native_asset_url("rdesktop://localhost/index.html", true, TargetOs::Linux),
        "rdesktop://localhost/index.html"
    );
    assert_eq!(
        native_asset_url("https://example.com", true, TargetOs::Linux),
        "https://example.com"
    );
    assert_eq!(
        native_asset_url("rdesktop://localhost/index.html", false, TargetOs::Linux),
        "rdesktop://localhost/index.html"
    );
}

#[test]
fn windows_asset_urls_use_the_http_origin() {
    assert_eq!(
        native_asset_url("rdesktop://localhost/index.html", true, TargetOs::Windows),
        "http://rdesktop.localhost/index.html"
    );
    assert_eq!(
        native_asset_url("https://example.com", true, TargetOs::Windows),
        "https://example.com"
    );
    assert_eq!(
        native_asset_url("rdesktop://localhost/index.html", false, TargetOs::Windows),
        "rdesktop://localhost/index.html"
    );
}

#[test]
fn window_payload_actions() {
    assert_eq!(
        parse_window_payload(&payload(Some(true), Some("maximize"), None, None), 7),
        Some(WindowCommand { rdesktop_id: 7, action: WindowAction::Maximize })
    );
    assert_eq!(
        parse_window_payload(&payload(Some(true), Some("start_drag"), None, None), 2),
        Some(WindowCommand { rdesktop_id: 2, action: WindowAction::StartDrag })
    );
    assert_eq!(
        parse_window_payload(&payload(Some(true), Some("start_resize"), Some("top-left"), None), 3),
        Some(WindowCommand {
            rdesktop_id: 3,
            action: WindowAction::StartResize(ResizeDirection::NorthWest)
        })
    );
    assert_eq!(
        parse_window_payload(&payload(Some(true), Some("start_resize"), None, None), 3),
        Some(WindowCommand {
            rdesktop_id: 3,
            action: WindowAction::StartResize(ResizeDirection::SouthEast)
        })
    );
    assert_eq!(
        parse_window_payload(&payload(Some(true), Some("start_resize"), Some("sideways"), None), 3),
        Some(WindowCommand {
            rdesktop_id: 3,
            action: WindowAction::StartResize(ResizeDirection::SouthEast)
        })
    );
    assert_eq!(
        parse_window_payload(&payload(Some(true), Some("set_fullscreen"), None, Some(true)), 4),
        Some(WindowCommand { rdesktop_id: 4, action: WindowAction::SetFullscreen(true) })
    );
    assert_eq!(
        parse_window_payload(&payload(Some(true), Some("set_fullscreen"), None, None), 4),
        Some(WindowCommand { rdesktop_id: 4, action: WindowAction::SetFullscreen(false) })
    );
}

#[test]
fn non_window_payloads_are_not_commands() {
    assert_eq!(parse_window_payload(&payload(None, Some("close"), None, None), 1), None);
    assert_eq!(parse_window_payload(&payload(Some(false), Some("close"), None, None), 1), None);
    assert_eq!(parse_window_payload(&payload(Some(true), None, None, None), 1), None);
    assert_eq!(parse_window_payload(&payload(Some(true), Some("explode"), None, None), 1), None);
}

#[test]
fn resize_edges_map_to_directions() {
    assert_eq!(to_resize_direction(ResizeEdge::Top), ResizeDirection::North);
    assert_eq!(to_resize_direction(ResizeEdge::BottomLeft), ResizeDirection::SouthWest);
    assert_eq!(to_resize_direction(ResizeEdge::Right), ResizeDirection::East);
}

#[test]
fn asset_content_types() {
    assert_eq!(content_type("mjs"), "text/javascript; charset=utf-8");
    assert_eq!(content_type("json"), "application/json; charset=utf-8");
    assert_eq!(content_type("woff2"), "font/woff2");
    assert_eq!(content_type(""), "application/octet-stream");
}

#[test]
fn asset_requests_are_decoded_and_checked() {
    match asset_request("/") {
        AssetRequest::File(p) => assert_eq!(p, "index.html"),
        AssetRequest::Forbidden => panic!("root must serve the index"),
    }
    match asset_request("/assets/my%20app.js") {
        AssetRequest::File(p) => assert_eq!(p, "assets/my app.js"),
        AssetRequest::Forbidden => panic!("plain asset must be served"),
    }
    match asset_request("/caf%C3%A9.css") {
        AssetRequest::File(p) => assert_eq!(p, "café.css"),
        AssetRequest::Forbidden => panic!("plain asset must be served"),
    }
    assert!(matches!(asset_request("/../secret.txt"), AssetRequest::Forbidden));
    assert!(matches!(asset_request("/a/%2e%2e/b"), AssetRequest::Forbidden));
    // A decoded path that starts with `/` has a root on every platform.
    assert!(matches!(asset_request("/%2Fetc/passwd"), AssetRequest::Forbidden));
    assert!(matches!(asset_request("/a/b/.."), AssetRequest::Forbidden));
    // `..` inside a name is no parent segment.
    match asset_request("/a..b/c") {
        AssetRequest::File(p) => assert_eq!(p, "a..b/c"),
        AssetRequest::Forbidden => panic!("a name with dots must be served"),
    }
}

#[test]
fn asset_request_from_components() {
    assert!(matches!(
        asset_request_for("x/../y", &[PathPart::Normal, PathPart::ParentDir, PathPart::Normal]),
        AssetRequest::Forbidden
    ));
    match asset_request_for("", &[]) {
        AssetRequest::File(p) => assert_eq!(p, "index.html"),
        AssetRequest::Forbidden => panic!("empty path serves the index"),
    }
}

#[test]
fn asset_answers() {
    assert_eq!(asset_answer(AssetOutcome::Found, "png"), (200, "image/png", ""));
    assert_eq!(
        asset_answer(AssetOutcome::NotFound, "png"),
        (404, "text/plain; charset=utf-8", "not found")
    );
    assert_eq!(
        asset_answer(AssetOutcome::ReadFailed, "png"),
        (500, "text/plain; charset=utf-8", "asset read failed")
    );
}

#[test]
fn pending_queue_hands_out_increasing_ids() {
    let mut q = PendingQueue::new();
    assert_eq!(q.peek_next_id(), 1);
    let a = q.create_window(WindowConfig { width: 640, height: 480, ..WindowConfig::default() });
    let b = q.create_window(WindowConfig { title: "second".to_string(), ..WindowConfig::default() });
    assert_eq!(q.peek_next_id(), 3);
    assert_eq!((a, b), (1, 2));
    q.push(PendingOp::LoadUrl(a, "about:blank".to_string()));
    q.push(PendingOp::Close(b));
    let (windows, ops) = q.drain();
    assert_eq!(windows.iter().map(|w| w.0).collect::<Vec<_>>(), vec![1, 2]);
    assert_eq!((windows[0].1.width, windows[0].1.height), (640, 480));
    assert_eq!(windows[1].1.title, "second");
    assert_eq!(ops.len(), 2);
    let (windows, ops) = q.drain();
    assert!(windows.is_empty() && ops.is_empty());
    assert_eq!(q.create_window(WindowConfig::default()), 3);
}

#[test]
fn hotkey_plan_numbers_entries_from_one() {
    let mut config = AppConfig::default();
    config.hotkeys.push(HotkeyConfig { id: None, combo: "Ctrl+K".to_string(), title: None });
    config.hotkeys.push(HotkeyConfig { id: None, combo: "Ctrl+Nope".to_string(), title: None });
    let plan = hotkey_plan(&config);
    assert_eq!(plan.len(), 2);
    assert_eq!(plan[0].id, 1);
    assert_eq!(plan[0].hotkey.as_ref().unwrap().to_string(), "Ctrl+K");
    assert_eq!(plan[1].id, 2);
    assert_eq!(plan[1].hotkey.as_ref().unwrap_err(), "unknown key: Nope");
}

#[test]
fn ipc_messages_are_routed() {
    let window = payload(Some(true), Some("maximize"), None, None);
    let plain = payload(None, None, None, None);
    let maximize = IpcRoute::Window(WindowCommand { rdesktop_id: 4, action: WindowAction::Maximize });
    // Not JSON: dropped.
    assert_eq!(route_ipc_message(None, None, 4), IpcRoute::Ignore);
    // A top-level window command wins, whatever the envelope says.
    assert_eq!(route_ipc_message(Some(&window), None, 4), maximize);
    assert_eq!(route_ipc_message(Some(&window), Some(&plain), 4), maximize);
    // JSON, but not an IPC envelope: dropped.
    assert_eq!(route_ipc_message(Some(&plain), None, 4), IpcRoute::Ignore);
    // A window command inside the envelope.
    let close = payload(Some(true), Some("close"), None, None);
    assert_eq!(
        route_ipc_message(Some(&plain), Some(&close), 9),
        IpcRoute::Window(WindowCommand { rdesktop_id: 9, action: WindowAction::Close })
    );
    // An ordinary message goes to the handler, also with an unknown action.
    assert_eq!(route_ipc_message(Some(&plain), Some(&plain), 4), IpcRoute::Handle);
    let unknown = payload(Some(true), Some("explode"), None, None);
    assert_eq!(route_ipc_message(Some(&plain), Some(&unknown), 4), IpcRoute::Handle);
}

#[test]
fn closing_the_last_window_ends_the_loop() {
    assert!(exit_after_close(0));
    assert!(!exit_after_close(1));
}
