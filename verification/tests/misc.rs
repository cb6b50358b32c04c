use rdesktop::application::{initial_content, main_window_config, missing_renderer_error, WindowContent};
use rdesktop::cef::{chrome_candidates, first_existing, send_to_frontend_script, WindowIds};
use rdesktop::config::{AppConfig, RendererConfig, WindowConfig, WindowKind};
use rdesktop::error::RdesktopError;
use rdesktop::native_capture::{
    desktop_rect, frame_bytes, frame_duration, frame_interval_micros, frame_rate_attribute,
    frame_size_attribute, recording_fps, sample_time, NativeRecorder,
};
use rdesktop::platform::TargetOs;
use rdesktop::window::{fitted_window_rect, window_attributes, WindowRect};

#[test]
fn renderer_security_limits_default_when_omitted() {
    let renderer = RendererConfig::default();
    assert!(renderer.trusted_origins.is_empty());
    assert_eq!(renderer.max_ipc_message_bytes, 1024 * 1024);
    assert_eq!(renderer.max_ipc_in_flight, 32);
}

#[test]
fn app_config_defaults() {
    let c = AppConfig::default();
    assert_eq!(c.identifier, "com.example.app");
    assert_eq!(c.window.title, "rdesktop App");
    assert_eq!((c.window.width, c.window.height), (1280, 720));
    assert_eq!(c.dev.port, 1420);
    assert_eq!(c.dev.host, "localhost");
    assert_eq!(c.bundle.windows_installer, "nsis");
    assert_eq!(c.bundle.linux_packages, vec!["appimage".to_string()]);
    assert!(!c.global_input.enabled && c.global_input.keyboard && !c.global_input.mouse_move);
}

#[test]
fn centers_window_and_clamps_oversized_height_to_work_area() {
    let fitted = fitted_window_rect(
        WindowRect { left: 120, top: 120, right: 2280, bottom: 1560 },
        WindowRect { left: 0, top: 0, right: 2560, bottom: 1400 },
    );
    assert_eq!((fitted.left, fitted.top, fitted.right, fitted.bottom), (200, 0, 2360, 1400));
}

#[test]
fn centers_smaller_window_without_resizing_it() {
    let fitted = fitted_window_rect(
        WindowRect { left: 0, top: 0, right: 1455, bottom: 957 },
        WindowRect { left: 0, top: 0, right: 2560, bottom: 1400 },
    );
    assert_eq!((fitted.left, fitted.top, fitted.right, fitted.bottom), (552, 221, 2007, 1178));
}

#[test]
fn degenerate_rects_get_one_pixel() {
    let fitted = fitted_window_rect(
        WindowRect { left: 10, top: 10, right: 5, bottom: 10 },
        WindowRect { left: 100, top: 50, right: 100, bottom: 40 },
    );
    assert_eq!((fitted.left, fitted.top, fitted.right, fitted.bottom), (100, 50, 101, 51));
}

#[test]
fn window_kinds_set_attributes() {
    let mut w = WindowConfig::default();
    let a = window_attributes(&w);
    assert!(!a.click_through && !a.is_wallpaper && a.fit_to_work_area);
    w.kind = WindowKind::Wallpaper;
    let a = window_attributes(&w);
    assert!(a.click_through && a.is_wallpaper && !a.fit_to_work_area);
    w.kind = WindowKind::Overlay;
    w.click_through = true;
    let a = window_attributes(&w);
    assert!(a.click_through && !a.is_wallpaper && !a.fit_to_work_area);
}

#[test]
fn chrome_lookup() {
    let c = chrome_candidates(TargetOs::Windows, "C:\\Users\\me\\AppData\\Local");
    assert_eq!(c.len(), 4);
    assert_eq!(c[3], "C:\\Users\\me\\AppData\\Local\\Google\\Chrome\\Application\\chrome.exe");
    let l = chrome_candidates(TargetOs::Linux, "");
    assert_eq!(l[0], "/usr/bin/google-chrome");
    assert_eq!(first_existing(&l, &[false, false, true, true, false]).as_deref(), Some("/usr/bin/chromium"));
    assert_eq!(first_existing(&l, &[false; 5]), None);
    assert_eq!(chrome_candidates(TargetOs::MacOs, "").len(), 3);
}

#[test]
fn frontend_script_escapes_quotes() {
    assert_eq!(
        send_to_frontend_script("{\"a\":\"it's \\\\ok\"}"),
        "window.__RDESKTOP_IPC__('{\"a\":\"it\\'s \\\\\\\\ok\"}')"
    );
    let mut ids = WindowIds::new();
    assert_eq!(ids.peek(), 1);
    assert_eq!((ids.next_id(), ids.next_id()), (1, 2));
    assert_eq!(ids.peek(), 3);
}

#[test]
fn capture_arithmetic() {
    assert_eq!(desktop_rect(-1920, 0, 3841, 1081).unwrap(), (-1920, 0, 3840, 1080));
    assert_eq!(desktop_rect(0, 0, 1, 1080).unwrap_err(), "Windows returned an invalid virtual desktop size");
    assert_eq!(frame_bytes(1920, 1080).unwrap(), 1920 * 1080 * 4);
    assert_eq!(frame_bytes(-1, 10).unwrap_err(), "screen dimensions overflowed");
    assert_eq!(recording_fps(0), 1);
    assert_eq!(recording_fps(500), 60);
    assert_eq!(frame_duration(30), 333_333);
    assert_eq!(frame_interval_micros(30), 33_333);
    assert_eq!(sample_time(3, 333_333), Some(999_999));
    assert_eq!(sample_time(u64::MAX, 1), None);
    assert_eq!(sample_time(i64::MAX as u64, 2), Some(i64::MAX));
    assert_eq!(sample_time(i64::MAX as u64, -2), Some(i64::MIN));
    assert_eq!(sample_time(4, -5), Some(-20));
    assert_eq!(frame_size_attribute(1920, 1080), (1920u64 << 32) | 1080);
    assert_eq!(frame_size_attribute(-5, 7), 7);
    assert_eq!(frame_rate_attribute(30), (30u64 << 32) | 1);
}

#[test]
fn native_recorder_runs_one_worker() {
    let mut r = NativeRecorder::new(TargetOs::Windows);
    assert!(r.start().is_ok());
    assert_eq!(r.start().unwrap_err(), "native screen recording is already active");
    assert!(r.stop().is_ok());
    assert_eq!(r.stop().unwrap_err(), "native screen recording is not active");
    let mut other = NativeRecorder::new(TargetOs::Linux);
    assert_eq!(
        other.start().unwrap_err(),
        "native MP4 desktop recording is currently implemented for Windows only"
    );
}

#[test]
fn error_messages() {
    assert_eq!(RdesktopError::Config("bad".to_string()).to_string(), "Configuration error: bad");
    assert_eq!(RdesktopError::Other("plain".to_string()).to_string(), "plain");
    assert_eq!(
        missing_renderer_error().to_string(),
        "Renderer initialization failed: No renderer provided. Use with_renderer()."
    );
}

#[test]
fn main_window_setup() {
    let mut c = AppConfig::default();
    c.name = "Demo".to_string();
    c.window.width = 640;
    c.window.icon = Some(rdesktop::config::WindowIcon { rgba: vec![1, 2, 3, 4], width: 1, height: 1 });
    let w = main_window_config(&c);
    assert_eq!(w.title, "Demo");
    assert_eq!(w.width, 640);
    let icon = w.icon.expect("icon kept");
    assert_eq!((icon.rgba, icon.width, icon.height), (vec![1, 2, 3, 4], 1, 1));
    assert!(matches!(initial_content(None), WindowContent::Url(ref u) if u == "about:blank"));
    assert!(matches!(
        initial_content(Some(WindowContent::Html("<p/>".to_string()))),
        WindowContent::Html(ref h) if h == "<p/>"
    ));
}
