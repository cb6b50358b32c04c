use rdesktop::hotkeys::{Key, Modifiers};
use rdesktop::input::{
    key_event, modifiers_from_key_states, mouse_event, GlobalInput, GlobalInputEvent,
    GlobalInputHandler, InputStart, KeyState, MacInput, MouseButton, WM_LBUTTONDOWN, WM_MOUSEMOVE,
    WM_MOUSEWHEEL, WM_RBUTTONUP, WM_XBUTTONDOWN,
};
use rdesktop::platform::TargetOs;
use std::sync::Arc;

struct Sink;

impl GlobalInputHandler for Sink {
    fn on_event(&self, _event: GlobalInputEvent) {}
}

#[test]
fn mouse_messages_become_events() {
    assert_eq!(
        mouse_event(WM_LBUTTONDOWN, 0, 10, 20, false),
        Some(GlobalInputEvent::Mouse { button: MouseButton::Left, state: KeyState::Pressed, x: 10, y: 20 })
    );
    assert_eq!(
        mouse_event(WM_RBUTTONUP, 0, 1, 2, false),
        Some(GlobalInputEvent::Mouse { button: MouseButton::Right, state: KeyState::Released, x: 1, y: 2 })
    );
    assert_eq!(
        mouse_event(WM_XBUTTONDOWN, 0x0001_0000, 3, 4, false),
        Some(GlobalInputEvent::Mouse { button: MouseButton::X1, state: KeyState::Pressed, x: 3, y: 4 })
    );
    assert_eq!(
        mouse_event(WM_XBUTTONDOWN, 0x0002_0000, 3, 4, false),
        Some(GlobalInputEvent::Mouse { button: MouseButton::X2, state: KeyState::Pressed, x: 3, y: 4 })
    );
    assert_eq!(mouse_event(WM_MOUSEMOVE, 0, 5, 6, false), None);
    assert_eq!(mouse_event(WM_MOUSEMOVE, 0, 5, 6, true), Some(GlobalInputEvent::MouseMove { x: 5, y: 6 }));
    assert_eq!(mouse_event(WM_MOUSEWHEEL, 0x0078_0000, 5, 6, true), None);
}

#[test]
fn keyboard_messages_become_events() {
    let mods = modifiers_from_key_states(-32768, 0, 0, 0, -1);
    assert_eq!(mods, Modifiers { ctrl: true, alt: false, shift: false, meta: true });
    assert_eq!(
        key_event(0x41, 0x80, mods),
        Some(GlobalInputEvent::Keyboard { key: Key::Letter('a'), state: KeyState::Released, modifiers: mods })
    );
    assert_eq!(
        key_event(0x0D, 0, mods),
        Some(GlobalInputEvent::Keyboard { key: Key::Enter, state: KeyState::Pressed, modifiers: mods })
    );
    assert_eq!(key_event(0xA0, 0, mods), None);
}

#[test]
fn capture_starts_once() {
    let mut g = GlobalInput::new(Arc::new(Sink)).with_mouse_move(true);
    assert_eq!(g.start(TargetOs::Windows).unwrap(), InputStart::InstallHooks { include_mouse_move: true });
    assert_eq!(g.start(TargetOs::Windows).unwrap(), InputStart::AlreadyRunning);
    assert!(g.stop());
    assert!(!g.stop());
    assert_eq!(g.start(TargetOs::Windows).unwrap(), InputStart::InstallHooks { include_mouse_move: true });
    assert_eq!(
        g.install_failed().to_string(),
        "Global input error: failed to install global input hooks (SetWindowsHookExW)"
    );
    assert!(!g.stop());
}

#[test]
fn capture_unsupported_elsewhere() {
    let mut g = GlobalInput::new(Arc::new(Sink));
    assert_eq!(
        g.start(TargetOs::Linux).unwrap_err().to_string(),
        "Unsupported platform: global input hooks are only supported on Windows and macOS"
    );
    assert!(g.start(TargetOs::MacOs).is_err());
    assert!(MacInput::start(Arc::new(Sink), false).is_err());
}

#[test]
fn session_keeps_its_handler() {
    let handler = Arc::new(Sink);
    let mut g = GlobalInput::new(handler.clone()).with_mouse_move(true);
    assert!(Arc::ptr_eq(g.handler(), &handler));
    let _ = g.start(TargetOs::Windows);
    g.stop();
    assert!(Arc::ptr_eq(g.handler(), &handler));
}
