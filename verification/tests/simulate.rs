use rdesktop::hotkeys::Key;
use rdesktop::input::MouseButton;
use rdesktop::platform::TargetOs;
use rdesktop::simulate::{
    button_flags, InputSimulator, MacSim, SimEvent, KEYEVENTF_KEYUP, KEYEVENTF_UNICODE,
    MOUSEEVENTF_ABSOLUTE, MOUSEEVENTF_MOVE, MOUSEEVENTF_WHEEL, MOUSEEVENTF_XDOWN, MOUSEEVENTF_XUP,
};

fn sim() -> InputSimulator {
    InputSimulator::new(TargetOs::Windows).unwrap()
}

#[test]
fn chords_release_in_reverse() {
    let events = sim().tap_combo(&[Key::Letter('c'), Key::Enter]);
    assert_eq!(
        events,
        vec![
            SimEvent::Key { vk: 0x43, flags: 0 },
            SimEvent::Key { vk: 0x0D, flags: 0 },
            SimEvent::Key { vk: 0x0D, flags: KEYEVENTF_KEYUP },
            SimEvent::Key { vk: 0x43, flags: KEYEVENTF_KEYUP },
        ]
    );
    assert_eq!(
        sim().tap_key(Key::Digit(1)),
        vec![SimEvent::Key { vk: 0x31, flags: 0 }, SimEvent::Key { vk: 0x31, flags: KEYEVENTF_KEYUP }]
    );
}

#[test]
fn text_is_typed_as_unicode_units() {
    let events = sim().type_text("hé");
    assert_eq!(
        events,
        vec![
            SimEvent::Unicode { unit: 0x68, flags: KEYEVENTF_UNICODE },
            SimEvent::Unicode { unit: 0x68, flags: KEYEVENTF_UNICODE | KEYEVENTF_KEYUP },
            SimEvent::Unicode { unit: 0xE9, flags: KEYEVENTF_UNICODE },
            SimEvent::Unicode { unit: 0xE9, flags: KEYEVENTF_UNICODE | KEYEVENTF_KEYUP },
        ]
    );
}

#[test]
fn characters_beyond_the_basic_plane_are_typed_as_surrogate_pairs() {
    let text = "a\u{1F600}";
    let units: Vec<u16> = text.encode_utf16().collect();
    assert_eq!(units, vec![0x61, 0xD83D, 0xDE00]);
    let mut expected = Vec::new();
    for u in units {
        expected.push(SimEvent::Unicode { unit: u, flags: KEYEVENTF_UNICODE });
        expected.push(SimEvent::Unicode { unit: u, flags: KEYEVENTF_UNICODE | KEYEVENTF_KEYUP });
    }
    assert_eq!(sim().type_text(text), expected);
}

#[test]
fn absolute_moves_are_scaled() {
    assert_eq!(
        sim().move_mouse(960, 540, true, 1921, 1081),
        vec![SimEvent::Mouse { dx: 32767, dy: 32767, data: 0, flags: MOUSEEVENTF_MOVE | MOUSEEVENTF_ABSOLUTE }]
    );
    assert_eq!(
        sim().move_mouse(-10, 5, true, 11, 1),
        vec![SimEvent::Mouse { dx: -65535, dy: 5, data: 0, flags: MOUSEEVENTF_MOVE | MOUSEEVENTF_ABSOLUTE }]
    );
    assert_eq!(
        sim().move_mouse(-3, 4, false, 0, 0),
        vec![SimEvent::Mouse { dx: -3, dy: 4, data: 0, flags: MOUSEEVENTF_MOVE }]
    );
}

#[test]
fn buttons_and_wheel() {
    assert_eq!(button_flags(MouseButton::X2, true), (MOUSEEVENTF_XDOWN, 2));
    assert_eq!(button_flags(MouseButton::X1, false), (MOUSEEVENTF_XUP, 1));
    assert_eq!(
        sim().click(MouseButton::Left),
        vec![
            SimEvent::Mouse { dx: 0, dy: 0, data: 0, flags: 2 },
            SimEvent::Mouse { dx: 0, dy: 0, data: 0, flags: 4 },
        ]
    );
    assert_eq!(
        sim().scroll(120),
        vec![SimEvent::Mouse { dx: 0, dy: 0, data: 120 << 16, flags: MOUSEEVENTF_WHEEL }]
    );
    assert_eq!(
        sim().scroll(-120),
        vec![SimEvent::Mouse { dx: 0, dy: 0, data: 0xFF88_0000, flags: MOUSEEVENTF_WHEEL }]
    );
}

#[test]
fn simulation_platforms() {
    assert_eq!(
        InputSimulator::new(TargetOs::Linux).unwrap_err().to_string(),
        "Unsupported platform: system-wide input simulation is only supported on Windows and macOS"
    );
    assert_eq!(
        InputSimulator::new(TargetOs::MacOs).unwrap_err().to_string(),
        "Unsupported platform: macOS input simulation requires a CGEvent-based implementation (pending real macOS build)"
    );
    assert!(MacSim::new().is_err());
}
