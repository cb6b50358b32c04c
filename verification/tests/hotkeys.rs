use rdesktop::hotkeys::{
    Hotkey, HotkeyCall, HotkeyCommand, HotkeyHandler, HotkeyManager, HotkeyRegistry, HotkeyStep, Key,
    MacHotkey, Modifiers,
};
use rdesktop::hotkeys_win::{key_to_vk, mods_to_raw, vk_to_key};
use rdesktop::platform::TargetOs;
use std::sync::Arc;

struct Quiet;

impl HotkeyHandler for Quiet {
    fn on_hotkey(&self, _id: u32, _hotkey: &Hotkey) {}
}

#[test]
fn parses_combos_case_insensitively() {
    let hk = Hotkey::parse(" ctrl + SHIFT + k ").unwrap();
    assert!(hk.modifiers.ctrl && hk.modifiers.shift && !hk.modifiers.alt && !hk.modifiers.meta);
    assert_eq!(hk.key, Key::Letter('k'));
    assert_eq!(hk.to_string(), "Ctrl+Shift+K");
    let f4: Hotkey = "Alt+F4".parse().unwrap();
    assert_eq!(f4.key, Key::F(4));
    assert_eq!(Hotkey::parse("Meta+Space").unwrap().to_string(), "Meta+Space");
}

#[test]
fn hotkey_parse_errors() {
    assert_eq!(Hotkey::parse("Ctrl+Shift").unwrap_err(), "hotkey requires a non-modifier key");
    assert_eq!(Hotkey::parse("Ctrl+Banana").unwrap_err(), "unknown key: Banana");
}

#[test]
fn hotkey_text_round_trips() {
    let hk = Hotkey {
        modifiers: Modifiers { ctrl: true, alt: true, shift: false, meta: true },
        key: Key::PageDown,
    };
    assert_eq!(Hotkey::parse(&hk.to_string()).unwrap(), hk);
}

#[test]
fn windows_key_codes() {
    assert_eq!(key_to_vk(Key::Letter('a')), 0x41);
    assert_eq!(key_to_vk(Key::F(12)), 0x7B);
    assert_eq!(key_to_vk(Key::Digit(7)), 0x37);
    assert_eq!(vk_to_key(0x41), Some(Key::Letter('a')));
    assert_eq!(vk_to_key(0x7B), Some(Key::F(12)));
    assert_eq!(vk_to_key(0xFF), None);
    assert_eq!(mods_to_raw(Modifiers { ctrl: true, alt: false, shift: true, meta: false }), 0x6);
    assert_eq!(Modifiers::from_raw_win(0xB), Modifiers { ctrl: true, alt: true, shift: false, meta: true });
    assert_eq!(
        Modifiers::from_raw_mac(0x100000 | 0x20000),
        Modifiers { ctrl: false, alt: false, shift: true, meta: true }
    );
    assert!(Modifiers::default().is_empty());
}

#[test]
fn manager_starts_the_thread_once() {
    let mut m = HotkeyManager::new(Arc::new(Quiet));
    let hk = Hotkey::parse("Ctrl+K").unwrap();
    assert_eq!(m.unregister(1), None);
    assert_eq!(
        m.register(1, &hk, TargetOs::Windows).unwrap(),
        HotkeyStep::StartThenRegister { id: 1, hotkey: hk }
    );
    assert_eq!(m.register(2, &hk, TargetOs::Windows).unwrap(), HotkeyStep::Register { id: 2, hotkey: hk });
    assert_eq!(m.unregister(1), Some(1));
    assert!(m.stop());
    assert!(!m.stop());
}

#[test]
fn manager_refuses_unsupported_platforms() {
    let mut m = HotkeyManager::new(Arc::new(Quiet));
    let hk = Hotkey::parse("Ctrl+K").unwrap();
    assert_eq!(
        m.register(1, &hk, TargetOs::Linux).unwrap_err().to_string(),
        "Unsupported platform: global hotkeys are only supported on Windows and macOS"
    );
    assert_eq!(
        m.register(1, &hk, TargetOs::MacOs).unwrap_err().to_string(),
        "Unsupported platform: global hotkeys on macOS require a CGEventTap implementation (pending macOS build)"
    );
    assert!(MacHotkey::start(Arc::new(Quiet)).is_err());
}

#[test]
fn registry_tracks_registrations() {
    let mut r = HotkeyRegistry::new();
    let hk = Hotkey::parse("Ctrl+Shift+K").unwrap();
    assert_eq!(
        r.apply(HotkeyCommand::Register(5, hk)),
        HotkeyCall::Register { id: 5, modifiers: 0x6, vk: 0x4B }
    );
    assert_eq!(r.lookup(5), Some(hk));
    assert_eq!(r.lookup(6), None);
    assert_eq!(r.apply(HotkeyCommand::Unregister(5)), HotkeyCall::Unregister { id: 5 });
    assert_eq!(r.lookup(5), None);
    assert_eq!(r.apply(HotkeyCommand::Stop), HotkeyCall::Quit);
}

#[test]
fn manager_keeps_its_handler() {
    let handler = Arc::new(Quiet);
    let mut m = HotkeyManager::new(handler.clone());
    assert!(Arc::ptr_eq(m.handler(), &handler));
    let _ = m.register(1, &Hotkey::parse("Ctrl+K").unwrap(), TargetOs::Windows);
    m.stop();
    assert!(Arc::ptr_eq(m.handler(), &handler));
}

#[test]
fn from_str_parses_like_parse() {
    let hk: Hotkey = "Ctrl+Shift+K".parse().unwrap();
    assert_eq!(hk, Hotkey::parse("Ctrl+Shift+K").unwrap());
    assert_eq!("Ctrl+Nope".parse::<Hotkey>().unwrap_err(), "unknown key: Nope");
}

#[test]
fn function_key_tokens_take_either_case() {
    assert_eq!(Key::from_token("F5"), Some(Key::F(5)));
    assert_eq!(Key::from_token("f24"), Some(Key::F(24)));
    assert_eq!(Key::from_token("F25"), None);
    assert_eq!(Key::from_token("F0"), None);
    assert_eq!(Key::F(5).to_string(), "F5");
    assert_eq!(Key::from_token(&Key::F(12).to_string()), Some(Key::F(12)));
}

#[test]
fn print_screen_is_a_key() {
    let hk = Hotkey::parse("Alt+PrintScreen").unwrap();
    assert_eq!(hk.key, Key::PrintScreen);
    assert_eq!(hk.modifiers, Modifiers { alt: true, ..Modifiers::default() });
    assert_eq!(hk.to_string(), "Alt+PrintScreen");
    assert_eq!(Key::from_token("printscreen"), Some(Key::PrintScreen));
    assert_eq!(key_to_vk(Key::PrintScreen), 0x2C);
    assert_eq!(vk_to_key(0x2C), Some(Key::PrintScreen));
}

#[test]
fn blanks_around_a_token_are_ignored() {
    for tok in ["K", "F5", "Space", "printscreen", "Nope", "7"] {
        assert_eq!(Key::from_token(&format!("  {tok}\t")), Key::from_token(tok));
    }
}
