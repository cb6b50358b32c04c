//! Windows key codes: the mapping between [`Key`]s and virtual-key codes, and
//! between [`Modifiers`] and the `MOD_*` bitmask of `RegisterHotKey`.
use vstd::prelude::*;

use crate::hotkeys::{valid_key, Key, Modifiers};
use crate::text::{ascii_lower, ascii_upper, is_ascii_lower, upper_char};

verus! {

pub const VK_SPACE: u32 = 0x20;
pub const VK_RETURN: u32 = 0x0D;
pub const VK_ESCAPE: u32 = 0x1B;
pub const VK_TAB: u32 = 0x09;
pub const VK_BACK: u32 = 0x08;
pub const VK_DELETE: u32 = 0x2E;
pub const VK_UP: u32 = 0x26;
pub const VK_DOWN: u32 = 0x28;
pub const VK_LEFT: u32 = 0x25;
pub const VK_RIGHT: u32 = 0x27;
pub const VK_HOME: u32 = 0x24;
pub const VK_END: u32 = 0x23;
/// PageUp.
pub const VK_PRIOR: u32 = 0x21;
/// PageDown.
pub const VK_NEXT: u32 = 0x22;
pub const VK_INSERT: u32 = 0x2D;
/// PrintScreen.
pub const VK_SNAPSHOT: u32 = 0x2C;

pub const MOD_ALT: u32 = 0x0001;
pub const MOD_CONTROL: u32 = 0x0002;
pub const MOD_SHIFT: u32 = 0x0004;
pub const MOD_WIN: u32 = 0x0008;

/// A key has a virtual-key code unless it is the function key F0.
pub open spec fn has_vk(key: Key) -> bool {
    match key {
        Key::F(n) => n >= 1,
        _ => true,
    }
}

/// The virtual-key code of a key: `VK_A..VK_Z` for letters (upper-cased),
/// `VK_0..VK_9` for digits, `VK_F1..VK_F24` for function keys.
pub open spec fn key_to_vk_spec(key: Key) -> u32 {
    match key {
        Key::Letter(c) => ascii_upper(c) as u32,
        Key::Digit(d) => (0x30 + d) as u32,
        Key::F(n) => (0x70 + (n - 1)) as u32,
        Key::Space => VK_SPACE,
        Key::Enter => VK_RETURN,
        Key::Escape => VK_ESCAPE,
        Key::Tab => VK_TAB,
        Key::Backspace => VK_BACK,
        Key::Delete => VK_DELETE,
        Key::ArrowUp => VK_UP,
        Key::ArrowDown => VK_DOWN,
        Key::ArrowLeft => VK_LEFT,
        Key::ArrowRight => VK_RIGHT,
        Key::Home => VK_HOME,
        Key::End => VK_END,
        Key::PageUp => VK_PRIOR,
        Key::PageDown => VK_NEXT,
        Key::Insert => VK_INSERT,
        Key::PrintScreen => VK_SNAPSHOT,
    }
}

/// Map a platform-independent [`Key`] to a Windows virtual-key code.
pub fn key_to_vk(key: Key) -> (r: u32)
    requires
        has_vk(key),
    ensures
        r == key_to_vk_spec(key),
{
    match key {
        Key::Letter(c) => upper_char(c) as u32,
        Key::Digit(d) => 0x30 + d as u32,
        Key::F(n) => 0x70 + (n as u32 - 1),
        Key::Space => VK_SPACE,
        Key::Enter => VK_RETURN,
        Key::Escape => VK_ESCAPE,
        Key::Tab => VK_TAB,
        Key::Backspace => VK_BACK,
        Key::Delete => VK_DELETE,
        Key::ArrowUp => VK_UP,
        Key::ArrowDown => VK_DOWN,
        Key::ArrowLeft => VK_LEFT,
        Key::ArrowRight => VK_RIGHT,
        Key::Home => VK_HOME,
        Key::End => VK_END,
        Key::PageUp => VK_PRIOR,
        Key::PageDown => VK_NEXT,
        Key::Insert => VK_INSERT,
        Key::PrintScreen => VK_SNAPSHOT,
    }
}

/// The `MOD_*` bitmask of a modifier set.
pub open spec fn mods_to_raw_spec(m: Modifiers) -> u32 {
    (if m.ctrl { MOD_CONTROL } else { 0u32 }) | (if m.alt { MOD_ALT } else { 0u32 }) | (if m.shift {
        MOD_SHIFT
    } else {
        0u32
    }) | (if m.meta { MOD_WIN } else { 0u32 })
}

pub fn mods_to_raw(m: Modifiers) -> (r: u32)
    ensures
        r == mods_to_raw_spec(m),
{
    let c: u32 = if m.ctrl { MOD_CONTROL } else { 0 };
    let a: u32 = if m.alt { MOD_ALT } else { 0 };
    let s: u32 = if m.shift { MOD_SHIFT } else { 0 };
    let w: u32 = if m.meta { MOD_WIN } else { 0 };
    c | a | s | w
}

/// The key of a virtual-key code, if it is one of the mapped codes.
pub open spec fn vk_to_key_spec(vk: u32) -> Option<Key> {
    if 0x41 <= vk <= 0x5A {
        Some(Key::Letter(((vk - 0x41) + 97) as char))
    } else if 0x30 <= vk <= 0x39 {
        Some(Key::Digit((vk - 0x30) as u8))
    } else if 0x70 <= vk <= 0x87 {
        Some(Key::F((vk - 0x70 + 1) as u8))
    } else if vk == VK_SPACE {
        Some(Key::Space)
    } else if vk == VK_RETURN {
        Some(Key::Enter)
    } else if vk == VK_ESCAPE {
        Some(Key::Escape)
    } else if vk == VK_TAB {
        Some(Key::Tab)
    } else if vk == VK_BACK {
        Some(Key::Backspace)
    } else if vk == VK_DELETE {
        Some(Key::Delete)
    } else if vk == VK_UP {
        Some(Key::ArrowUp)
    } else if vk == VK_DOWN {
        Some(Key::ArrowDown)
    } else if vk == VK_LEFT {
        Some(Key::ArrowLeft)
    } else if vk == VK_RIGHT {
        Some(Key::ArrowRight)
    } else if vk == VK_HOME {
        Some(Key::Home)
    } else if vk == VK_END {
        Some(Key::End)
    } else if vk == VK_PRIOR {
        Some(Key::PageUp)
    } else if vk == VK_NEXT {
        Some(Key::PageDown)
    } else if vk == VK_INSERT {
        Some(Key::Insert)
    } else if vk == VK_SNAPSHOT {
        Some(Key::PrintScreen)
    } else {
        None
    }
}

/// Map a Windows virtual-key code back to a [`Key`]: letters come back
/// lower-case.
pub fn vk_to_key(vk: u32) -> (r: Option<Key>)
    ensures
        r == vk_to_key_spec(vk),
{
    if 0x41 <= vk && vk <= 0x5A {
        let b: u8 = (vk - 0x41) as u8 + 97;
        Some(Key::Letter(b as char))
    } else if 0x30 <= vk && vk <= 0x39 {
        Some(Key::Digit((vk - 0x30) as u8))
    } else if 0x70 <= vk && vk <= 0x87 {
        Some(Key::F((vk - 0x70 + 1) as u8))
    } else if vk == VK_SPACE {
        Some(Key::Space)
    } else if vk == VK_RETURN {
        Some(Key::Enter)
    } else if vk == VK_ESCAPE {
        Some(Key::Escape)
    } else if vk == VK_TAB {
        Some(Key::Tab)
    } else if vk == VK_BACK {
        Some(Key::Backspace)
    } else if vk == VK_DELETE {
        Some(Key::Delete)
    } else if vk == VK_UP {
        Some(Key::ArrowUp)
    } else if vk == VK_DOWN {
        Some(Key::ArrowDown)
    } else if vk == VK_LEFT {
        Some(Key::ArrowLeft)
    } else if vk == VK_RIGHT {
        Some(Key::ArrowRight)
    } else if vk == VK_HOME {
        Some(Key::Home)
    } else if vk == VK_END {
        Some(Key::End)
    } else if vk == VK_PRIOR {
        Some(Key::PageUp)
    } else if vk == VK_NEXT {
        Some(Key::PageDown)
    } else if vk == VK_INSERT {
        Some(Key::Insert)
    } else if vk == VK_SNAPSHOT {
        Some(Key::PrintScreen)
    } else {
        None
    }
}

/// Law: a valid key survives the trip through its virtual-key code.
pub proof fn lemma_vk_roundtrip(k: Key)
    requires
        valid_key(k),
    ensures
        has_vk(k),
        vk_to_key_spec(key_to_vk_spec(k)) == Some(k),
{
    match k {
        Key::Letter(c) => {
            assert(is_ascii_lower(c));
            assert((ascii_upper(c) as u32) == (c as u32) - 32);
            assert((((c as u32) - 32 - 0x41) + 97) as char == c);
        },
        _ => {},
    }
}

/// Law: every mapped virtual-key code is the code of the key it maps to, and
/// that key is valid.
pub proof fn lemma_vk_to_key_inverse(vk: u32)
    ensures
        vk_to_key_spec(vk) matches Some(k) ==> valid_key(k) && has_vk(k) && key_to_vk_spec(k)
            == vk,
{
    if 0x41 <= vk <= 0x5A {
        let c = ((vk - 0x41) + 97) as char;
        assert(c as u32 == vk - 0x41 + 97);
        assert(ascii_upper(c) as u32 == vk);
    }
}

/// Law: a modifier set survives the trip through its `MOD_*` bitmask.
pub proof fn lemma_mods_roundtrip(m: Modifiers)
    ensures
        (mods_to_raw_spec(m) & 0x0002 != 0) == m.ctrl,
        (mods_to_raw_spec(m) & 0x0001 != 0) == m.alt,
        (mods_to_raw_spec(m) & 0x0004 != 0) == m.shift,
        (mods_to_raw_spec(m) & 0x0008 != 0) == m.meta,
{
    let c: u32 = if m.ctrl { MOD_CONTROL } else { 0 };
    let a: u32 = if m.alt { MOD_ALT } else { 0 };
    let s: u32 = if m.shift { MOD_SHIFT } else { 0 };
    let w: u32 = if m.meta { MOD_WIN } else { 0 };
    assert(mods_to_raw_spec(m) == c | a | s | w);
    lemma_mod_bits(c, a, s, w);
}

proof fn lemma_mod_bits(c: u32, a: u32, s: u32, w: u32)
    requires
        c == 0 || c == 2,
        a == 0 || a == 1,
        s == 0 || s == 4,
        w == 0 || w == 8,
    ensures
        ((c | a | s | w) & 0x0002 != 0) == (c == 2),
        ((c | a | s | w) & 0x0001 != 0) == (a == 1),
        ((c | a | s | w) & 0x0004 != 0) == (s == 4),
        ((c | a | s | w) & 0x0008 != 0) == (w == 8),
{
    assert(((c | a | s | w) & 0x0002 != 0) == (c == 2)) by (bit_vector)
        requires
            c == 0 || c == 2,
            a == 0 || a == 1,
            s == 0 || s == 4,
            w == 0 || w == 8,
    ;
    assert(((c | a | s | w) & 0x0001 != 0) == (a == 1)) by (bit_vector)
        requires
            c == 0 || c == 2,
            a == 0 || a == 1,
            s == 0 || s == 4,
            w == 0 || w == 8,
    ;
    assert(((c | a | s | w) & 0x0004 != 0) == (s == 4)) by (bit_vector)
        requires
            c == 0 || c == 2,
            a == 0 || a == 1,
            s == 0 || s == 4,
            w == 0 || w == 8,
    ;
    assert(((c | a | s | w) & 0x0008 != 0) == (w == 8)) by (bit_vector)
        requires
            c == 0 || c == 2,
            a == 0 || a == 1,
            s == 0 || s == 4,
            w == 0 || w == 8,
    ;
}

/// Law: each key's virtual-key code is the Windows code of that key:
/// letters `VK_A`..`VK_Z` (0x41..0x5A) whatever their case, digits
/// 0x30..0x39, F1..F24 0x70..0x87, and the named keys their own codes
/// (Space 0x20, Enter 0x0D, Escape 0x1B, Tab 0x09, Backspace 0x08, Delete
/// 0x2E, Up 0x26, Down 0x28, Left 0x25, Right 0x27, Home 0x24, End 0x23,
/// PageUp 0x21, PageDown 0x22, Insert 0x2D, PrintScreen 0x2C). Each code
/// maps back to its key, and the modifier bits are those of
/// `RegisterHotKey`: Alt 1, Ctrl 2, Shift 4, Win 8.
pub proof fn lemma_windows_key_codes()
    ensures
        forall|c: char| 'a' <= c <= 'z' ==> #[trigger] key_to_vk_spec(Key::Letter(c)) == (c as u32) - 0x20,
        forall|c: char| 'A' <= c <= 'Z' ==> #[trigger] key_to_vk_spec(Key::Letter(c)) == c as u32,
        forall|d: u8| d <= 9 ==> #[trigger] key_to_vk_spec(Key::Digit(d)) == 0x30 + d,
        forall|n: u8| 1 <= n <= 24 ==> #[trigger] key_to_vk_spec(Key::F(n)) == 0x6F + n,
        key_to_vk_spec(Key::Space) == 0x20,
        key_to_vk_spec(Key::Enter) == 0x0D,
        key_to_vk_spec(Key::Escape) == 0x1B,
        key_to_vk_spec(Key::Tab) == 0x09,
        key_to_vk_spec(Key::Backspace) == 0x08,
        key_to_vk_spec(Key::Delete) == 0x2E,
        key_to_vk_spec(Key::ArrowUp) == 0x26,
        key_to_vk_spec(Key::ArrowDown) == 0x28,
        key_to_vk_spec(Key::ArrowLeft) == 0x25,
        key_to_vk_spec(Key::ArrowRight) == 0x27,
        key_to_vk_spec(Key::Home) == 0x24,
        key_to_vk_spec(Key::End) == 0x23,
        key_to_vk_spec(Key::PageUp) == 0x21,
        key_to_vk_spec(Key::PageDown) == 0x22,
        key_to_vk_spec(Key::Insert) == 0x2D,
        key_to_vk_spec(Key::PrintScreen) == 0x2C,
        forall|v: u32| 0x41 <= v <= 0x5A ==> #[trigger] vk_to_key_spec(v) == Some(Key::Letter(((v - 0x41) + 0x61) as char)),
        forall|v: u32| 0x30 <= v <= 0x39 ==> #[trigger] vk_to_key_spec(v) == Some(Key::Digit((v - 0x30) as u8)),
        forall|v: u32| 0x70 <= v <= 0x87 ==> #[trigger] vk_to_key_spec(v) == Some(Key::F((v - 0x6F) as u8)),
        vk_to_key_spec(0x20) == Some(Key::Space),
        vk_to_key_spec(0x0D) == Some(Key::Enter),
        vk_to_key_spec(0x1B) == Some(Key::Escape),
        vk_to_key_spec(0x09) == Some(Key::Tab),
        vk_to_key_spec(0x08) == Some(Key::Backspace),
        vk_to_key_spec(0x2E) == Some(Key::Delete),
        vk_to_key_spec(0x26) == Some(Key::ArrowUp),
        vk_to_key_spec(0x28) == Some(Key::ArrowDown),
        vk_to_key_spec(0x25) == Some(Key::ArrowLeft),
        vk_to_key_spec(0x27) == Some(Key::ArrowRight),
        vk_to_key_spec(0x24) == Some(Key::Home),
        vk_to_key_spec(0x23) == Some(Key::End),
        vk_to_key_spec(0x21) == Some(Key::PageUp),
        vk_to_key_spec(0x22) == Some(Key::PageDown),
        vk_to_key_spec(0x2D) == Some(Key::Insert),
        vk_to_key_spec(0x2C) == Some(Key::PrintScreen),
        mods_to_raw_spec(Modifiers { ctrl: false, alt: true, shift: false, meta: false }) == 1,
        mods_to_raw_spec(Modifiers { ctrl: true, alt: false, shift: false, meta: false }) == 2,
        mods_to_raw_spec(Modifiers { ctrl: false, alt: false, shift: true, meta: false }) == 4,
        mods_to_raw_spec(Modifiers { ctrl: false, alt: false, shift: false, meta: true }) == 8,
        mods_to_raw_spec(Modifiers { ctrl: false, alt: false, shift: false, meta: false }) == 0,
{
    assert((0u32 | 1u32) | 0u32 | 0u32 == 1u32) by (bit_vector);
    assert((2u32 | 0u32) | 0u32 | 0u32 == 2u32) by (bit_vector);
    assert((0u32 | 0u32) | 4u32 | 0u32 == 4u32) by (bit_vector);
    assert((0u32 | 0u32) | 0u32 | 8u32 == 8u32) by (bit_vector);
    assert((0u32 | 0u32) | 0u32 | 0u32 == 0u32) by (bit_vector);
}

} // verus!
