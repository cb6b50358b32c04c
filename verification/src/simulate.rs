//! System-wide input simulation: the batches of synthetic keyboard and
//! mouse events that reproduce key presses, chords, typed text, pointer
//! moves, clicks and wheel turns. Sending a batch is platform code run by
//! the caller.

use crate::error::RdesktopError;
use crate::hotkeys::Key;
use crate::hotkeys_win::{has_vk, key_to_vk, key_to_vk_spec};
use crate::input::MouseButton;
use crate::platform::TargetOs;
use vstd::prelude::*;
use vstd::string::*;

verus! {

pub const KEYEVENTF_KEYUP: u32 = 2;
pub const KEYEVENTF_UNICODE: u32 = 4;
pub const MOUSEEVENTF_MOVE: u32 = 1;
pub const MOUSEEVENTF_LEFTDOWN: u32 = 2;
pub const MOUSEEVENTF_LEFTUP: u32 = 4;
pub const MOUSEEVENTF_RIGHTDOWN: u32 = 8;
pub const MOUSEEVENTF_RIGHTUP: u32 = 16;
pub const MOUSEEVENTF_MIDDLEDOWN: u32 = 32;
pub const MOUSEEVENTF_MIDDLEUP: u32 = 64;
pub const MOUSEEVENTF_XDOWN: u32 = 128;
pub const MOUSEEVENTF_XUP: u32 = 256;
pub const MOUSEEVENTF_WHEEL: u32 = 2048;
pub const MOUSEEVENTF_ABSOLUTE: u32 = 32768;
pub const XBUTTON1: u32 = 1;
pub const XBUTTON2: u32 = 2;

/// One synthetic input event.
#[derive(Debug, Clone, Copy, PartialEq, Eq, Structural)]
pub enum SimEvent {
    /// A key by virtual-key code; its scan code is looked up when sent.
    Key { vk: u32, flags: u32 },
    /// One UTF-16 unit entered as Unicode input.
    Unicode { unit: u16, flags: u32 },
    /// A mouse event.
    Mouse { dx: i32, dy: i32, data: u32, flags: u32 },
}

pub open spec fn key_down(key: Key) -> SimEvent {
    SimEvent::Key { vk: key_to_vk_spec(key), flags: 0 }
}

pub open spec fn key_up(key: Key) -> SimEvent {
    SimEvent::Key { vk: key_to_vk_spec(key), flags: KEYEVENTF_KEYUP }
}

/// Every key of the sequence has a virtual-key code.
pub open spec fn all_have_vk(keys: Seq<Key>) -> bool {
    forall|i: int| 0 <= i < keys.len() ==> has_vk(#[trigger] keys[i])
}

/// The flags and mouse data of a button press or release.
pub open spec fn button_flags_spec(button: MouseButton, down: bool) -> (u32, u32) {
    match button {
        MouseButton::Left => (if down { MOUSEEVENTF_LEFTDOWN } else { MOUSEEVENTF_LEFTUP }, 0),
        MouseButton::Right => (if down { MOUSEEVENTF_RIGHTDOWN } else { MOUSEEVENTF_RIGHTUP }, 0),
        MouseButton::Middle => (if down { MOUSEEVENTF_MIDDLEDOWN } else { MOUSEEVENTF_MIDDLEUP }, 0),
        MouseButton::X1 => (if down { MOUSEEVENTF_XDOWN } else { MOUSEEVENTF_XUP }, XBUTTON1),
        MouseButton::X2 => (if down { MOUSEEVENTF_XDOWN } else { MOUSEEVENTF_XUP }, XBUTTON2),
    }
}

pub fn button_flags(button: MouseButton, down: bool) -> (r: (u32, u32))
    ensures
        r == button_flags_spec(button, down),
{
    match button {
        MouseButton::Left => (if down { MOUSEEVENTF_LEFTDOWN } else { MOUSEEVENTF_LEFTUP }, 0),
        MouseButton::Right => (if down { MOUSEEVENTF_RIGHTDOWN } else { MOUSEEVENTF_RIGHTUP }, 0),
        MouseButton::Middle => (if down { MOUSEEVENTF_MIDDLEDOWN } else { MOUSEEVENTF_MIDDLEUP }, 0),
        MouseButton::X1 => (if down { MOUSEEVENTF_XDOWN } else { MOUSEEVENTF_XUP }, XBUTTON1),
        MouseButton::X2 => (if down { MOUSEEVENTF_XDOWN } else { MOUSEEVENTF_XUP }, XBUTTON2),
    }
}

/// Integer division rounding toward zero, as Rust's `/` does.
pub open spec fn div_toward_zero(p: int, d: int) -> int {
    if p >= 0 {
        p / d
    } else {
        -((-p) / d)
    }
}

/// An absolute coordinate scaled onto the 0..=65535 range of a virtual
/// screen `extent` pixels wide, kept as is when the screen is at most one
/// pixel wide.
pub open spec fn scale_coordinate(v: i32, extent: i32) -> i32 {
    if extent > 1 {
        div_toward_zero(v * 65535, extent - 1) as i32
    } else {
        v
    }
}

fn scale(v: i32, extent: i32) -> (r: i32)
    ensures
        r == scale_coordinate(v, extent),
{
    if extent > 1 {
        let p: i64 = v as i64 * 65535;
        let d: i64 = extent as i64 - 1;
        let q: i64 = if p >= 0 {
            p / d
        } else {
            -((-p) / d)
        };
        proof {
            assert(q == div_toward_zero(v * 65535, extent - 1));
        }
        q as i32
    } else {
        v
    }
}

/// The mouse data of a wheel turn: the delta, cut to 16 bits, in the
/// high word.
pub open spec fn wheel_data(delta: i32) -> u32 {
    ((delta as i16) as u32) << 16u32
}

/// The UTF-16 code units of a character: the character itself below
/// U+10000, otherwise its surrogate pair.
pub open spec fn utf16_units(c: char) -> Seq<u16> {
    let v = c as u32;
    if v <= 0xFFFF {
        seq![v as u16]
    } else {
        seq![(0xD800 + (v - 0x10000) / 1024) as u16, (0xDC00 + (v - 0x10000) % 1024) as u16]
    }
}

/// The UTF-16 encoding of a text.
pub open spec fn utf16_seq(s: Seq<char>) -> Seq<u16>
    decreases s.len(),
{
    if s.len() == 0 {
        Seq::empty()
    } else {
        utf16_seq(s.drop_last()) + utf16_units(s.last())
    }
}

/// Each code unit pressed, then released, as Unicode input.
pub open spec fn typing_events(units: Seq<u16>) -> Seq<SimEvent>
    decreases units.len(),
{
    if units.len() == 0 {
        Seq::empty()
    } else {
        typing_events(units.drop_last()) + seq![
            SimEvent::Unicode { unit: units.last(), flags: KEYEVENTF_UNICODE },
            SimEvent::Unicode { unit: units.last(), flags: KEYEVENTF_UNICODE | KEYEVENTF_KEYUP },
        ]
    }
}

/// Synthetic input on Windows, through `SendInput` batches.
#[derive(Debug, Clone, Copy)]
pub struct WinSim;

impl WinSim {
    pub fn new() -> (r: Result<WinSim, RdesktopError>)
        ensures
            r is Ok,
    {
        Ok(WinSim)
    }

    /// Hold a key down.
    pub fn press_key(&self, key: Key) -> (r: Vec<SimEvent>)
        requires
            has_vk(key),
        ensures
            r@ == seq![key_down(key)],
    {
        let mut v: Vec<SimEvent> = Vec::new();
        v.push(SimEvent::Key { vk: key_to_vk(key), flags: 0 });
        proof {
            assert(v@ =~= seq![key_down(key)]);
        }
        v
    }

    /// Release a held key.
    pub fn release_key(&self, key: Key) -> (r: Vec<SimEvent>)
        requires
            has_vk(key),
        ensures
            r@ == seq![key_up(key)],
    {
        let mut v: Vec<SimEvent> = Vec::new();
        v.push(SimEvent::Key { vk: key_to_vk(key), flags: KEYEVENTF_KEYUP });
        proof {
            assert(v@ =~= seq![key_up(key)]);
        }
        v
    }

    /// Press every key in order, then release them in reverse order.
    pub fn tap_combo(&self, keys: &[Key]) -> (r: Vec<SimEvent>)
        requires
            all_have_vk(keys@),
        ensures
            r@.len() == 2 * keys@.len(),
            forall|i: int| 0 <= i < keys@.len() ==> r@[i] == key_down(#[trigger] keys@[i]),
            forall|i: int|
                0 <= i < keys@.len() ==> r@[keys@.len() + i] == key_up(
                    #[trigger] keys@[keys@.len() - 1 - i],
                ),
    {
        let n = keys.len();
        let mut v: Vec<SimEvent> = Vec::new();
        let mut i: usize = 0;
        while i < n
            invariant
                n == keys@.len(),
                all_have_vk(keys@),
                i <= n,
                v@.len() == i,
                forall|k: int| 0 <= k < i ==> v@[k] == key_down(#[trigger] keys@[k]),
            decreases n - i,
        {
            proof {
                assert(has_vk(keys@[i as int]));
            }
            v.push(SimEvent::Key { vk: key_to_vk(keys[i]), flags: 0 });
            i = i + 1;
        }
        let mut j: usize = 0;
        while j < n
            invariant
                n == keys@.len(),
                all_have_vk(keys@),
                j <= n,
                v@.len() == n + j,
                forall|k: int| 0 <= k < n ==> v@[k] == key_down(#[trigger] keys@[k]),
                forall|k: int| 0 <= k < j ==> v@[n + k] == key_up(#[trigger] keys@[n - 1 - k]),
            decreases n - j,
        {
            proof {
                assert(has_vk(keys@[n - 1 - j]));
            }
            v.push(SimEvent::Key { vk: key_to_vk(keys[n - 1 - j]), flags: KEYEVENTF_KEYUP });
            j = j + 1;
        }
        v
    }

    /// Type text as Unicode input: each UTF-16 code unit of the text, in
    /// order, is pressed and released, so any character can be typed.
    pub fn type_text(&self, text: &str) -> (r: Vec<SimEvent>)
        ensures
            r@ == typing_events(utf16_seq(text@)),
    {
        let chars = crate::text::chars_of(text);
        let mut v: Vec<SimEvent> = Vec::new();
        let mut i: usize = 0;
        proof {
            assert(chars@.take(0) =~= Seq::<char>::empty());
        }
        while i < chars.len()
            invariant
                chars@ == text@,
                i <= chars@.len(),
                v@ == typing_events(utf16_seq(chars@.take(i as int))),
            decreases chars@.len() - i,
        {
            let c = chars[i];
            let ghost before = utf16_seq(chars@.take(i as int));
            proof {
                assert(chars@.take(i + 1).drop_last() =~= chars@.take(i as int));
                assert(chars@.take(i + 1).last() == c);
            }
            let cv: u32 = c as u32;
            if cv <= 0xFFFF {
                let u: u16 = cv as u16;
                v.push(SimEvent::Unicode { unit: u, flags: KEYEVENTF_UNICODE });
                v.push(SimEvent::Unicode { unit: u, flags: KEYEVENTF_UNICODE | KEYEVENTF_KEYUP });
                proof {
                    let after = before + seq![u];
                    assert(utf16_units(c) =~= seq![u]);
                    assert(utf16_seq(chars@.take(i + 1)) == after);
                    assert(after.drop_last() =~= before);
                    assert(after.last() == u);
                    assert(typing_events(after) == typing_events(before) + seq![
                        SimEvent::Unicode { unit: u, flags: KEYEVENTF_UNICODE },
                        SimEvent::Unicode { unit: u, flags: KEYEVENTF_UNICODE | KEYEVENTF_KEYUP },
                    ]);
                    assert(v@ =~= typing_events(after));
                }
            } else {
                let w: u32 = cv - 0x10000;
                let hi: u16 = (0xD800 + w / 1024) as u16;
                let lo: u16 = (0xDC00 + w % 1024) as u16;
                v.push(SimEvent::Unicode { unit: hi, flags: KEYEVENTF_UNICODE });
                v.push(SimEvent::Unicode { unit: hi, flags: KEYEVENTF_UNICODE | KEYEVENTF_KEYUP });
                v.push(SimEvent::Unicode { unit: lo, flags: KEYEVENTF_UNICODE });
                v.push(SimEvent::Unicode { unit: lo, flags: KEYEVENTF_UNICODE | KEYEVENTF_KEYUP });
                proof {
                    let after = before + seq![hi, lo];
                    assert(utf16_units(c) =~= seq![hi, lo]);
                    assert(utf16_seq(chars@.take(i + 1)) == after);
                    let mid = before + seq![hi];
                    assert(after.drop_last() =~= mid);
                    assert(after.last() == lo);
                    assert(mid.drop_last() =~= before);
                    assert(mid.last() == hi);
                    assert(typing_events(mid) == typing_events(before) + seq![
                        SimEvent::Unicode { unit: hi, flags: KEYEVENTF_UNICODE },
                        SimEvent::Unicode { unit: hi, flags: KEYEVENTF_UNICODE | KEYEVENTF_KEYUP },
                    ]);
                    assert(typing_events(after) == typing_events(mid) + seq![
                        SimEvent::Unicode { unit: lo, flags: KEYEVENTF_UNICODE },
                        SimEvent::Unicode { unit: lo, flags: KEYEVENTF_UNICODE | KEYEVENTF_KEYUP },
                    ]);
                    assert(v@ =~= typing_events(after));
                }
            }
            i = i + 1;
        }
        proof {
            assert(chars@.take(chars@.len() as int) =~= chars@);
        }
        v
    }

    /// Move the pointer: by `(x, y)`, or to screen position `(x, y)` when
    /// `absolute`, scaled onto a virtual screen `screen_width` by
    /// `screen_height` pixels.
    pub fn move_mouse(&self, x: i32, y: i32, absolute: bool, screen_width: i32, screen_height: i32) -> (r: Vec<SimEvent>)
        ensures
            absolute ==> r@ == seq![
                SimEvent::Mouse {
                    dx: scale_coordinate(x, screen_width),
                    dy: scale_coordinate(y, screen_height),
                    data: 0,
                    flags: MOUSEEVENTF_MOVE | MOUSEEVENTF_ABSOLUTE,
                },
            ],
            !absolute ==> r@ == seq![SimEvent::Mouse { dx: x, dy: y, data: 0, flags: MOUSEEVENTF_MOVE }],
    {
        let mut v: Vec<SimEvent> = Vec::new();
        if absolute {
            let nx = scale(x, screen_width);
            let ny = scale(y, screen_height);
            v.push(SimEvent::Mouse { dx: nx, dy: ny, data: 0, flags: MOUSEEVENTF_MOVE | MOUSEEVENTF_ABSOLUTE });
        } else {
            v.push(SimEvent::Mouse { dx: x, dy: y, data: 0, flags: MOUSEEVENTF_MOVE });
        }
        proof {
            assert(v@.len() == 1);
            assert(absolute ==> v@ =~= seq![
                SimEvent::Mouse {
                    dx: scale_coordinate(x, screen_width),
                    dy: scale_coordinate(y, screen_height),
                    data: 0,
                    flags: MOUSEEVENTF_MOVE | MOUSEEVENTF_ABSOLUTE,
                },
            ]);
            assert(!absolute ==> v@ =~= seq![SimEvent::Mouse { dx: x, dy: y, data: 0, flags: MOUSEEVENTF_MOVE }]);
        }
        v
    }

    /// Hold a mouse button down.
    pub fn press_mouse(&self, button: MouseButton) -> (r: Vec<SimEvent>)
        ensures
            r@ == seq![
                SimEvent::Mouse {
                    dx: 0,
                    dy: 0,
                    data: button_flags_spec(button, true).1,
                    flags: button_flags_spec(button, true).0,
                },
            ],
    {
        let (flags, data) = button_flags(button, true);
        let mut v: Vec<SimEvent> = Vec::new();
        v.push(SimEvent::Mouse { dx: 0, dy: 0, data, flags });
        proof {
            assert(v@ =~= seq![SimEvent::Mouse { dx: 0, dy: 0, data, flags }]);
        }
        v
    }

    /// Release a held mouse button.
    pub fn release_mouse(&self, button: MouseButton) -> (r: Vec<SimEvent>)
        ensures
            r@ == seq![
                SimEvent::Mouse {
                    dx: 0,
                    dy: 0,
                    data: button_flags_spec(button, false).1,
                    flags: button_flags_spec(button, false).0,
                },
            ],
    {
        let (flags, data) = button_flags(button, false);
        let mut v: Vec<SimEvent> = Vec::new();
        v.push(SimEvent::Mouse { dx: 0, dy: 0, data, flags });
        proof {
            assert(v@ =~= seq![SimEvent::Mouse { dx: 0, dy: 0, data, flags }]);
        }
        v
    }

    /// Turn the wheel by `delta` (positive is away from the user).
    pub fn scroll(&self, delta: i32) -> (r: Vec<SimEvent>)
        ensures
            r@ == seq![SimEvent::Mouse { dx: 0, dy: 0, data: wheel_data(delta), flags: MOUSEEVENTF_WHEEL }],
    {
        let data: u32 = ((delta as i16) as u32) << 16u32;
        let mut v: Vec<SimEvent> = Vec::new();
        v.push(SimEvent::Mouse { dx: 0, dy: 0, data, flags: MOUSEEVENTF_WHEEL });
        proof {
            assert(v@ =~= seq![SimEvent::Mouse { dx: 0, dy: 0, data: wheel_data(delta), flags: MOUSEEVENTF_WHEEL }]);
        }
        v
    }
}

pub open spec fn mac_sim_message() -> Seq<char> {
    "macOS input simulation requires a CGEvent-based implementation (pending real macOS build)"@
}

pub open spec fn mac_sim_pending_message() -> Seq<char> {
    "macOS input simulation is not yet implemented (CGEvent pending real macOS build)"@
}

pub open spec fn unsupported_sim_message() -> Seq<char> {
    "system-wide input simulation is only supported on Windows and macOS"@
}

/// Synthetic input on macOS, which is not available yet.
#[derive(Debug, Clone, Copy)]
pub struct MacSim;

impl MacSim {
    /// Always refused: the macOS event backend is not implemented.
    pub fn new() -> (r: Result<MacSim, RdesktopError>)
        ensures
            r matches Err(RdesktopError::UnsupportedPlatform(m)) && m@ == mac_sim_message(),
    {
        Err(
            RdesktopError::UnsupportedPlatform(
                String::from_str(
                    "macOS input simulation requires a CGEvent-based implementation (pending real macOS build)",
                ),
            ),
        )
    }

    fn unsupported() -> (r: Result<(), RdesktopError>)
        ensures
            r matches Err(RdesktopError::UnsupportedPlatform(m)) && m@ == mac_sim_pending_message(),
    {
        Err(
            RdesktopError::UnsupportedPlatform(
                String::from_str(
                    "macOS input simulation is not yet implemented (CGEvent pending real macOS build)",
                ),
            ),
        )
    }

    pub fn press_key(&self, key: Key) -> (r: Result<(), RdesktopError>)
        ensures
            r matches Err(RdesktopError::UnsupportedPlatform(m)) && m@ == mac_sim_pending_message(),
    {
        Self::unsupported()
    }

    pub fn release_key(&self, key: Key) -> (r: Result<(), RdesktopError>)
        ensures
            r matches Err(RdesktopError::UnsupportedPlatform(m)) && m@ == mac_sim_pending_message(),
    {
        Self::unsupported()
    }

    pub fn tap_combo(&self, keys: &[Key]) -> (r: Result<(), RdesktopError>)
        ensures
            r matches Err(RdesktopError::UnsupportedPlatform(m)) && m@ == mac_sim_pending_message(),
    {
        Self::unsupported()
    }

    pub fn type_text(&self, text: &str) -> (r: Result<(), RdesktopError>)
        ensures
            r matches Err(RdesktopError::UnsupportedPlatform(m)) && m@ == mac_sim_pending_message(),
    {
        Self::unsupported()
    }

    pub fn move_mouse(&self, x: i32, y: i32, absolute: bool) -> (r: Result<(), RdesktopError>)
        ensures
            r matches Err(RdesktopError::UnsupportedPlatform(m)) && m@ == mac_sim_pending_message(),
    {
        Self::unsupported()
    }

    pub fn press_mouse(&self, button: MouseButton) -> (r: Result<(), RdesktopError>)
        ensures
            r matches Err(RdesktopError::UnsupportedPlatform(m)) && m@ == mac_sim_pending_message(),
    {
        Self::unsupported()
    }

    pub fn release_mouse(&self, button: MouseButton) -> (r: Result<(), RdesktopError>)
        ensures
            r matches Err(RdesktopError::UnsupportedPlatform(m)) && m@ == mac_sim_pending_message(),
    {
        Self::unsupported()
    }

    pub fn scroll(&self, delta: i32) -> (r: Result<(), RdesktopError>)
        ensures
            r matches Err(RdesktopError::UnsupportedPlatform(m)) && m@ == mac_sim_pending_message(),
    {
        Self::unsupported()
    }
}

/// The platform-independent input simulator. Only Windows has a backend;
/// every method returns the batch of events to send.
#[derive(Debug, Clone, Copy)]
pub struct InputSimulator {
    sim: WinSim,
}

impl InputSimulator {
    /// A simulator for the platform; refused where there is no backend.
    pub fn new(os: TargetOs) -> (r: Result<InputSimulator, RdesktopError>)
        ensures
            os == TargetOs::Windows <==> r is Ok,
            os == TargetOs::MacOs ==> (r matches Err(RdesktopError::UnsupportedPlatform(m)) && m@
                == mac_sim_message()),
            os != TargetOs::Windows && os != TargetOs::MacOs ==> (r matches Err(
                RdesktopError::UnsupportedPlatform(m),
            ) && m@ == unsupported_sim_message()),
    {
        match os {
            TargetOs::Windows => match WinSim::new() {
                Ok(sim) => Ok(InputSimulator { sim }),
                Err(e) => Err(e),
            },
            TargetOs::MacOs => match MacSim::new() {
                Ok(_) => Err(RdesktopError::UnsupportedPlatform(String::new())),
                Err(e) => Err(e),
            },
            _ => Err(
                RdesktopError::UnsupportedPlatform(
                    String::from_str("system-wide input simulation is only supported on Windows and macOS"),
                ),
            ),
        }
    }

    pub fn press_key(&self, key: Key) -> (r: Vec<SimEvent>)
        requires
            has_vk(key),
        ensures
            r@ == seq![key_down(key)],
    {
        self.sim.press_key(key)
    }

    pub fn release_key(&self, key: Key) -> (r: Vec<SimEvent>)
        requires
            has_vk(key),
        ensures
            r@ == seq![key_up(key)],
    {
        self.sim.release_key(key)
    }

    /// Press then release a key.
    pub fn tap_key(&self, key: Key) -> (r: Vec<SimEvent>)
        requires
            has_vk(key),
        ensures
            r@ == seq![key_down(key), key_up(key)],
    {
        let mut v = self.press_key(key);
        let mut up = self.release_key(key);
        v.append(&mut up);
        proof {
            assert(v@ =~= seq![key_down(key), key_up(key)]);
        }
        v
    }

    /// Press the keys in order, then release them in reverse order.
    pub fn tap_combo(&self, keys: &[Key]) -> (r: Vec<SimEvent>)
        requires
            all_have_vk(keys@),
        ensures
            r@.len() == 2 * keys@.len(),
            forall|i: int| 0 <= i < keys@.len() ==> r@[i] == key_down(#[trigger] keys@[i]),
            forall|i: int|
                0 <= i < keys@.len() ==> r@[keys@.len() + i] == key_up(
                    #[trigger] keys@[keys@.len() - 1 - i],
                ),
    {
        self.sim.tap_combo(keys)
    }

    /// Type text: each UTF-16 code unit, pressed and released.
    pub fn type_text(&self, text: &str) -> (r: Vec<SimEvent>)
        ensures
            r@ == typing_events(utf16_seq(text@)),
    {
        self.sim.type_text(text)
    }

    pub fn move_mouse(&self, x: i32, y: i32, absolute: bool, screen_width: i32, screen_height: i32) -> (r: Vec<SimEvent>)
        ensures
            absolute ==> r@ == seq![
                SimEvent::Mouse {
                    dx: scale_coordinate(x, screen_width),
                    dy: scale_coordinate(y, screen_height),
                    data: 0,
                    flags: MOUSEEVENTF_MOVE | MOUSEEVENTF_ABSOLUTE,
                },
            ],
            !absolute ==> r@ == seq![SimEvent::Mouse { dx: x, dy: y, data: 0, flags: MOUSEEVENTF_MOVE }],
    {
        self.sim.move_mouse(x, y, absolute, screen_width, screen_height)
    }

    pub fn press_mouse(&self, button: MouseButton) -> (r: Vec<SimEvent>)
        ensures
            r@ == seq![
                SimEvent::Mouse {
                    dx: 0,
                    dy: 0,
                    data: button_flags_spec(button, true).1,
                    flags: button_flags_spec(button, true).0,
                },
            ],
    {
        self.sim.press_mouse(button)
    }

    pub fn release_mouse(&self, button: MouseButton) -> (r: Vec<SimEvent>)
        ensures
            r@ == seq![
                SimEvent::Mouse {
                    dx: 0,
                    dy: 0,
                    data: button_flags_spec(button, false).1,
                    flags: button_flags_spec(button, false).0,
                },
            ],
    {
        self.sim.release_mouse(button)
    }

    /// Press then release a mouse button.
    pub fn click(&self, button: MouseButton) -> (r: Vec<SimEvent>)
        ensures
            r@ == seq![
                SimEvent::Mouse {
                    dx: 0,
                    dy: 0,
                    data: button_flags_spec(button, true).1,
                    flags: button_flags_spec(button, true).0,
                },
                SimEvent::Mouse {
                    dx: 0,
                    dy: 0,
                    data: button_flags_spec(button, false).1,
                    flags: button_flags_spec(button, false).0,
                },
            ],
    {
        let mut v = self.press_mouse(button);
        let mut up = self.release_mouse(button);
        v.append(&mut up);
        proof {
            assert(v@ =~= seq![
                SimEvent::Mouse {
                    dx: 0,
                    dy: 0,
                    data: button_flags_spec(button, true).1,
                    flags: button_flags_spec(button, true).0,
                },
                SimEvent::Mouse {
                    dx: 0,
                    dy: 0,
                    data: button_flags_spec(button, false).1,
                    flags: button_flags_spec(button, false).0,
                },
            ]);
        }
        v
    }

    pub fn scroll(&self, delta: i32) -> (r: Vec<SimEvent>)
        ensures
            r@ == seq![SimEvent::Mouse { dx: 0, dy: 0, data: wheel_data(delta), flags: MOUSEEVENTF_WHEEL }],
    {
        self.sim.scroll(delta)
    }
}

/// A chord releases its keys in the reverse of the order it pressed them,
/// so every key goes down once and comes up once, the last one first.
pub proof fn lemma_chord_releases_in_reverse(keys: Seq<Key>, r: Seq<SimEvent>, i: int)
    requires
        r.len() == 2 * keys.len(),
        forall|k: int| 0 <= k < keys.len() ==> r[k] == key_down(#[trigger] keys[k]),
        forall|k: int| 0 <= k < keys.len() ==> r[keys.len() + k] == key_up(#[trigger] keys[keys.len() - 1 - k]),
        0 <= i < keys.len(),
    ensures
        r[i] == key_down(keys[i]),
        r[2 * keys.len() - 1 - i] == key_up(keys[i]),
{
    let n = keys.len();
    let k = n - 1 - i;
    assert(r[n + k] == key_up(keys[n - 1 - k]));
}

} // verus!
