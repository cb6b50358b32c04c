//! Global input capture: the events a system-wide hook reports, how raw hook
//! messages become events, and the start/stop state of a capture session.
//! Installing the hooks themselves is platform code run by the caller.

use std::sync::Arc;
use crate::error::RdesktopError;
use crate::hotkeys::{Key, Modifiers};
use crate::hotkeys_win::{vk_to_key, vk_to_key_spec};
use crate::platform::TargetOs;
use vstd::prelude::*;
use vstd::string::*;

verus! {

/// Pressed or released.
#[derive(Debug, Clone, Copy, PartialEq, Eq, Structural)]
pub enum KeyState {
    Pressed,
    Released,
}

/// Mouse buttons reported by the hook.
#[derive(Debug, Clone, Copy, PartialEq, Eq, Structural)]
pub enum MouseButton {
    Left,
    Right,
    Middle,
    /// Usually "back".
    X1,
    /// Usually "forward".
    X2,
}

/// One global input event.
#[derive(Debug, Clone, Copy, PartialEq, Eq, Structural)]
pub enum GlobalInputEvent {
    Keyboard { key: Key, state: KeyState, modifiers: Modifiers },
    Mouse { button: MouseButton, state: KeyState, x: i32, y: i32 },
    MouseMove { x: i32, y: i32 },
}

/// Receives every global input event.
pub trait GlobalInputHandler {
    fn on_event(&self, event: GlobalInputEvent);
}

// ---------------------------------------------------------------------------
// Hook messages
// ---------------------------------------------------------------------------

pub const WM_MOUSEMOVE: u32 = 512;
pub const WM_LBUTTONDOWN: u32 = 513;
pub const WM_LBUTTONUP: u32 = 514;
pub const WM_RBUTTONDOWN: u32 = 516;
pub const WM_RBUTTONUP: u32 = 517;
pub const WM_MBUTTONDOWN: u32 = 519;
pub const WM_MBUTTONUP: u32 = 520;
pub const WM_MOUSEWHEEL: u32 = 522;
pub const WM_XBUTTONDOWN: u32 = 523;
pub const WM_XBUTTONUP: u32 = 524;

/// The button and state a mouse hook message reports, if it is a button
/// message. X buttons are told apart by the high word of the mouse data.
pub open spec fn mouse_button_of(wp: u32, mouse_data: u32) -> Option<(MouseButton, KeyState)> {
    if wp == WM_LBUTTONDOWN || wp == WM_LBUTTONUP {
        Some((MouseButton::Left, if wp == WM_LBUTTONDOWN { KeyState::Pressed } else { KeyState::Released }))
    } else if wp == WM_RBUTTONDOWN || wp == WM_RBUTTONUP {
        Some((MouseButton::Right, if wp == WM_RBUTTONDOWN { KeyState::Pressed } else { KeyState::Released }))
    } else if wp == WM_MBUTTONDOWN || wp == WM_MBUTTONUP {
        Some((MouseButton::Middle, if wp == WM_MBUTTONDOWN { KeyState::Pressed } else { KeyState::Released }))
    } else if wp == WM_XBUTTONDOWN || wp == WM_XBUTTONUP {
        Some((
            if (mouse_data >> 16u32) & 0xFFFFu32 == 1 { MouseButton::X1 } else { MouseButton::X2 },
            if wp == WM_XBUTTONDOWN { KeyState::Pressed } else { KeyState::Released },
        ))
    } else {
        None
    }
}

/// The event a low-level mouse hook message becomes: button messages are
/// reported, moves only when asked for, and the wheel is not reported.
pub open spec fn mouse_event_spec(wp: u32, mouse_data: u32, x: i32, y: i32, include_mouse_move: bool) -> Option<GlobalInputEvent> {
    match mouse_button_of(wp, mouse_data) {
        Some((button, state)) => Some(GlobalInputEvent::Mouse { button, state, x, y }),
        None => if wp == WM_MOUSEMOVE && include_mouse_move {
            Some(GlobalInputEvent::MouseMove { x, y })
        } else {
            None
        },
    }
}

pub fn mouse_event(wp: u32, mouse_data: u32, x: i32, y: i32, include_mouse_move: bool) -> (r: Option<GlobalInputEvent>)
    ensures
        r == mouse_event_spec(wp, mouse_data, x, y, include_mouse_move),
{
    let button: Option<(MouseButton, KeyState)> = if wp == WM_LBUTTONDOWN || wp == WM_LBUTTONUP {
        Some((MouseButton::Left, if wp == WM_LBUTTONDOWN { KeyState::Pressed } else { KeyState::Released }))
    } else if wp == WM_RBUTTONDOWN || wp == WM_RBUTTONUP {
        Some((MouseButton::Right, if wp == WM_RBUTTONDOWN { KeyState::Pressed } else { KeyState::Released }))
    } else if wp == WM_MBUTTONDOWN || wp == WM_MBUTTONUP {
        Some((MouseButton::Middle, if wp == WM_MBUTTONDOWN { KeyState::Pressed } else { KeyState::Released }))
    } else if wp == WM_XBUTTONDOWN || wp == WM_XBUTTONUP {
        let which = (mouse_data >> 16u32) & 0xFFFFu32;
        Some((
            if which == 1 { MouseButton::X1 } else { MouseButton::X2 },
            if wp == WM_XBUTTONDOWN { KeyState::Pressed } else { KeyState::Released },
        ))
    } else {
        None
    };
    match button {
        Some((button, state)) => Some(GlobalInputEvent::Mouse { button, state, x, y }),
        None => if wp == WM_MOUSEMOVE && include_mouse_move {
            Some(GlobalInputEvent::MouseMove { x, y })
        } else {
            None
        },
    }
}

/// The event a low-level keyboard hook message becomes: keys without a
/// mapping are not reported; bit 7 of the flags marks a release.
pub open spec fn key_event_spec(vk: u32, flags: u32, modifiers: Modifiers) -> Option<GlobalInputEvent> {
    match vk_to_key_spec(vk) {
        Some(key) => Some(GlobalInputEvent::Keyboard {
            key,
            state: if flags & 0x80u32 != 0 { KeyState::Released } else { KeyState::Pressed },
            modifiers,
        }),
        None => None,
    }
}

pub fn key_event(vk: u32, flags: u32, modifiers: Modifiers) -> (r: Option<GlobalInputEvent>)
    ensures
        r == key_event_spec(vk, flags, modifiers),
{
    match vk_to_key(vk) {
        Some(key) => Some(GlobalInputEvent::Keyboard {
            key,
            state: if flags & 0x80u32 != 0 { KeyState::Released } else { KeyState::Pressed },
            modifiers,
        }),
        None => None,
    }
}

/// The modifiers held, from the async key states of Ctrl, Alt, Shift and
/// the two Windows keys (a key is down when its state is negative).
pub fn modifiers_from_key_states(ctrl: i16, alt: i16, shift: i16, lwin: i16, rwin: i16) -> (r: Modifiers)
    ensures
        r == (Modifiers { ctrl: ctrl < 0, alt: alt < 0, shift: shift < 0, meta: lwin < 0 || rwin < 0 }),
{
    Modifiers { ctrl: ctrl < 0, alt: alt < 0, shift: shift < 0, meta: lwin < 0 || rwin < 0 }
}

// ---------------------------------------------------------------------------
// Capture sessions
// ---------------------------------------------------------------------------

/// What a start request asks of the platform code.
#[derive(Debug, Clone, Copy, PartialEq, Eq, Structural)]
pub enum InputStart {
    /// Hooks are already installed.
    AlreadyRunning,
    /// Install the hooks now, reporting moves when `include_mouse_move`.
    InstallHooks { include_mouse_move: bool },
}

pub open spec fn unsupported_input_message() -> Seq<char> {
    "global input hooks are only supported on Windows and macOS"@
}

pub open spec fn mac_input_message() -> Seq<char> {
    "global input hooks on macOS require a CGEventTap implementation (pending macOS build)"@
}

/// A system-wide input capture session for one handler.
pub struct GlobalInput<H> {
    handler: Arc<H>,
    include_mouse_move: bool,
    running: bool,
}

impl<H: GlobalInputHandler> GlobalInput<H> {
    pub closed spec fn running_spec(&self) -> bool {
        self.running
    }

    pub closed spec fn include_mouse_move_spec(&self) -> bool {
        self.include_mouse_move
    }

    /// The handler the session was made with.
    pub closed spec fn handler_spec(&self) -> Arc<H> {
        self.handler
    }

    /// A stopped session that does not report mouse moves.
    pub fn new(handler: Arc<H>) -> (r: Self)
        ensures
            !r.running_spec(),
            !r.include_mouse_move_spec(),
            r.handler_spec() == handler,
    {
        GlobalInput { handler, include_mouse_move: false, running: false }
    }

    /// Also report mouse moves (frequent).
    pub fn with_mouse_move(self, on: bool) -> (r: Self)
        ensures
            r.include_mouse_move_spec() == on,
            r.running_spec() == self.running_spec(),
            r.handler_spec() == self.handler_spec(),
    {
        GlobalInput { include_mouse_move: on, ..self }
    }

    /// The handler events go to.
    pub fn handler(&self) -> (r: &Arc<H>)
        ensures
            *r == self.handler_spec(),
    {
        &self.handler
    }

    /// Start capturing. A running session stays as it is; on Windows the
    /// caller installs the hooks; elsewhere capture is not supported.
    pub fn start(&mut self, os: TargetOs) -> (r: Result<InputStart, RdesktopError>)
        ensures
            old(self).running_spec() ==> r == Ok::<InputStart, RdesktopError>(InputStart::AlreadyRunning)
                && final(self).running_spec(),
            !old(self).running_spec() && os == TargetOs::Windows ==> r == Ok::<InputStart, RdesktopError>(
                InputStart::InstallHooks { include_mouse_move: old(self).include_mouse_move_spec() },
            ) && final(self).running_spec(),
            !old(self).running_spec() && os == TargetOs::MacOs ==> (r matches Err(RdesktopError::UnsupportedPlatform(m))
                && m@ == mac_input_message()) && !final(self).running_spec(),
            !old(self).running_spec() && os != TargetOs::Windows && os != TargetOs::MacOs ==> (r matches Err(
                RdesktopError::UnsupportedPlatform(m),
            ) && m@ == unsupported_input_message()) && !final(self).running_spec(),
            final(self).include_mouse_move_spec() == old(self).include_mouse_move_spec(),
            final(self).handler_spec() == old(self).handler_spec(),
    {
        if self.running {
            return Ok(InputStart::AlreadyRunning);
        }
        match os {
            TargetOs::Windows => {
                self.running = true;
                Ok(InputStart::InstallHooks { include_mouse_move: self.include_mouse_move })
            },
            TargetOs::MacOs => match MacInput::<H>::start(self.handler.clone(), self.include_mouse_move) {
                Ok(_) => Ok(InputStart::AlreadyRunning),
                Err(e) => Err(e),
            },
            _ => Err(
                RdesktopError::UnsupportedPlatform(
                    String::from_str("global input hooks are only supported on Windows and macOS"),
                ),
            ),
        }
    }

    /// The platform could not install the hooks: the session is stopped and
    /// the error says so.
    pub fn install_failed(&mut self) -> (r: RdesktopError)
        ensures
            !final(self).running_spec(),
            final(self).include_mouse_move_spec() == old(self).include_mouse_move_spec(),
            final(self).handler_spec() == old(self).handler_spec(),
            r matches RdesktopError::GlobalInput(m) && m@
                == "failed to install global input hooks (SetWindowsHookExW)"@,
    {
        self.running = false;
        RdesktopError::GlobalInput(String::from_str("failed to install global input hooks (SetWindowsHookExW)"))
    }

    /// Stop capturing; the result says whether hooks were installed and
    /// must now be removed.
    pub fn stop(&mut self) -> (r: bool)
        ensures
            r == old(self).running_spec(),
            !final(self).running_spec(),
            final(self).include_mouse_move_spec() == old(self).include_mouse_move_spec(),
            final(self).handler_spec() == old(self).handler_spec(),
    {
        let was = self.running;
        self.running = false;
        was
    }
}

/// The macOS capture backend, which is not available yet.
pub struct MacInput<H> {
    handler: Arc<H>,
}

impl<H: GlobalInputHandler> MacInput<H> {
    /// Always refused: the macOS event tap is not implemented.
    pub fn start(handler: Arc<H>, include_mouse_move: bool) -> (r: Result<MacInput<H>, RdesktopError>)
        ensures
            r matches Err(RdesktopError::UnsupportedPlatform(m)) && m@ == mac_input_message(),
    {
        Err(
            RdesktopError::UnsupportedPlatform(
                String::from_str(
                    "global input hooks on macOS require a CGEventTap implementation (pending macOS build)",
                ),
            ),
        )
    }

    /// Nothing to release.
    pub fn stop(self) {
    }
}

} // verus!
