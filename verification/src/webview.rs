//! The WebView backend's decisions: window commands sent by the frontend,
//! the queue of operations made before the event loop runs, the assets it
//! serves under `rdesktop://`, and the global hotkeys it registers.

use crate::assets::plain_name;
use crate::config::{AppConfig, WindowConfig};
use crate::hotkeys::{parse_hotkey_spec, Hotkey};
use crate::platform::TargetOs;
use crate::renderer::ResizeEdge;
use crate::text::{chars_of, from_utf8_lossy, has_prefix, push_chars, push_str, starts_with_str, str_eq, string_from_chars, utf8_lossy};
use vstd::prelude::*;
use vstd::string::*;

verus! {

/// The direction of an interactive resize, as the window toolkit names it.
#[derive(Debug, Clone, Copy, PartialEq, Eq, Structural)]
pub enum ResizeDirection {
    North,
    South,
    West,
    East,
    NorthWest,
    NorthEast,
    SouthWest,
    SouthEast,
}

pub open spec fn direction_of_edge(edge: ResizeEdge) -> ResizeDirection {
    match edge {
        ResizeEdge::Top => ResizeDirection::North,
        ResizeEdge::Bottom => ResizeDirection::South,
        ResizeEdge::Left => ResizeDirection::West,
        ResizeEdge::Right => ResizeDirection::East,
        ResizeEdge::TopLeft => ResizeDirection::NorthWest,
        ResizeEdge::TopRight => ResizeDirection::NorthEast,
        ResizeEdge::BottomLeft => ResizeDirection::SouthWest,
        ResizeEdge::BottomRight => ResizeDirection::SouthEast,
    }
}

/// The toolkit's direction for a resize edge.
pub fn to_resize_direction(edge: ResizeEdge) -> (r: ResizeDirection)
    ensures
        r == direction_of_edge(edge),
{
    match edge {
        ResizeEdge::Top => ResizeDirection::North,
        ResizeEdge::Bottom => ResizeDirection::South,
        ResizeEdge::Left => ResizeDirection::West,
        ResizeEdge::Right => ResizeDirection::East,
        ResizeEdge::TopLeft => ResizeDirection::NorthWest,
        ResizeEdge::TopRight => ResizeDirection::NorthEast,
        ResizeEdge::BottomLeft => ResizeDirection::SouthWest,
        ResizeEdge::BottomRight => ResizeDirection::SouthEast,
    }
}

// ---------------------------------------------------------------------------
// Window commands from the frontend
// ---------------------------------------------------------------------------

/// What the window command parser reads from an IPC payload.
#[derive(Debug, Clone)]
pub struct WindowPayload {
    /// `__window__`, when it is a boolean.
    pub window_flag: Option<bool>,
    /// `action`, when it is a string.
    pub action: Option<String>,
    /// `edge`, when it is a string.
    pub edge: Option<String>,
    /// `value`, when it is a boolean.
    pub value: Option<bool>,
}

/// A window operation asked for by the frontend.
#[derive(Debug, Clone, Copy, PartialEq, Eq, Structural)]
pub enum WindowAction {
    Minimize,
    Maximize,
    Close,
    StartDrag,
    StartResize(ResizeDirection),
    SetFullscreen(bool),
}

/// A window operation for one window.
#[derive(Debug, Clone, Copy, PartialEq, Eq, Structural)]
pub struct WindowCommand {
    pub rdesktop_id: u64,
    pub action: WindowAction,
}

/// The resize direction an edge name asks for; unknown names mean the
/// bottom-right corner.
pub open spec fn edge_direction(edge: Seq<char>) -> ResizeDirection {
    if edge == "top"@ {
        ResizeDirection::North
    } else if edge == "bottom"@ {
        ResizeDirection::South
    } else if edge == "left"@ {
        ResizeDirection::West
    } else if edge == "right"@ {
        ResizeDirection::East
    } else if edge == "top-left"@ {
        ResizeDirection::NorthWest
    } else if edge == "top-right"@ {
        ResizeDirection::NorthEast
    } else if edge == "bottom-left"@ {
        ResizeDirection::SouthWest
    } else {
        ResizeDirection::SouthEast
    }
}

/// The window action a payload names, if it is a window command.
pub open spec fn payload_action(p: WindowPayload) -> Option<WindowAction> {
    if p.window_flag != Some(true) {
        None
    } else {
        match p.action {
            None => None,
            Some(a) => if a@ == "minimize"@ {
                Some(WindowAction::Minimize)
            } else if a@ == "maximize"@ {
                Some(WindowAction::Maximize)
            } else if a@ == "close"@ {
                Some(WindowAction::Close)
            } else if a@ == "start_drag"@ {
                Some(WindowAction::StartDrag)
            } else if a@ == "start_resize"@ {
                Some(
                    WindowAction::StartResize(
                        edge_direction(
                            match p.edge {
                                Some(e) => e@,
                                None => "bottom-right"@,
                            },
                        ),
                    ),
                )
            } else if a@ == "set_fullscreen"@ {
                Some(
                    WindowAction::SetFullscreen(
                        match p.value {
                            Some(v) => v,
                            None => false,
                        },
                    ),
                )
            } else {
                None
            },
        }
    }
}

/// Law: a window command does what its action says. With `__window__`
/// true, `minimize`, `maximize`, `close` and `start_drag` name those
/// operations; `start_resize` resizes from the named edge (`top` north,
/// `bottom` south, `left` west, `right` east, the four corners likewise,
/// the bottom-right corner when no edge is named); `set_fullscreen` sets
/// full screen to `value` (off when absent); any other action names
/// nothing. Without the flag nothing is a window command.
pub proof fn lemma_window_actions(p: WindowPayload)
    ensures
        p.window_flag != Some(true) ==> payload_action(p) is None,
        p.action is None ==> payload_action(p) is None,
        p.window_flag == Some(true) ==> ({
            let a = p.action->0@;
            let edge = match p.edge {
                Some(e) => Some(e@),
                None => None,
            };
            &&& p.action is Some && a == "minimize"@ ==> payload_action(p) == Some(WindowAction::Minimize)
            &&& p.action is Some && a == "maximize"@ ==> payload_action(p) == Some(WindowAction::Maximize)
            &&& p.action is Some && a == "close"@ ==> payload_action(p) == Some(WindowAction::Close)
            &&& p.action is Some && a == "start_drag"@ ==> payload_action(p) == Some(WindowAction::StartDrag)
            &&& p.action is Some && a == "start_resize"@ && edge == Some("top"@) ==> payload_action(p) == Some(
                WindowAction::StartResize(ResizeDirection::North),
            )
            &&& p.action is Some && a == "start_resize"@ && edge == Some("bottom"@) ==> payload_action(p) == Some(
                WindowAction::StartResize(ResizeDirection::South),
            )
            &&& p.action is Some && a == "start_resize"@ && edge == Some("left"@) ==> payload_action(p) == Some(
                WindowAction::StartResize(ResizeDirection::West),
            )
            &&& p.action is Some && a == "start_resize"@ && edge == Some("right"@) ==> payload_action(p) == Some(
                WindowAction::StartResize(ResizeDirection::East),
            )
            &&& p.action is Some && a == "start_resize"@ && edge == Some("top-left"@) ==> payload_action(p)
                == Some(WindowAction::StartResize(ResizeDirection::NorthWest))
            &&& p.action is Some && a == "start_resize"@ && edge == Some("top-right"@) ==> payload_action(p)
                == Some(WindowAction::StartResize(ResizeDirection::NorthEast))
            &&& p.action is Some && a == "start_resize"@ && edge == Some("bottom-left"@) ==> payload_action(p)
                == Some(WindowAction::StartResize(ResizeDirection::SouthWest))
            &&& p.action is Some && a == "start_resize"@ && (edge is None || edge == Some("bottom-right"@))
                ==> payload_action(p) == Some(WindowAction::StartResize(ResizeDirection::SouthEast))
            &&& p.action is Some && a == "set_fullscreen"@ ==> payload_action(p) == Some(
                WindowAction::SetFullscreen(p.value == Some(true)),
            )
            &&& p.action is Some && a != "minimize"@ && a != "maximize"@ && a != "close"@ && a != "start_drag"@
                && a != "start_resize"@ && a != "set_fullscreen"@ ==> payload_action(p) is None
        }),
{
    reveal_strlit("minimize");
    reveal_strlit("maximize");
    reveal_strlit("close");
    reveal_strlit("start_drag");
    reveal_strlit("start_resize");
    reveal_strlit("set_fullscreen");
    reveal_strlit("top");
    reveal_strlit("bottom");
    reveal_strlit("left");
    reveal_strlit("right");
    reveal_strlit("top-left");
    reveal_strlit("top-right");
    reveal_strlit("bottom-left");
    reveal_strlit("bottom-right");
    assert("minimize"@.len() == 8 && "maximize"@.len() == 8 && "close"@.len() == 5);
    assert("start_drag"@.len() == 10 && "start_resize"@.len() == 12 && "set_fullscreen"@.len() == 14);
    assert("top"@.len() == 3 && "bottom"@.len() == 6 && "left"@.len() == 4 && "right"@.len() == 5);
    assert("top-left"@.len() == 8 && "top-right"@.len() == 9 && "bottom-left"@.len() == 11);
    assert("bottom-right"@.len() == 12);
    assert("minimize"@[1] != "maximize"@[1]);
    assert("start_drag"@[6] != "start_resize"@[6]);
    assert("top-left"@[4] != "top-right"@[4]);
    assert("left"@[0] != "top"@[0]);
    assert("bottom-left"@[7] != "bottom-right"@[7]);
    assert("bottom"@[0] != "right"@[0]);
}

fn edge_direction_of(edge: &str) -> (r: ResizeDirection)
    ensures
        r == edge_direction(edge@),
{
    if str_eq(edge, "top") {
        ResizeDirection::North
    } else if str_eq(edge, "bottom") {
        ResizeDirection::South
    } else if str_eq(edge, "left") {
        ResizeDirection::West
    } else if str_eq(edge, "right") {
        ResizeDirection::East
    } else if str_eq(edge, "top-left") {
        ResizeDirection::NorthWest
    } else if str_eq(edge, "top-right") {
        ResizeDirection::NorthEast
    } else if str_eq(edge, "bottom-left") {
        ResizeDirection::SouthWest
    } else {
        ResizeDirection::SouthEast
    }
}

/// Parse a window control payload: a command for window `rdesktop_id` when
/// `__window__` is true and `action` names a window operation, else `None`.
pub fn parse_window_payload(payload: &WindowPayload, rdesktop_id: u64) -> (r: Option<WindowCommand>)
    ensures
        r == match payload_action(*payload) {
            Some(a) => Some(WindowCommand { rdesktop_id, action: a }),
            None => None,
        },
{
    match payload.window_flag {
        Some(true) => {},
        _ => {
            return None;
        },
    }
    let a = match &payload.action {
        Some(a) => a,
        None => {
            return None;
        },
    };
    let action = if str_eq(a.as_str(), "minimize") {
        WindowAction::Minimize
    } else if str_eq(a.as_str(), "maximize") {
        WindowAction::Maximize
    } else if str_eq(a.as_str(), "close") {
        WindowAction::Close
    } else if str_eq(a.as_str(), "start_drag") {
        WindowAction::StartDrag
    } else if str_eq(a.as_str(), "start_resize") {
        let dir = match &payload.edge {
            Some(e) => edge_direction_of(e.as_str()),
            None => edge_direction_of("bottom-right"),
        };
        WindowAction::StartResize(dir)
    } else if str_eq(a.as_str(), "set_fullscreen") {
        let v = match payload.value {
            Some(v) => v,
            None => false,
        };
        WindowAction::SetFullscreen(v)
    } else {
        return None;
    };
    Some(WindowCommand { rdesktop_id, action })
}

/// A window command carried inside a formal IPC message's payload.
pub fn parse_window_command(payload: &WindowPayload, rdesktop_id: u64) -> (r: Option<WindowCommand>)
    ensures
        r == match payload_action(*payload) {
            Some(a) => Some(WindowCommand { rdesktop_id, action: a }),
            None => None,
        },
{
    parse_window_payload(payload, rdesktop_id)
}

/// A window command written at the top level of the raw message.
pub fn parse_legacy_window_command(raw: &WindowPayload, rdesktop_id: u64) -> (r: Option<WindowCommand>)
    ensures
        r == match payload_action(*raw) {
            Some(a) => Some(WindowCommand { rdesktop_id, action: a }),
            None => None,
        },
{
    parse_window_payload(raw, rdesktop_id)
}

/// Where a message from the page goes.
#[derive(Debug, Clone, Copy, PartialEq, Eq, Structural)]
pub enum IpcRoute {
    /// A window command for the event loop.
    Window(WindowCommand),
    /// An application IPC message for the handler.
    Handle,
    /// Not JSON, or not an IPC message: dropped.
    Ignore,
}

/// Route a message posted by the page of window `rdesktop_id`. `raw` is
/// what the window parser reads from the whole JSON value (`None` when the
/// body is not JSON); `message` is what it reads from the payload of the
/// formal IPC envelope (`None` when the value is not one). A top-level
/// window command wins, then a window command in the envelope, then the
/// envelope goes to the handler.
pub fn route_ipc_message(raw: Option<&WindowPayload>, message: Option<&WindowPayload>, rdesktop_id: u64) -> (r: IpcRoute)
    ensures
        r == match raw {
            None => IpcRoute::Ignore,
            Some(top) => match payload_action(*top) {
                Some(a) => IpcRoute::Window(WindowCommand { rdesktop_id, action: a }),
                None => match message {
                    None => IpcRoute::Ignore,
                    Some(m) => match payload_action(*m) {
                        Some(a) => IpcRoute::Window(WindowCommand { rdesktop_id, action: a }),
                        None => IpcRoute::Handle,
                    },
                },
            },
        },
{
    let top = match raw {
        None => {
            return IpcRoute::Ignore;
        },
        Some(t) => t,
    };
    match parse_legacy_window_command(top, rdesktop_id) {
        Some(cmd) => IpcRoute::Window(cmd),
        None => match message {
            None => IpcRoute::Ignore,
            Some(m) => match parse_window_command(m, rdesktop_id) {
                Some(cmd) => IpcRoute::Window(cmd),
                None => IpcRoute::Handle,
            },
        },
    }
}

/// The event loop ends when the user has closed the last window.
pub fn exit_after_close(windows_left: usize) -> (r: bool)
    ensures
        r == (windows_left == 0),
{
    windows_left == 0
}

// ---------------------------------------------------------------------------
// Native asset URLs and assets
// ---------------------------------------------------------------------------

/// The URL the WebView navigates to: on Windows, with an asset root,
/// `rdesktop://rest` becomes `http://rdesktop.rest`, the origin the
/// backend serves the custom protocol under; any other URL is kept.
pub open spec fn native_asset_url_spec(url: Seq<char>, has_asset_root: bool, os: TargetOs) -> Seq<char> {
    if os == TargetOs::Windows && has_asset_root && has_prefix(url, "rdesktop://"@) {
        "http://rdesktop."@ + url.skip(11)
    } else {
        url
    }
}

pub fn native_asset_url(url: &str, has_asset_root: bool, os: TargetOs) -> (r: String)
    ensures
        r@ == native_asset_url_spec(url@, has_asset_root, os),
{
    if os == TargetOs::Windows && has_asset_root && starts_with_str(url, "rdesktop://") {
        let v = chars_of(url);
        let mut out = String::new();
        push_str(&mut out, "http://rdesktop.");
        let mut i: usize = 11;
        let ghost start = out@;
        proof {
            reveal_strlit("rdesktop://");
        }
        while i < v.len()
            invariant
                11 <= i <= v@.len(),
                out@ == start + v@.subrange(11, i as int),
            decreases v@.len() - i,
        {
            out.push(v[i]);
            proof {
                assert(v@.subrange(11, i + 1) =~= v@.subrange(11, i as int).push(v@[i as int]));
            }
            i = i + 1;
        }
        proof {
            assert(v@.subrange(11, v@.len() as int) =~= v@.skip(11));
        }
        out
    } else {
        String::from_str(url)
    }
}

/// The content type of a native asset, by file extension.
pub open spec fn asset_content_type_spec(ext: Seq<char>) -> Seq<char> {
    if ext == "html"@ {
        "text/html; charset=utf-8"@
    } else if ext == "js"@ || ext == "mjs"@ {
        "text/javascript; charset=utf-8"@
    } else if ext == "css"@ {
        "text/css; charset=utf-8"@
    } else if ext == "json"@ {
        "application/json; charset=utf-8"@
    } else if ext == "png"@ {
        "image/png"@
    } else if ext == "jpg"@ || ext == "jpeg"@ {
        "image/jpeg"@
    } else if ext == "svg"@ {
        "image/svg+xml"@
    } else if ext == "wav"@ {
        "audio/wav"@
    } else if ext == "mp3"@ {
        "audio/mpeg"@
    } else if ext == "woff"@ {
        "font/woff"@
    } else if ext == "woff2"@ {
        "font/woff2"@
    } else {
        "application/octet-stream"@
    }
}

/// Law: the content type of each asset extension: HTML, JavaScript
/// (`js`, `mjs`), CSS and JSON as UTF-8 text, PNG, JPEG (`jpg`, `jpeg`),
/// SVG, WAV, MP3 and WOFF fonts by their media types, anything else as
/// `application/octet-stream`.
pub proof fn lemma_asset_content_types(ext: Seq<char>)
    ensures
        asset_content_type_spec("html"@) == "text/html; charset=utf-8"@,
        asset_content_type_spec("js"@) == "text/javascript; charset=utf-8"@,
        asset_content_type_spec("mjs"@) == "text/javascript; charset=utf-8"@,
        asset_content_type_spec("css"@) == "text/css; charset=utf-8"@,
        asset_content_type_spec("json"@) == "application/json; charset=utf-8"@,
        asset_content_type_spec("png"@) == "image/png"@,
        asset_content_type_spec("jpg"@) == "image/jpeg"@,
        asset_content_type_spec("jpeg"@) == "image/jpeg"@,
        asset_content_type_spec("svg"@) == "image/svg+xml"@,
        asset_content_type_spec("wav"@) == "audio/wav"@,
        asset_content_type_spec("mp3"@) == "audio/mpeg"@,
        asset_content_type_spec("woff"@) == "font/woff"@,
        asset_content_type_spec("woff2"@) == "font/woff2"@,
        ext != "html"@ && ext != "js"@ && ext != "mjs"@ && ext != "css"@ && ext != "json"@ && ext != "png"@ && ext != "jpg"@ && ext != "jpeg"@ && ext != "svg"@ && ext != "wav"@ && ext != "mp3"@ && ext != "woff"@ && ext != "woff2"@ ==> asset_content_type_spec(ext) == "application/octet-stream"@,
{
    reveal_strlit("html");
    reveal_strlit("js");
    reveal_strlit("mjs");
    reveal_strlit("css");
    reveal_strlit("json");
    reveal_strlit("png");
    reveal_strlit("jpg");
    reveal_strlit("jpeg");
    reveal_strlit("svg");
    reveal_strlit("wav");
    reveal_strlit("mp3");
    reveal_strlit("woff");
    reveal_strlit("woff2");
    assert("html"@.len() == 4 && "html"@[0] == 'h' && "html"@[1] == 't' && "html"@[2] == 'm' && "html"@[3] == 'l');
    assert("js"@.len() == 2 && "js"@[0] == 'j' && "js"@[1] == 's');
    assert("mjs"@.len() == 3 && "mjs"@[0] == 'm' && "mjs"@[1] == 'j' && "mjs"@[2] == 's');
    assert("css"@.len() == 3 && "css"@[0] == 'c' && "css"@[1] == 's' && "css"@[2] == 's');
    assert("json"@.len() == 4 && "json"@[0] == 'j' && "json"@[1] == 's' && "json"@[2] == 'o' && "json"@[3] == 'n');
    assert("png"@.len() == 3 && "png"@[0] == 'p' && "png"@[1] == 'n' && "png"@[2] == 'g');
    assert("jpg"@.len() == 3 && "jpg"@[0] == 'j' && "jpg"@[1] == 'p' && "jpg"@[2] == 'g');
    assert("jpeg"@.len() == 4 && "jpeg"@[0] == 'j' && "jpeg"@[1] == 'p' && "jpeg"@[2] == 'e' && "jpeg"@[3] == 'g');
    assert("svg"@.len() == 3 && "svg"@[0] == 's' && "svg"@[1] == 'v' && "svg"@[2] == 'g');
    assert("wav"@.len() == 3 && "wav"@[0] == 'w' && "wav"@[1] == 'a' && "wav"@[2] == 'v');
    assert("mp3"@.len() == 3 && "mp3"@[0] == 'm' && "mp3"@[1] == 'p' && "mp3"@[2] == '3');
    assert("woff"@.len() == 4 && "woff"@[0] == 'w' && "woff"@[1] == 'o' && "woff"@[2] == 'f' && "woff"@[3] == 'f');
    assert("woff2"@.len() == 5 && "woff2"@[0] == 'w' && "woff2"@[1] == 'o' && "woff2"@[2] == 'f' && "woff2"@[3] == 'f' && "woff2"@[4] == '2');
}

pub fn content_type(extension: &str) -> (r: &'static str)
    ensures
        r@ == asset_content_type_spec(extension@),
{
    if str_eq(extension, "html") {
        "text/html; charset=utf-8"
    } else if str_eq(extension, "js") || str_eq(extension, "mjs") {
        "text/javascript; charset=utf-8"
    } else if str_eq(extension, "css") {
        "text/css; charset=utf-8"
    } else if str_eq(extension, "json") {
        "application/json; charset=utf-8"
    } else if str_eq(extension, "png") {
        "image/png"
    } else if str_eq(extension, "jpg") || str_eq(extension, "jpeg") {
        "image/jpeg"
    } else if str_eq(extension, "svg") {
        "image/svg+xml"
    } else if str_eq(extension, "wav") {
        "audio/wav"
    } else if str_eq(extension, "mp3") {
        "audio/mpeg"
    } else if str_eq(extension, "woff") {
        "font/woff"
    } else if str_eq(extension, "woff2") {
        "font/woff2"
    } else {
        "application/octet-stream"
    }
}

pub open spec fn is_hex_digit(b: u8) -> bool {
    (48 <= b <= 57) || (65 <= b <= 70) || (97 <= b <= 102)
}

pub open spec fn hex_value(b: u8) -> int {
    if 48 <= b <= 57 {
        b - 48
    } else if 65 <= b <= 70 {
        b - 55
    } else {
        b - 87
    }
}

/// Percent-decoding: each `%` followed by two hexadecimal digits becomes the
/// byte they spell; every other byte stays.
pub open spec fn percent_decode_spec(b: Seq<u8>) -> Seq<u8>
    decreases b.len(),
{
    if b.len() == 0 {
        Seq::empty()
    } else if b[0] == 37 && b.len() >= 3 && is_hex_digit(b[1]) && is_hex_digit(b[2]) {
        seq![(hex_value(b[1]) * 16 + hex_value(b[2])) as u8] + percent_decode_spec(b.skip(3))
    } else {
        seq![b[0]] + percent_decode_spec(b.skip(1))
    }
}

/// Calls `percent_encoding::percent_decode` and collects its bytes: every
/// `%` followed by two hexadecimal digits is replaced by the byte they
/// spell, and all other bytes are passed through.
#[verifier::external_body]
fn percent_decode_bytes(input: &[u8]) -> (r: Vec<u8>)
    ensures
        r@ == percent_decode_spec(input@),
{
    percent_encoding::percent_decode(input).collect()
}

/// A path component, as `std::path::Path::components` classifies it.
#[derive(Debug, Clone, Copy, PartialEq, Eq, Structural)]
pub enum PathPart {
    /// A Windows drive or UNC prefix.
    Prefix,
    RootDir,
    CurDir,
    ParentDir,
    Normal,
}

/// Calls `Path::components` and tells each component's kind. Which
/// components a string has depends on the platform's path syntax, so only
/// one case is stated: a plain name (no `/`, `\\` or `:`, not `.` or `..`)
/// is one normal component on every platform, since separators are `/`
/// (and `\\` on Windows) and Windows prefixes need a `\\` or a `:`.
#[verifier::external_body]
fn path_parts(path: &str) -> (r: Vec<PathPart>)
    ensures
        plain_name(path@) ==> r@ == seq![PathPart::Normal],
{
    let mut parts = Vec::new();
    for c in std::path::Path::new(path).components() {
        parts.push(match c {
            std::path::Component::Prefix(_) => PathPart::Prefix,
            std::path::Component::RootDir => PathPart::RootDir,
            std::path::Component::CurDir => PathPart::CurDir,
            std::path::Component::ParentDir => PathPart::ParentDir,
            std::path::Component::Normal(_) => PathPart::Normal,
        });
    }
    parts
}

/// What an `rdesktop://` request asks for.
#[derive(Debug, Clone)]
pub enum AssetRequest {
    /// The path leaves the asset root: answered 403.
    Forbidden,
    /// A file relative to the asset root.
    File(String),
}

/// A path with a parent, root or prefix component leaves the asset root.
pub open spec fn leaves_root(parts: Seq<PathPart>) -> bool {
    exists|i: int|
        0 <= i < parts.len() && (#[trigger] parts[i] == PathPart::ParentDir || parts[i]
            == PathPart::RootDir || parts[i] == PathPart::Prefix)
}

/// The request for a decoded path with the given components: refused when
/// a component leaves the root, `index.html` for the empty path.
pub open spec fn asset_request_spec(decoded: Seq<char>, parts: Seq<PathPart>) -> Option<Seq<char>> {
    if leaves_root(parts) {
        None
    } else if decoded.len() == 0 {
        Some("index.html"@)
    } else {
        Some(decoded)
    }
}

/// Decide an asset request from its decoded path and that path's components.
pub fn asset_request_for(decoded: &str, parts: &[PathPart]) -> (r: AssetRequest)
    ensures
        match r {
            AssetRequest::Forbidden => asset_request_spec(decoded@, parts@) is None,
            AssetRequest::File(p) => asset_request_spec(decoded@, parts@) == Some(p@),
        },
{
    let mut i: usize = 0;
    while i < parts.len()
        invariant
            i <= parts@.len(),
            forall|k: int|
                0 <= k < i ==> !(#[trigger] parts@[k] == PathPart::ParentDir || parts@[k]
                    == PathPart::RootDir || parts@[k] == PathPart::Prefix),
        decreases parts@.len() - i,
    {
        match parts[i] {
            PathPart::ParentDir | PathPart::RootDir | PathPart::Prefix => {
                return AssetRequest::Forbidden;
            },
            _ => {},
        }
        i = i + 1;
    }
    if decoded.unicode_len() == 0 {
        AssetRequest::File(String::from_str("index.html"))
    } else {
        AssetRequest::File(String::from_str(decoded))
    }
}

/// The URI path with its leading slashes removed, then percent-decoded and
/// read as UTF-8 with invalid sequences replaced.
pub open spec fn decoded_asset_path(uri_path: Seq<char>) -> Seq<char> {
    utf8_lossy(percent_decode_spec(vstd::utf8::encode_utf8(crate::devserver::strip_slashes(uri_path))))
}

/// A path that leaves the root whatever the platform's path syntax: one
/// that starts with `/` has a root (on Windows possibly a prefix), and a
/// `/`-separated `..` segment is a parent component on every platform.
pub open spec fn leaves_root_everywhere(path: Seq<char>) -> bool {
    (path.len() > 0 && path[0] == '/') || crate::devserver::has_parent_segment(path)
}

/// Decide what an `rdesktop://` request for `uri_path` asks for. The empty
/// path asks for `index.html`; a path that leaves the root on every
/// platform is refused; any other path asks for itself unless the
/// platform's path syntax finds a root, prefix or parent component in it.
pub fn asset_request(uri_path: &str) -> (r: AssetRequest)
    ensures
        decoded_asset_path(uri_path@).len() == 0 ==> (r matches AssetRequest::File(p) && p@
            == "index.html"@),
        leaves_root_everywhere(decoded_asset_path(uri_path@)) ==> r is Forbidden,
        plain_name(decoded_asset_path(uri_path@)) ==> (r matches AssetRequest::File(p) && p@
            == decoded_asset_path(uri_path@)),
        r matches AssetRequest::File(p) ==> (p@ == decoded_asset_path(uri_path@) && p@.len() > 0)
            || (p@ == "index.html"@ && decoded_asset_path(uri_path@).len() == 0),
{
    let v = chars_of(uri_path);
    let mut a: usize = 0;
    proof {
        assert(v@.skip(0) =~= v@);
    }
    while a < v.len() && v[a] == '/'
        invariant
            a <= v@.len(),
            crate::devserver::strip_slashes(v@.skip(a as int)) == crate::devserver::strip_slashes(
                v@,
            ),
        decreases v@.len() - a,
    {
        proof {
            assert(v@.skip(a as int).skip(1) =~= v@.skip(a + 1));
        }
        a = a + 1;
    }
    let mut rel: Vec<char> = Vec::new();
    let mut i: usize = a;
    while i < v.len()
        invariant
            a <= i <= v@.len(),
            rel@ == v@.subrange(a as int, i as int),
        decreases v@.len() - i,
    {
        rel.push(v[i]);
        proof {
            assert(v@.subrange(a as int, i + 1) =~= v@.subrange(a as int, i as int).push(v@[i as int]));
        }
        i = i + 1;
    }
    proof {
        assert(rel@ =~= v@.skip(a as int));
        if a < v@.len() {
            assert(v@.skip(a as int)[0] == v@[a as int]);
        }
        assert(crate::devserver::strip_slashes(v@.skip(a as int)) == v@.skip(a as int));
    }
    let rel_s = string_from_chars(rel.as_slice());
    let decoded_bytes = percent_decode_bytes(rel_s.as_str().as_bytes());
    let decoded = from_utf8_lossy(decoded_bytes.as_slice());
    let dv = chars_of(decoded.as_str());
    proof {
        assert(decoded@ == decoded_asset_path(uri_path@));
    }
    if dv.len() == 0 {
        return AssetRequest::File(String::from_str("index.html"));
    }
    if dv[0] == '/' {
        return AssetRequest::Forbidden;
    }
    let mut j: usize = 0;
    while j < dv.len()
        invariant
            j <= dv@.len(),
            dv@ == decoded@,
            dv@.len() > 0,
            decoded@ == decoded_asset_path(uri_path@),
            forall|k: int| 0 <= k < j ==> !#[trigger] crate::devserver::parent_segment_starts(dv@, k),
        decreases dv@.len() - j,
    {
        if dv.len() >= 2 && j <= dv.len() - 2 && dv[j] == '.' && dv[j + 1] == '.' && (j == 0 || dv[j
            - 1] == '/') && (j + 2 == dv.len() || dv[j + 2] == '/') {
            proof {
                assert(crate::devserver::parent_segment_starts(dv@, j as int));
                assert(crate::devserver::has_parent_segment(dv@));
                if j > 0 {
                    assert(dv@[j - 1] == '/');
                    assert(dv@.contains('/'));
                }
                if j + 2 < dv@.len() {
                    assert(dv@[j + 2] == '/');
                    assert(dv@.contains('/'));
                }
                reveal_strlit("..");
                if j == 0 && j + 2 == dv@.len() {
                    assert(dv@ =~= ".."@);
                }
            }
            return AssetRequest::Forbidden;
        }
        j = j + 1;
    }
    proof {
        assert(!crate::devserver::has_parent_segment(dv@));
    }
    let parts = path_parts(decoded.as_str());
    asset_request_for(decoded.as_str(), parts.as_slice())
}

/// How a native asset request is answered.
#[derive(Debug, Clone, Copy, PartialEq, Eq, Structural)]
pub enum AssetOutcome {
    /// The file was read.
    Found,
    /// The file does not exist.
    NotFound,
    /// Reading failed otherwise.
    ReadFailed,
}

/// The status, content type and fixed body of an answer; the body of a
/// found file is the file itself, so it has no fixed body.
pub fn asset_answer(outcome: AssetOutcome, extension: &str) -> (r: (u16, &'static str, &'static str))
    ensures
        outcome == AssetOutcome::Found ==> r.0 == 200 && r.1@ == asset_content_type_spec(extension@),
        outcome == AssetOutcome::NotFound ==> r.0 == 404 && r.1@ == "text/plain; charset=utf-8"@
            && r.2@ == "not found"@,
        outcome == AssetOutcome::ReadFailed ==> r.0 == 500 && r.1@ == "text/plain; charset=utf-8"@
            && r.2@ == "asset read failed"@,
{
    match outcome {
        AssetOutcome::Found => (200, content_type(extension), ""),
        AssetOutcome::NotFound => (404, "text/plain; charset=utf-8", "not found"),
        AssetOutcome::ReadFailed => (500, "text/plain; charset=utf-8", "asset read failed"),
    }
}

// ---------------------------------------------------------------------------
// Operations queued before the event loop
// ---------------------------------------------------------------------------

/// An operation on a window, queued until the event loop runs.
#[derive(Debug, Clone)]
pub enum PendingOp {
    LoadUrl(u64, String),
    LoadHtml(u64, String),
    EvalScript(u64, String),
    SetTitle(u64, String),
    SetSize(u64, u32, u32),
    SetResizable(u64, bool),
    SetVisible(u64, bool),
    SendToFrontend(u64, String),
    Close(u64),
    Minimize(u64),
    Maximize(u64),
    SetFullscreen(u64, bool),
    StartDrag(u64),
    StartResize(u64, ResizeDirection),
    SetDecorations(u64, bool),
    SetAlwaysOnTop(u64, bool),
}

/// Windows and operations requested before the event loop starts.
pub struct PendingQueue {
    next_window_id: u64,
    windows: Vec<(u64, WindowConfig)>,
    ops: Vec<PendingOp>,
}

impl PendingQueue {
    pub closed spec fn next_id_spec(&self) -> u64 {
        self.next_window_id
    }

    pub closed spec fn window_ids(&self) -> Seq<u64> {
        Seq::new(self.windows@.len(), |i: int| self.windows@[i].0)
    }

    pub closed spec fn ops_spec(&self) -> Seq<PendingOp> {
        self.ops@
    }

    /// The queued windows: each id with the settings it is built from.
    pub closed spec fn windows_spec(&self) -> Seq<(u64, WindowConfig)> {
        self.windows@
    }

    /// Window ids are handed out in increasing order, below the next one.
    pub closed spec fn wf(&self) -> bool {
        &&& 1 <= self.next_window_id
        &&& forall|i: int, j: int|
            0 <= i < j < self.windows@.len() ==> self.windows@[i].0 < self.windows@[j].0
        &&& forall|i: int| 0 <= i < self.windows@.len() ==> 1 <= #[trigger] self.windows@[i].0 < self.next_window_id
    }

    pub fn new() -> (r: Self)
        ensures
            r.wf(),
            r.next_id_spec() == 1,
            r.window_ids().len() == 0,
            r.windows_spec().len() == 0,
            r.ops_spec().len() == 0,
    {
        let r = PendingQueue { next_window_id: 1, windows: Vec::new(), ops: Vec::new() };
        proof {
            assert(r.window_ids() =~= Seq::<u64>::empty());
        }
        r
    }

    /// The id the next queued window gets.
    pub fn peek_next_id(&self) -> (r: u64)
        ensures
            r == self.next_id_spec(),
    {
        self.next_window_id
    }

    /// Queue a window for creation and return its id. Ids start at 1 and
    /// grow by one per window.
    pub fn create_window(&mut self, config: WindowConfig) -> (r: u64)
        requires
            old(self).wf(),
            old(self).next_id_spec() < u64::MAX,
        ensures
            final(self).wf(),
            r == old(self).next_id_spec(),
            final(self).next_id_spec() == r + 1,
            final(self).window_ids() == old(self).window_ids().push(r),
            final(self).windows_spec() == old(self).windows_spec().push((r, config)),
            final(self).ops_spec() == old(self).ops_spec(),
    {
        let id = self.next_window_id;
        self.next_window_id = id + 1;
        self.windows.push((id, config));
        proof {
            assert(self.window_ids() =~= old(self).window_ids().push(id));
        }
        id
    }

    /// Queue an operation.
    pub fn push(&mut self, op: PendingOp)
        requires
            old(self).wf(),
        ensures
            final(self).wf(),
            final(self).ops_spec() == old(self).ops_spec().push(op),
            final(self).window_ids() == old(self).window_ids(),
            final(self).windows_spec() == old(self).windows_spec(),
            final(self).next_id_spec() == old(self).next_id_spec(),
    {
        self.ops.push(op);
        proof {
            assert(self.window_ids() =~= old(self).window_ids());
        }
    }

    /// Hand the queued windows and operations to the event loop, leaving
    /// the queue empty; the id counter keeps counting.
    pub fn drain(&mut self) -> (r: (Vec<(u64, WindowConfig)>, Vec<PendingOp>))
        requires
            old(self).wf(),
        ensures
            final(self).wf(),
            Seq::new(r.0@.len(), |i: int| r.0@[i].0) == old(self).window_ids(),
            r.0@ == old(self).windows_spec(),
            r.1@ == old(self).ops_spec(),
            final(self).window_ids().len() == 0,
            final(self).windows_spec().len() == 0,
            final(self).ops_spec().len() == 0,
            final(self).next_id_spec() == old(self).next_id_spec(),
    {
        let mut windows: Vec<(u64, WindowConfig)> = Vec::new();
        std::mem::swap(&mut windows, &mut self.windows);
        let mut ops: Vec<PendingOp> = Vec::new();
        std::mem::swap(&mut ops, &mut self.ops);
        proof {
            assert(self.window_ids() =~= Seq::<u64>::empty());
            assert(Seq::new(windows@.len(), |i: int| windows@[i].0) =~= old(self).window_ids());
        }
        (windows, ops)
    }
}

/// Window ids handed out by one queue are distinct: each new one is larger
/// than every earlier one.
pub proof fn lemma_window_ids_distinct(q: PendingQueue)
    requires
        q.wf(),
    ensures
        forall|i: int, j: int|
            0 <= i < j < q.window_ids().len() ==> q.window_ids()[i] < q.window_ids()[j],
{
}

// ---------------------------------------------------------------------------
// Global hotkeys from configuration
// ---------------------------------------------------------------------------

/// A configured hotkey: the id it is registered under (its position in the
/// list, from 1) and its parsed combo or the parse error.
#[derive(Debug)]
pub struct HotkeyPlan {
    pub id: u32,
    pub hotkey: Result<Hotkey, String>,
}

/// One entry per configured hotkey, in order.
pub fn hotkey_plan(config: &AppConfig) -> (r: Vec<HotkeyPlan>)
    requires
        config.hotkeys@.len() <= u32::MAX,
    ensures
        r@.len() == config.hotkeys@.len(),
        forall|i: int|
            0 <= i < r@.len() ==> #[trigger] r@[i].id == i + 1 && match r@[i].hotkey {
                Ok(hk) => parse_hotkey_spec(config.hotkeys@[i].combo@) == Ok::<Hotkey, Seq<char>>(
                    hk,
                ),
                Err(e) => parse_hotkey_spec(config.hotkeys@[i].combo@) == Err::<Hotkey, Seq<char>>(
                    e@,
                ),
            },
{
    let mut r: Vec<HotkeyPlan> = Vec::new();
    let mut i: usize = 0;
    while i < config.hotkeys.len()
        invariant
            i <= config.hotkeys@.len(),
            config.hotkeys@.len() <= u32::MAX,
            r@.len() == i,
            forall|k: int|
                0 <= k < i ==> #[trigger] r@[k].id == k + 1 && match r@[k].hotkey {
                    Ok(hk) => parse_hotkey_spec(config.hotkeys@[k].combo@) == Ok::<
                        Hotkey,
                        Seq<char>,
                    >(hk),
                    Err(e) => parse_hotkey_spec(config.hotkeys@[k].combo@) == Err::<
                        Hotkey,
                        Seq<char>,
                    >(e@),
                },
        decreases config.hotkeys@.len() - i,
    {
        let parsed = Hotkey::parse(config.hotkeys[i].combo.as_str());
        let id: u32 = (i as u32) + 1;
        r.push(HotkeyPlan { id, hotkey: parsed });
        i = i + 1;
    }
    r
}

} // verus!
