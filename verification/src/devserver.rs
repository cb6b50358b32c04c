//! Decisions of the browser development server: which frontend file a
//! request names, how the bridge script gets into HTML pages, content
//! types, the published native screenshots, and what happens to a running
//! recording at shutdown.

use crate::recording::{is_active, opt_str, RecordingSnapshot, RecordingStatus};
use crate::text::{
    lemma_contains_middle, decimal, push_decimal, from_utf8_lossy, utf8_lossy, chars_of, contains_exec, contains_seq, find_from, find_from_exec, lemma_find_from_spec,
    lower_chars, lower_seq, push_chars, push_str, str_eq, string_from_chars,
};
use vstd::prelude::*;
use vstd::string::*;

verus! {

/// Largest screenshot frame accepted from a renderer, in bytes.
pub const MAX_SCREENSHOT_BYTES: usize = 16777216;

/// The script tag that loads the bridge.
pub open spec fn bridge_tag() -> Seq<char> {
    "<script src=\"/__rdesktop__/bridge.js\"></script>"@
}

// ---------------------------------------------------------------------------
// Frontend paths
// ---------------------------------------------------------------------------

/// `s` without its leading `/` characters.
pub open spec fn strip_slashes(s: Seq<char>) -> Seq<char>
    decreases s.len(),
{
    if s.len() > 0 && s[0] == '/' {
        strip_slashes(s.skip(1))
    } else {
        s
    }
}

/// One of the `/`-separated segments of `s` is `..`.
pub open spec fn has_parent_segment(s: Seq<char>) -> bool {
    exists|i: int| #[trigger] parent_segment_starts(s, i)
}

/// A `..` segment starts at index `i` of `s`.
pub open spec fn parent_segment_starts(s: Seq<char>, i: int) -> bool {
    0 <= i && i + 2 <= s.len() && s[i] == '.' && s[i + 1] == '.' && (i == 0 || s[i - 1] == '/')
        && (i + 2 == s.len() || s[i + 2] == '/')
}

/// The frontend file a request path names, relative to the frontend
/// directory: `index.html` for the root; `None` for a path that climbs out
/// with `..` or holds a backslash.
pub open spec fn frontend_relative_spec(path: Seq<char>) -> Option<Seq<char>> {
    let rel = strip_slashes(path);
    if has_parent_segment(rel) || rel.contains('\\') {
        None
    } else if rel.len() == 0 {
        Some("index.html"@)
    } else {
        Some(rel)
    }
}

fn parent_segment_at(s: &[char], i: usize) -> (r: bool)
    requires
        i + 2 <= s@.len(),
    ensures
        r == parent_segment_starts(s@, i as int),
{
    s[i] == '.' && s[i + 1] == '.' && (i == 0 || s[i - 1] == '/') && (i + 2 == s.len() || s[i
        + 2] == '/')
}

/// The frontend file a request path names; `None` means the request is
/// refused as an invalid path.
pub fn frontend_relative_path(request_path: &str) -> (r: Option<String>)
    ensures
        match r {
            Some(p) => frontend_relative_spec(request_path@) == Some(p@),
            None => frontend_relative_spec(request_path@) is None,
        },
{
    let v = chars_of(request_path);
    let mut a: usize = 0;
    proof {
        assert(v@.skip(0) =~= v@);
    }
    while a < v.len() && v[a] == '/'
        invariant
            a <= v@.len(),
            strip_slashes(v@.skip(a as int)) == strip_slashes(v@),
        decreases v@.len() - a,
    {
        proof {
            assert(v@.skip(a as int).skip(1) =~= v@.skip(a + 1));
        }
        a = a + 1;
    }
    let mut rel: Vec<char> = Vec::new();
    let mut i: usize = a;
    while i < v.len()
        invariant
            a <= i <= v@.len(),
            rel@ == v@.subrange(a as int, i as int),
        decreases v@.len() - i,
    {
        rel.push(v[i]);
        proof {
            assert(v@.subrange(a as int, i + 1) =~= v@.subrange(a as int, i as int).push(v@[i as int]));
        }
        i = i + 1;
    }
    proof {
        assert(rel@ =~= v@.skip(a as int));
        if a < v@.len() {
            assert(v@.skip(a as int)[0] == v@[a as int]);
        }
        assert(strip_slashes(v@.skip(a as int)) == v@.skip(a as int));
        assert(rel@ == strip_slashes(request_path@));
    }
    let mut j: usize = 0;
    while j < rel.len()
        invariant
            j <= rel@.len(),
            rel@ == strip_slashes(request_path@),
            forall|k: int| 0 <= k < j ==> rel@[k] != '\\',
            forall|k: int| 0 <= k < j ==> !#[trigger] parent_segment_starts(rel@, k),
        decreases rel@.len() - j,
    {
        if rel[j] == '\\' {
            proof {
                assert(rel@.contains('\\'));
            }
            return None;
        }
        if rel.len() >= 2 && j <= rel.len() - 2 && parent_segment_at(rel.as_slice(), j) {
            proof {
                assert(has_parent_segment(rel@));
            }
            return None;
        }
        j = j + 1;
    }
    proof {
        assert(!rel@.contains('\\'));
        assert(!has_parent_segment(rel@));
    }
    if rel.len() == 0 {
        Some(String::from_str("index.html"))
    } else {
        Some(string_from_chars(rel.as_slice()))
    }
}

/// The file is served as HTML: its extension is `html` in any letter case.
pub fn is_html_extension(extension: Option<&str>) -> (r: bool)
    ensures
        r == match extension {
            Some(e) => lower_seq(e@) == "html"@,
            None => false,
        },
{
    match extension {
        Some(e) => {
            let v = chars_of(e);
            let l = lower_chars(v.as_slice());
            crate::text::chars_eq_str(l.as_slice(), "html")
        },
        None => false,
    }
}

// ---------------------------------------------------------------------------
// Bridge injection
// ---------------------------------------------------------------------------

/// An HTML page with the bridge script: unchanged when it already loads the
/// bridge, else the script tag goes right before the first `</head>` (in any
/// letter case), or in front of the page when there is none.
pub open spec fn inject_bridge_spec(html: Seq<char>) -> Seq<char> {
    if contains_seq(html, "/__rdesktop__/bridge.js"@) {
        html
    } else {
        match find_from(lower_seq(html), "</head>"@, 0) {
            Some(i) => html.take(i) + bridge_tag() + html.skip(i),
            None => bridge_tag() + html,
        }
    }
}

pub fn inject_bridge(html: &str) -> (r: String)
    ensures
        r@ == inject_bridge_spec(html@),
{
    let h = chars_of(html);
    let marker = chars_of("/__rdesktop__/bridge.js");
    if contains_exec(h.as_slice(), marker.as_slice()) {
        return string_from_chars(h.as_slice());
    }
    let lower = lower_chars(h.as_slice());
    let head_end = chars_of("</head>");
    let mut out = String::new();
    match find_from_exec(lower.as_slice(), head_end.as_slice(), 0) {
        Some(i) => {
            proof {
                lemma_find_from_spec(lower@, head_end@, 0);
            }
            let mut k: usize = 0;
            while k < i
                invariant
                    i <= h@.len(),
                    k <= i,
                    out@ == h@.take(k as int),
                decreases i - k,
            {
                out.push(h[k]);
                proof {
                    assert(h@.take(k + 1) =~= h@.take(k as int).push(h@[k as int]));
                }
                k = k + 1;
            }
            push_str(&mut out, "<script src=\"/__rdesktop__/bridge.js\"></script>");
            let ghost mid = out@;
            let mut j: usize = i;
            while j < h.len()
                invariant
                    i <= j <= h@.len(),
                    out@ == mid + h@.subrange(i as int, j as int),
                decreases h@.len() - j,
            {
                out.push(h[j]);
                proof {
                    assert(h@.subrange(i as int, j + 1) =~= h@.subrange(i as int, j as int).push(
                        h@[j as int],
                    ));
                }
                j = j + 1;
            }
            proof {
                assert(h@.subrange(i as int, h@.len() as int) =~= h@.skip(i as int));
                assert(out@ =~= h@.take(i as int) + bridge_tag() + h@.skip(i as int));
            }
            out
        },
        None => {
            push_str(&mut out, "<script src=\"/__rdesktop__/bridge.js\"></script>");
            push_chars(&mut out, h.as_slice());
            out
        },
    }
}

/// The body served for a frontend file.
#[derive(Debug, Clone)]
pub enum FrontendBody {
    /// An HTML page, with the bridge script in it.
    Html(String),
    /// Any other file, as read.
    Raw(Vec<u8>),
}

/// The body served for a frontend file's bytes.
pub fn frontend_body(bytes: Vec<u8>, is_html: bool) -> (r: FrontendBody)
    ensures
        is_html ==> (r matches FrontendBody::Html(h) && h@ == inject_bridge_spec(
            utf8_lossy(bytes@),
        )),
        !is_html ==> (r matches FrontendBody::Raw(b) && b@ == bytes@),
{
    if is_html {
        let text = from_utf8_lossy(bytes.as_slice());
        FrontendBody::Html(inject_bridge(text.as_str()))
    } else {
        FrontendBody::Raw(bytes)
    }
}

// ---------------------------------------------------------------------------
// Content types
// ---------------------------------------------------------------------------

/// The content type the dev server sends for a file extension.
pub open spec fn dev_content_type_spec(ext: Seq<char>) -> Seq<char> {
    if ext == "html"@ {
        "text/html; charset=utf-8"@
    } else if ext == "js"@ {
        "text/javascript; charset=utf-8"@
    } else if ext == "css"@ {
        "text/css; charset=utf-8"@
    } else if ext == "json"@ {
        "application/json"@
    } else if ext == "svg"@ {
        "image/svg+xml"@
    } else if ext == "png"@ {
        "image/png"@
    } else if ext == "jpg"@ || ext == "jpeg"@ {
        "image/jpeg"@
    } else if ext == "webp"@ {
        "image/webp"@
    } else if ext == "wasm"@ {
        "application/wasm"@
    } else {
        "application/octet-stream"@
    }
}

/// Law: the content type the dev server sends for each extension: HTML,
/// JavaScript and CSS as UTF-8 text, JSON, SVG, PNG, JPEG (`jpg`, `jpeg`),
/// WebP and WebAssembly by their media types, anything else as
/// `application/octet-stream`.
pub proof fn lemma_dev_content_types(ext: Seq<char>)
    ensures
        dev_content_type_spec("html"@) == "text/html; charset=utf-8"@,
        dev_content_type_spec("js"@) == "text/javascript; charset=utf-8"@,
        dev_content_type_spec("css"@) == "text/css; charset=utf-8"@,
        dev_content_type_spec("json"@) == "application/json"@,
        dev_content_type_spec("svg"@) == "image/svg+xml"@,
        dev_content_type_spec("png"@) == "image/png"@,
        dev_content_type_spec("jpg"@) == "image/jpeg"@,
        dev_content_type_spec("jpeg"@) == "image/jpeg"@,
        dev_content_type_spec("webp"@) == "image/webp"@,
        dev_content_type_spec("wasm"@) == "application/wasm"@,
        ext != "html"@ && ext != "js"@ && ext != "css"@ && ext != "json"@ && ext != "svg"@ && ext != "png"@ && ext != "jpg"@ && ext != "jpeg"@ && ext != "webp"@ && ext != "wasm"@ ==> dev_content_type_spec(ext) == "application/octet-stream"@,
{
    reveal_strlit("html");
    reveal_strlit("js");
    reveal_strlit("css");
    reveal_strlit("json");
    reveal_strlit("svg");
    reveal_strlit("png");
    reveal_strlit("jpg");
    reveal_strlit("jpeg");
    reveal_strlit("webp");
    reveal_strlit("wasm");
    assert("html"@.len() == 4 && "html"@[0] == 'h' && "html"@[1] == 't' && "html"@[2] == 'm' && "html"@[3] == 'l');
    assert("js"@.len() == 2 && "js"@[0] == 'j' && "js"@[1] == 's');
    assert("css"@.len() == 3 && "css"@[0] == 'c' && "css"@[1] == 's' && "css"@[2] == 's');
    assert("json"@.len() == 4 && "json"@[0] == 'j' && "json"@[1] == 's' && "json"@[2] == 'o' && "json"@[3] == 'n');
    assert("svg"@.len() == 3 && "svg"@[0] == 's' && "svg"@[1] == 'v' && "svg"@[2] == 'g');
    assert("png"@.len() == 3 && "png"@[0] == 'p' && "png"@[1] == 'n' && "png"@[2] == 'g');
    assert("jpg"@.len() == 3 && "jpg"@[0] == 'j' && "jpg"@[1] == 'p' && "jpg"@[2] == 'g');
    assert("jpeg"@.len() == 4 && "jpeg"@[0] == 'j' && "jpeg"@[1] == 'p' && "jpeg"@[2] == 'e' && "jpeg"@[3] == 'g');
    assert("webp"@.len() == 4 && "webp"@[0] == 'w' && "webp"@[1] == 'e' && "webp"@[2] == 'b' && "webp"@[3] == 'p');
    assert("wasm"@.len() == 4 && "wasm"@[0] == 'w' && "wasm"@[1] == 'a' && "wasm"@[2] == 's' && "wasm"@[3] == 'm');
}

/// The content type for a file extension (empty when the file has none).
pub fn content_type(extension: &str) -> (r: &'static str)
    ensures
        r@ == dev_content_type_spec(extension@),
{
    if str_eq(extension, "html") {
        "text/html; charset=utf-8"
    } else if str_eq(extension, "js") {
        "text/javascript; charset=utf-8"
    } else if str_eq(extension, "css") {
        "text/css; charset=utf-8"
    } else if str_eq(extension, "json") {
        "application/json"
    } else if str_eq(extension, "svg") {
        "image/svg+xml"
    } else if str_eq(extension, "png") {
        "image/png"
    } else if str_eq(extension, "jpg") || str_eq(extension, "jpeg") {
        "image/jpeg"
    } else if str_eq(extension, "webp") {
        "image/webp"
    } else if str_eq(extension, "wasm") {
        "application/wasm"
    } else {
        "application/octet-stream"
    }
}

// ---------------------------------------------------------------------------
// Published screenshots
// ---------------------------------------------------------------------------

/// A complete PNG frame published by a native renderer.
#[derive(Debug, Clone)]
pub struct PublishedScreenshot {
    pub generation: u64,
    pub png: Vec<u8>,
}

/// The frames a native renderer published: a counter of accepted frames
/// and the latest one.
pub struct ScreenshotFrames {
    next_generation: u64,
    latest: Option<PublishedScreenshot>,
}

/// The abstract state of the published frames.
pub struct FramesModel {
    pub generation: u64,
    pub latest: Option<(u64, Seq<u8>)>,
}

pub open spec fn frame_view(f: Option<PublishedScreenshot>) -> Option<(u64, Seq<u8>)> {
    match f {
        Some(p) => Some((p.generation, p.png@)),
        None => None,
    }
}

/// A frame is accepted when it is neither empty nor larger than the limit.
pub open spec fn frame_acceptable(png: Seq<u8>) -> bool {
    0 < png.len() <= MAX_SCREENSHOT_BYTES
}

pub open spec fn wrapping_inc(g: u64) -> u64 {
    if g == u64::MAX {
        0
    } else {
        (g + 1) as u64
    }
}

pub open spec fn saturating_inc(g: u64) -> u64 {
    if g == u64::MAX {
        u64::MAX
    } else {
        (g + 1) as u64
    }
}

/// The state after a publish request.
pub open spec fn publish_spec(m: FramesModel, png: Seq<u8>) -> FramesModel {
    if frame_acceptable(png) {
        FramesModel {
            generation: wrapping_inc(m.generation),
            latest: Some((saturating_inc(m.generation), png)),
        }
    } else {
        m
    }
}

impl View for ScreenshotFrames {
    type V = FramesModel;

    closed spec fn view(&self) -> FramesModel {
        FramesModel { generation: self.next_generation, latest: frame_view(self.latest) }
    }
}

impl ScreenshotFrames {
    pub fn new() -> (r: Self)
        ensures
            r@.generation == 0,
            r@.latest is None,
    {
        ScreenshotFrames { next_generation: 0, latest: None }
    }

    /// Publish a complete PNG frame. Empty or oversized frames are refused
    /// and change nothing; the result says whether the frame was taken.
    pub fn publish_png(&mut self, png: &[u8]) -> (r: bool)
        ensures
            r == frame_acceptable(png@),
            final(self)@ == publish_spec(old(self)@, png@),
    {
        if png.len() == 0 || png.len() > MAX_SCREENSHOT_BYTES {
            return false;
        }
        let old_gen = self.next_generation;
        self.next_generation = old_gen.wrapping_add(1);
        let generation = old_gen.saturating_add(1);
        let mut bytes: Vec<u8> = Vec::new();
        let mut i: usize = 0;
        while i < png.len()
            invariant
                i <= png@.len(),
                bytes@ == png@.take(i as int),
            decreases png@.len() - i,
        {
            bytes.push(png[i]);
            proof {
                assert(png@.take(i + 1) =~= png@.take(i as int).push(png@[i as int]));
            }
            i = i + 1;
        }
        proof {
            assert(png@.take(png@.len() as int) =~= png@);
        }
        self.latest = Some(PublishedScreenshot { generation, png: bytes });
        true
    }

    /// How many frames were accepted (wrapping at `u64::MAX`).
    pub fn generation(&self) -> (r: u64)
        ensures
            r == self@.generation,
    {
        self.next_generation
    }

    /// The latest accepted frame.
    pub fn latest(&self) -> (r: Option<PublishedScreenshot>)
        ensures
            frame_view(r) == self@.latest,
    {
        match &self.latest {
            Some(f) => Some(PublishedScreenshot { generation: f.generation, png: f.png.clone() }),
            None => None,
        }
    }

    /// The latest frame when it is newer than `after_generation`; a waiter
    /// for the next frame returns this as soon as it is `Some`.
    pub fn newer_than(&self, after_generation: u64) -> (r: Option<PublishedScreenshot>)
        ensures
            frame_view(r) == match self@.latest {
                Some((g, p)) => if g > after_generation {
                    Some((g, p))
                } else {
                    None
                },
                None => None,
            },
    {
        match &self.latest {
            Some(f) => {
                if f.generation > after_generation {
                    Some(PublishedScreenshot { generation: f.generation, png: f.png.clone() })
                } else {
                    None
                }
            },
            None => None,
        }
    }
}

/// Frames are numbered by how many were accepted: after an accepted frame
/// the counter moves by one and the latest frame carries the new count;
/// a refused frame leaves both alone.
pub proof fn lemma_publish_numbers_frames(m: FramesModel, png: Seq<u8>)
    requires
        m.generation < u64::MAX,
    ensures
        frame_acceptable(png) ==> publish_spec(m, png).generation == m.generation + 1
            && publish_spec(m, png).latest == Some(((m.generation + 1) as u64, png)),
        !frame_acceptable(png) ==> publish_spec(m, png) == m,
{
}

/// A waiter for a frame after the current generation sees the next
/// accepted frame.
pub proof fn lemma_next_frame_is_newer(m: FramesModel, png: Seq<u8>)
    requires
        m.generation < u64::MAX,
        frame_acceptable(png),
    ensures
        publish_spec(m, png).latest matches Some((g, p)) && g > m.generation && p == png,
{
}

// ---------------------------------------------------------------------------
// Shutdown
// ---------------------------------------------------------------------------

/// What shutting the server down does to the recording.
#[derive(Debug, Clone)]
pub enum ShutdownAction {
    /// Nothing is running.
    Nothing,
    /// Finalize the native recording of this session.
    StopNative(String),
    /// Discard the browser recording of this session.
    FailBrowser(String),
}

/// A running native recording is finalized, a running browser recording
/// is marked failed, and anything else is left alone.
pub fn shutdown_action(snapshot: &RecordingSnapshot) -> (r: ShutdownAction)
    ensures
        match opt_str(snapshot.session_id) {
            None => r is Nothing,
            Some(id) => if is_active(snapshot.status) {
                if snapshot.native {
                    r matches ShutdownAction::StopNative(s) && s@ == id
                } else {
                    r matches ShutdownAction::FailBrowser(s) && s@ == id
                }
            } else {
                r is Nothing
            },
        },
{
    match &snapshot.session_id {
        None => ShutdownAction::Nothing,
        Some(id) => match snapshot.status {
            RecordingStatus::Recording | RecordingStatus::StopRequested
            | RecordingStatus::Finalizing => {
                if snapshot.native {
                    ShutdownAction::StopNative(id.clone())
                } else {
                    ShutdownAction::FailBrowser(id.clone())
                }
            },
            _ => ShutdownAction::Nothing,
        },
    }
}

/// The message a browser recording fails with at shutdown.
pub fn shutdown_failure_message() -> (r: String)
    ensures
        r@ == "dev server shut down before browser recording finalized"@,
{
    String::from_str("dev server shut down before browser recording finalized")
}

// ---------------------------------------------------------------------------
// Address and hot reload
// ---------------------------------------------------------------------------

/// The address the server binds, `host:port`, and its URL.
pub fn dev_server_address(host: &str, port: u16) -> (r: (String, String))
    ensures
        r.0@ == host@ + ":"@ + decimal(port as nat),
        r.1@ == "http://"@ + host@ + ":"@ + decimal(port as nat),
{
    let mut addr = String::new();
    push_str(&mut addr, host);
    push_str(&mut addr, ":");
    push_decimal(&mut addr, port as u64);
    let mut url = String::new();
    push_str(&mut url, "http://");
    push_str(&mut url, addr.as_str());
    (addr, url)
}

/// One poll of the frontend files: a changed signature is remembered and
/// moves the reload generation on by one (wrapping); an unchanged one
/// changes nothing. Returns the new signature and generation.
pub fn reload_step(previous: u64, current: u64, generation: u64) -> (r: (u64, u64))
    ensures
        previous == current ==> r == (previous, generation),
        previous != current ==> r == (current, wrapping_inc(generation)),
{
    if previous != current {
        (current, generation.wrapping_add(1))
    } else {
        (previous, generation)
    }
}

/// Injecting the bridge twice is the same as injecting it once: the tag it
/// adds names the bridge script, which later calls find.
pub proof fn lemma_bridge_injection_idempotent(html: Seq<char>)
    ensures
        inject_bridge_spec(inject_bridge_spec(html)) == inject_bridge_spec(html),
        contains_seq(inject_bridge_spec(html), "/__rdesktop__/bridge.js"@),
{
    let m = "/__rdesktop__/bridge.js"@;
    reveal_strlit("<script src=\"/__rdesktop__/bridge.js\"></script>");
    reveal_strlit("/__rdesktop__/bridge.js");
    let t = bridge_tag();
    assert(t =~= "<script src=\""@ + m + "\"></script>"@) by {
        reveal_strlit("<script src=\"");
        reveal_strlit("\"></script>");
    }
    if !contains_seq(html, m) {
        match find_from(lower_seq(html), "</head>"@, 0) {
            Some(i) => {
                let pre = html.take(i) + "<script src=\""@;
                let post = "\"></script>"@ + html.skip(i);
                assert(html.take(i) + t + html.skip(i) =~= pre + m + post);
                lemma_contains_middle(pre, m, post);
            },
            None => {
                let pre = "<script src=\""@;
                let post = "\"></script>"@ + html;
                assert(t + html =~= pre + m + post);
                lemma_contains_middle(pre, m, post);
            },
        }
    }
}

} // verus!
