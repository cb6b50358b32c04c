//! Renderer-independent pieces: which backend runs, resize edges, and the
//! `<base>` injection used when HTML is loaded from memory.

use crate::config::{RendererConfig, RendererKind as ConfigRendererKind};
use crate::text::{
    lemma_contains_middle, lemma_lower_concat, chars_of, contains_exec, contains_seq, find_char_from, find_from, find_from_exec,
    lemma_find_from_spec, lower_chars, lower_seq, matches_at, push_chars, push_str,
    string_from_chars,
};
use vstd::prelude::*;
use vstd::string::*;

verus! {

/// The kind of renderer in use.
#[derive(Debug, Clone, Copy, PartialEq, Eq, Structural)]
pub enum RendererKind {
    /// System WebView.
    WebView,
    /// Chromium driven through the DevTools protocol.
    Chrome,
}

pub open spec fn kind_of_config(kind: ConfigRendererKind) -> RendererKind {
    match kind {
        ConfigRendererKind::WebView => RendererKind::WebView,
        ConfigRendererKind::Chrome => RendererKind::Chrome,
    }
}

impl<'a> From<&'a ConfigRendererKind> for RendererKind {
    fn from(kind: &'a ConfigRendererKind) -> (r: Self) {
        match kind {
            ConfigRendererKind::WebView => RendererKind::WebView,
            ConfigRendererKind::Chrome => RendererKind::Chrome,
        }
    }
}

impl<'a> vstd::std_specs::convert::FromSpecImpl<&'a ConfigRendererKind> for RendererKind {
    open spec fn obeys_from_spec() -> bool {
        true
    }

    open spec fn from_spec(v: &'a ConfigRendererKind) -> RendererKind {
        kind_of_config(*v)
    }
}

impl<'a> From<&'a RendererConfig> for RendererKind {
    fn from(config: &'a RendererConfig) -> (r: Self) {
        match config.kind {
            ConfigRendererKind::WebView => RendererKind::WebView,
            ConfigRendererKind::Chrome => RendererKind::Chrome,
        }
    }
}

impl<'a> vstd::std_specs::convert::FromSpecImpl<&'a RendererConfig> for RendererKind {
    open spec fn obeys_from_spec() -> bool {
        true
    }

    open spec fn from_spec(v: &'a RendererConfig) -> RendererKind {
        kind_of_config(v.kind)
    }
}

/// Edge or corner for an interactive resize.
#[derive(Debug, Clone, Copy, PartialEq, Eq, Structural)]
pub enum ResizeEdge {
    Top,
    Bottom,
    Left,
    Right,
    TopLeft,
    TopRight,
    BottomLeft,
    BottomRight,
}

// ---------------------------------------------------------------------------
// Document base URL
// ---------------------------------------------------------------------------

/// The HTML attribute escape of one character.
pub open spec fn escape_char(c: char) -> Seq<char> {
    if c == '&' {
        "&amp;"@
    } else if c == '"' {
        "&quot;"@
    } else if c == '<' {
        "&lt;"@
    } else if c == '>' {
        "&gt;"@
    } else {
        seq![c]
    }
}

/// `&`, `"`, `<` and `>` replaced by their entities.
pub open spec fn escape_attr(s: Seq<char>) -> Seq<char>
    decreases s.len(),
{
    if s.len() == 0 {
        Seq::empty()
    } else {
        escape_attr(s.drop_last()) + escape_char(s.last())
    }
}

/// The escaped base URL, with a trailing `/` added when it has none.
pub open spec fn normalized_base(base: Seq<char>) -> Seq<char> {
    let e = escape_attr(base);
    if e.len() > 0 && e.last() == '/' {
        e
    } else {
        e.push('/')
    }
}

/// `<base href="...">` for the given base URL.
pub open spec fn base_tag(base: Seq<char>) -> Seq<char> {
    "<base href=\""@ + normalized_base(base) + "\">"@
}

/// The document already carries a `<base` element (in any letter case).
pub open spec fn has_base_tag(html: Seq<char>) -> bool {
    contains_seq(lower_seq(html), "<base "@) || contains_seq(lower_seq(html), "<base>"@)
}

/// What `html_with_base_url` returns.
pub open spec fn html_with_base_url_spec(html: Seq<char>, base: Seq<char>) -> Seq<char> {
    if has_base_tag(html) {
        html
    } else {
        match find_from(lower_seq(html), "<head"@, 0) {
            Some(h) => match find_from(html, seq!['>'], h) {
                Some(e) => html.take(e + 1) + seq!['\n'] + base_tag(base) + html.skip(e + 1),
                None => base_tag(base) + seq!['\n'] + html,
            },
            None => base_tag(base) + seq!['\n'] + html,
        }
    }
}

fn escape_attr_chars(v: &[char]) -> (r: Vec<char>)
    ensures
        r@ == escape_attr(v@),
{
    let mut r: Vec<char> = Vec::new();
    let mut i: usize = 0;
    while i < v.len()
        invariant
            i <= v@.len(),
            r@ == escape_attr(v@.take(i as int)),
        decreases v@.len() - i,
    {
        let c = v[i];
        let ghost before = r@;
        if c == '&' {
            r.push('&');
            r.push('a');
            r.push('m');
            r.push('p');
            r.push(';');
        } else if c == '"' {
            r.push('&');
            r.push('q');
            r.push('u');
            r.push('o');
            r.push('t');
            r.push(';');
        } else if c == '<' {
            r.push('&');
            r.push('l');
            r.push('t');
            r.push(';');
        } else if c == '>' {
            r.push('&');
            r.push('g');
            r.push('t');
            r.push(';');
        } else {
            r.push(c);
        }
        proof {
            reveal_strlit("&amp;");
            reveal_strlit("&quot;");
            reveal_strlit("&lt;");
            reveal_strlit("&gt;");
            assert(v@.take(i + 1).drop_last() =~= v@.take(i as int));
            assert(r@ =~= before + escape_char(c));
        }
        i = i + 1;
    }
    proof {
        assert(v@.take(v@.len() as int) =~= v@);
    }
    r
}

/// Add a document base URL while preserving a base tag the caller wrote.
///
/// The base URL is attribute-escaped and given a trailing `/`; the tag goes
/// on a new line right after the opening `<head ...>` tag, or in front of the
/// document when it has no head.
pub fn html_with_base_url(html: &str, base_url: &str) -> (r: String)
    ensures
        r@ == html_with_base_url_spec(html@, base_url@),
{
    let h = chars_of(html);
    let lower = lower_chars(h.as_slice());
    let base_sp = chars_of("<base ");
    let base_gt = chars_of("<base>");
    if contains_exec(lower.as_slice(), base_sp.as_slice()) || contains_exec(
        lower.as_slice(),
        base_gt.as_slice(),
    ) {
        return string_from_chars(h.as_slice());
    }
    let b = chars_of(base_url);
    let mut normalized = escape_attr_chars(b.as_slice());
    let n = normalized.len();
    if !(n > 0 && normalized[n - 1] == '/') {
        normalized.push('/');
    }
    let mut tag = String::new();
    push_str(&mut tag, "<base href=\"");
    push_chars(&mut tag, normalized.as_slice());
    push_str(&mut tag, "\">");
    let tag_chars = chars_of(tag.as_str());
    proof {
        assert(tag_chars@ =~= base_tag(base_url@));
    }
    let head = chars_of("<head");
    let mut out = String::new();
    match find_from_exec(lower.as_slice(), head.as_slice(), 0) {
        Some(hs) => {
            proof {
                lemma_find_from_spec(lower@, head@, 0);
            }
            match find_char_from(h.as_slice(), '>', hs) {
                Some(e) => {
                    proof {
                        lemma_find_from_spec(h@, seq!['>'], hs as int);
                    }
                    let mut i: usize = 0;
                    while i <= e
                        invariant
                            e < h@.len(),
                            e < h.len(),
                            i <= e + 1,
                            out@ == h@.take(i as int),
                        decreases e + 1 - i,
                    {
                        out.push(h[i]);
                        proof {
                            assert(h@.take(i + 1) =~= h@.take(i as int).push(h@[i as int]));
                        }
                        i = i + 1;
                    }
                    out.push('\n');
                    push_chars(&mut out, tag_chars.as_slice());
                    let mut j: usize = e + 1;
                    let ghost mid = out@;
                    while j < h.len()
                        invariant
                            e + 1 <= j <= h@.len(),
                            out@ == mid + h@.subrange(e + 1, j as int),
                        decreases h@.len() - j,
                    {
                        out.push(h[j]);
                        proof {
                            assert(h@.subrange(e + 1, j + 1) =~= h@.subrange(
                                e + 1,
                                j as int,
                            ).push(h@[j as int]));
                        }
                        j = j + 1;
                    }
                    proof {
                        assert(h@.subrange(e + 1, h@.len() as int) =~= h@.skip(e + 1));
                        assert(out@ =~= h@.take(e + 1) + seq!['\n'] + base_tag(base_url@)
                            + h@.skip(e + 1));
                    }
                    return out;
                },
                None => {},
            }
        },
        None => {},
    }
    push_chars(&mut out, tag_chars.as_slice());
    out.push('\n');
    push_chars(&mut out, h.as_slice());
    proof {
        assert(out@ =~= base_tag(base_url@) + seq!['\n'] + html@);
    }
    out
}

/// The characters of `<base ` are their own lower case.
proof fn lemma_base_tag_lower(base: Seq<char>)
    ensures
        lower_seq(base_tag(base)).take(6) == "<base "@,
        lower_seq(base_tag(base)).len() >= 6,
{
    reveal_strlit("<base href=\"");
    reveal_strlit("<base ");
    let t = base_tag(base);
    assert(t.take(6) =~= "<base "@);
    assert(lower_seq(t).take(6) =~= lower_seq(t.take(6)));
    assert(lower_seq(t.take(6)) =~= "<base "@);
}

proof fn lemma_lower_has_base(a: Seq<char>, base: Seq<char>, c: Seq<char>)
    ensures
        has_base_tag(a + base_tag(base) + c),
{
    let t = base_tag(base);
    lemma_lower_concat(a + t, c);
    lemma_lower_concat(a, t);
    lemma_base_tag_lower(base);
    let lt = lower_seq(t);
    assert(lt.take(6) + lt.skip(6) =~= lt);
    assert(lt =~= "<base "@ + lt.skip(6));
    assert(lower_seq(a + t + c) =~= lower_seq(a) + "<base "@ + (lt.skip(6) + lower_seq(c)));
    lemma_contains_middle(lower_seq(a), "<base "@, lt.skip(6) + lower_seq(c));
}

/// Adding a base URL twice is the same as adding it once: the first call
/// writes a `<base>` tag, which every later call keeps.
pub proof fn lemma_base_injection_idempotent(html: Seq<char>, base: Seq<char>, other: Seq<char>)
    ensures
        html_with_base_url_spec(html_with_base_url_spec(html, base), other)
            == html_with_base_url_spec(html, base),
        has_base_tag(html_with_base_url_spec(html, base)),
{
    if !has_base_tag(html) {
        let t = base_tag(base);
        match find_from(lower_seq(html), "<head"@, 0) {
            Some(h) => match find_from(html, seq!['>'], h) {
                Some(e) => {
                    lemma_lower_has_base(html.take(e + 1) + seq!['\n'], base, html.skip(e + 1));
                },
                None => {
                    lemma_lower_has_base(Seq::empty(), base, seq!['\n'] + html);
                    assert(Seq::<char>::empty() + t + (seq!['\n'] + html) =~= t + seq!['\n'] + html);
                },
            },
            None => {
                lemma_lower_has_base(Seq::empty(), base, seq!['\n'] + html);
                assert(Seq::<char>::empty() + t + (seq!['\n'] + html) =~= t + seq!['\n'] + html);
            },
        }
    }
}

/// `r` is `html` with `ins` put in at index `i`, and taking `ins` out of
/// `r` gives `html` back.
pub open spec fn inserted_at(html: Seq<char>, r: Seq<char>, i: int, ins: Seq<char>) -> bool {
    &&& 0 <= i <= html.len()
    &&& r == html.take(i) + ins + html.skip(i)
    &&& r.take(i) + r.skip(i + ins.len()) == html
}

/// On a page without a `<base>` element, adding a base URL inserts one
/// piece and changes nothing else: a line break and the tag right after
/// the opening `<head ...>` tag, or the tag and a line break in front of
/// the page. Taking that piece out gives the page back.
pub proof fn lemma_base_injection_inserts_one_piece(html: Seq<char>, base: Seq<char>)
    requires
        !has_base_tag(html),
    ensures
        exists|i: int, ins: Seq<char>|
            (ins == seq!['\n'] + base_tag(base) || (i == 0 && ins == base_tag(base) + seq!['\n']))
                && #[trigger] inserted_at(html, html_with_base_url_spec(html, base), i, ins),
{
    let t = base_tag(base);
    let r = html_with_base_url_spec(html, base);
    lemma_find_from_spec(lower_seq(html), "<head"@, 0);
    match find_from(lower_seq(html), "<head"@, 0) {
        Some(h) => {
            lemma_find_from_spec(html, seq!['>'], h);
            match find_from(html, seq!['>'], h) {
                Some(e) => {
                    let i = e + 1;
                    let ins = seq!['\n'] + t;
                    assert(r =~= html.take(i) + ins + html.skip(i));
                    assert(r.take(i) =~= html.take(i));
                    assert(r.skip(i + ins.len()) =~= html.skip(i));
                    assert(html.take(i) + html.skip(i) =~= html);
                    assert(inserted_at(html, r, i, ins));
                },
                None => {
                    let ins = t + seq!['\n'];
                    assert(r =~= html.take(0) + ins + html.skip(0));
                    assert(r.skip(ins.len() as int) =~= html);
                    assert(r.take(0) + r.skip((0 + ins.len()) as int) =~= html);
                    assert(inserted_at(html, r, 0, ins));
                },
            }
        },
        None => {
            let ins = t + seq!['\n'];
            assert(r =~= html.take(0) + ins + html.skip(0));
            assert(r.skip(ins.len() as int) =~= html);
            assert(r.take(0) + r.skip((0 + ins.len()) as int) =~= html);
            assert(inserted_at(html, r, 0, ins));
        },
    }
}

} // verus!
