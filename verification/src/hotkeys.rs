//! Global hotkeys: modifier sets, keys, and the `"Ctrl+Shift+K"` combo
//! notation, together with the bookkeeping of registered hotkeys.
//!
//! The combo notation is parsed case-insensitively: `+`-separated tokens,
//! each trimmed of white space, where `Ctrl`/`Control`, `Alt`/`Option`,
//! `Shift` and `Meta`/`Win`/`Cmd`/`Super`/`Command` name modifiers and any
//! other token names the primary key.
use std::collections::HashMap;
use std::sync::Arc;
use vstd::prelude::*;
use vstd::string::*;
use crate::error::RdesktopError;
use crate::hotkeys_win::{has_vk, key_to_vk, key_to_vk_spec, mods_to_raw, mods_to_raw_spec};
use crate::platform::TargetOs;

use crate::text::{
    ascii_lower, ascii_upper, chars_eq_str, chars_of, decimal, digit_char, is_ascii_digit, is_ascii_lower, is_ws, all_ws, lemma_trim_ignores_blanks,
    is_ascii_upper, lower_char, lower_chars, lower_seq, push_chars, push_decimal, push_str, trim, trim_chars,
    upper_char,
};

verus! {

// ---------------------------------------------------------------------------
// Modifiers
// ---------------------------------------------------------------------------

/// Active modifier keys for a hotkey or an input event.
#[derive(Debug, Clone, Copy, PartialEq, Eq, Structural)]
pub struct Modifiers {
    pub ctrl: bool,
    pub alt: bool,
    pub shift: bool,
    /// Windows key (Win) on Windows, Command on macOS.
    pub meta: bool,
}

pub open spec fn no_modifiers() -> Modifiers {
    Modifiers { ctrl: false, alt: false, shift: false, meta: false }
}

impl Default for Modifiers {
    fn default() -> (r: Self)
        ensures
            r == no_modifiers(),
    {
        Modifiers { ctrl: false, alt: false, shift: false, meta: false }
    }
}

impl Modifiers {
    /// No modifier is held.
    pub fn is_empty(&self) -> (r: bool)
        ensures
            r == !(self.ctrl || self.alt || self.shift || self.meta),
    {
        !(self.ctrl || self.alt || self.shift || self.meta)
    }

    /// Build from a Windows `MOD_*` bitmask (`MOD_ALT` 1, `MOD_CONTROL` 2,
    /// `MOD_SHIFT` 4, `MOD_WIN` 8).
    pub fn from_raw_win(m: u32) -> (r: Self)
        ensures
            r.ctrl == (m & 0x0002 != 0),
            r.alt == (m & 0x0001 != 0),
            r.shift == (m & 0x0004 != 0),
            r.meta == (m & 0x0008 != 0),
    {
        Modifiers {
            ctrl: m & 0x0002 != 0,
            alt: m & 0x0001 != 0,
            shift: m & 0x0004 != 0,
            meta: m & 0x0008 != 0,
        }
    }

    /// Build from a macOS `CGEventFlags` bitmask (Command `0x100000`, Shift
    /// `0x20000`, Alternate `0x80000`, Control `0x40000`).
    pub fn from_raw_mac(f: u64) -> (r: Self)
        ensures
            r.ctrl == (f & 0x40000 != 0),
            r.alt == (f & 0x80000 != 0),
            r.shift == (f & 0x20000 != 0),
            r.meta == (f & 0x100000 != 0),
    {
        Modifiers {
            ctrl: f & 0x40000 != 0,
            alt: f & 0x80000 != 0,
            shift: f & 0x20000 != 0,
            meta: f & 0x100000 != 0,
        }
    }
}

// ---------------------------------------------------------------------------
// Keys
// ---------------------------------------------------------------------------

/// A platform-independent key.
#[derive(Debug, Clone, Copy, PartialEq, Eq, Structural)]
pub enum Key {
    Letter(char),
    Digit(u8),
    F(u8),
    Space,
    Enter,
    Escape,
    Tab,
    Backspace,
    Delete,
    ArrowUp,
    ArrowDown,
    ArrowLeft,
    ArrowRight,
    Home,
    End,
    PageUp,
    PageDown,
    Insert,
    PrintScreen,
}

/// The keys that the token parser can produce: lower-case ASCII letters,
/// the digits 0 to 9 and the function keys F1 to F24.
pub open spec fn valid_key(k: Key) -> bool {
    match k {
        Key::Letter(c) => is_ascii_lower(c),
        Key::Digit(d) => d <= 9,
        Key::F(n) => 1 <= n <= 24,
        _ => true,
    }
}

pub open spec fn is_ascii_alpha(c: char) -> bool {
    is_ascii_upper(c) || is_ascii_lower(c)
}

/// Digits-only text as `u8::from_str` reads it: an optional leading `+`,
/// then at least one ASCII digit, with a value of at most 255.
pub open spec fn all_digits(d: Seq<char>) -> bool {
    forall|i: int| 0 <= i < d.len() ==> is_ascii_digit(#[trigger] d[i])
}

pub open spec fn digits_value(d: Seq<char>) -> nat
    decreases d.len(),
{
    if d.len() == 0 {
        0
    } else {
        digits_value(d.drop_last()) * 10 + ((d.last() as u32) - 48) as nat
    }
}

pub open spec fn unsigned_digits(s: Seq<char>) -> Seq<char> {
    if s.len() > 0 && s[0] == '+' {
        s.drop_first()
    } else {
        s
    }
}

pub open spec fn parse_u8_spec(s: Seq<char>) -> Option<u8> {
    let d = unsigned_digits(s);
    if d.len() > 0 && all_digits(d) && digits_value(d) <= 255 {
        Some(digits_value(d) as u8)
    } else {
        None
    }
}

/// The key named by a lower-case word, if any.
pub open spec fn named_key(l: Seq<char>) -> Option<Key> {
    if l == "space"@ {
        Some(Key::Space)
    } else if l == "enter"@ || l == "return"@ {
        Some(Key::Enter)
    } else if l == "escape"@ || l == "esc"@ {
        Some(Key::Escape)
    } else if l == "tab"@ {
        Some(Key::Tab)
    } else if l == "backspace"@ || l == "back"@ {
        Some(Key::Backspace)
    } else if l == "delete"@ || l == "del"@ {
        Some(Key::Delete)
    } else if l == "up"@ || l == "arrowup"@ {
        Some(Key::ArrowUp)
    } else if l == "down"@ || l == "arrowdown"@ {
        Some(Key::ArrowDown)
    } else if l == "left"@ || l == "arrowleft"@ {
        Some(Key::ArrowLeft)
    } else if l == "right"@ || l == "arrowright"@ {
        Some(Key::ArrowRight)
    } else if l == "home"@ {
        Some(Key::Home)
    } else if l == "end"@ {
        Some(Key::End)
    } else if l == "pageup"@ || l == "prior"@ {
        Some(Key::PageUp)
    } else if l == "pagedown"@ || l == "next"@ {
        Some(Key::PageDown)
    } else if l == "insert"@ || l == "ins"@ {
        Some(Key::Insert)
    } else if l == "printscreen"@ {
        Some(Key::PrintScreen)
    } else {
        None
    }
}

/// What `Key::from_token` returns for a token. A one-character token that is
/// an ASCII letter or digit names that letter (lower-cased) or digit; other
/// tokens are matched case-insensitively against the key names; a token that
/// starts with `F` or `f` followed by a number from 1 to 24 names a function
/// key.
pub open spec fn key_from_token_spec(tok: Seq<char>) -> Option<Key> {
    let t = trim(tok);
    if t.len() == 1 && is_ascii_alpha(t[0]) {
        Some(Key::Letter(ascii_lower(t[0])))
    } else if t.len() == 1 && is_ascii_digit(t[0]) {
        Some(Key::Digit(((t[0] as u32) - 48) as u8))
    } else {
        match named_key(lower_seq(t)) {
            Some(k) => Some(k),
            None => {
                if t.len() >= 2 && (t[0] == 'f' || t[0] == 'F') {
                    match parse_u8_spec(t.drop_first()) {
                        Some(n) => if 1 <= n <= 24 {
                            Some(Key::F(n))
                        } else {
                            None
                        },
                        None => None,
                    }
                } else {
                    None
                }
            },
        }
    }
}

/// The text of a key, as its `Display` writes it.
pub open spec fn key_text(k: Key) -> Seq<char> {
    match k {
        Key::Letter(c) => seq![ascii_upper(c)],
        Key::Digit(d) => decimal(d as nat),
        Key::F(n) => seq!['F'] + decimal(n as nat),
        Key::Space => "Space"@,
        Key::Enter => "Enter"@,
        Key::Escape => "Escape"@,
        Key::Tab => "Tab"@,
        Key::Backspace => "Backspace"@,
        Key::Delete => "Delete"@,
        Key::ArrowUp => "Up"@,
        Key::ArrowDown => "Down"@,
        Key::ArrowLeft => "Left"@,
        Key::ArrowRight => "Right"@,
        Key::Home => "Home"@,
        Key::End => "End"@,
        Key::PageUp => "PageUp"@,
        Key::PageDown => "PageDown"@,
        Key::Insert => "Insert"@,
        Key::PrintScreen => "PrintScreen"@,
    }
}

/// A digit prefix never has a larger value than the whole digit string.
pub proof fn lemma_digits_value_prefix(d: Seq<char>, k: int)
    requires
        0 <= k <= d.len(),
    ensures
        digits_value(d.take(k)) <= digits_value(d),
    decreases d.len(),
{
    if k < d.len() {
        assert(d.drop_last().take(k) =~= d.take(k));
        lemma_digits_value_prefix(d.drop_last(), k);
    } else {
        assert(d.take(k) =~= d);
    }
}

/// `u8::from_str` on a character buffer.
pub fn parse_u8_chars(s: &[char]) -> (r: Option<u8>)
    ensures
        r == parse_u8_spec(s@),
{
    let mut i: usize = 0;
    if s.len() > 0 && s[0] == '+' {
        i = 1;
    }
    let ghost d = unsigned_digits(s@);
    proof {
        assert(d =~= s@.skip(i as int));
    }
    if i >= s.len() {
        return None;
    }
    let mut acc: u32 = 0;
    while i < s.len()
        invariant
            d == s@.skip(i0(s@)),
            i0(s@) <= i <= s@.len(),
            all_digits(s@.subrange(i0(s@), i as int)),
            acc == digits_value(s@.subrange(i0(s@), i as int)),
            acc <= 255,
        decreases s@.len() - i,
    {
        let c = s[i];
        if !('0' <= c && c <= '9') {
            proof {
                assert(d[i - i0(s@)] == c);
            }
            return None;
        }
        let ghost prev = s@.subrange(i0(s@), i as int);
        let v: u32 = (c as u32) - 48;
        acc = acc * 10 + v;
        i = i + 1;
        proof {
            let cur = s@.subrange(i0(s@), i as int);
            assert(cur.drop_last() =~= prev);
            assert(cur.last() == c);
        }
        if acc > 255 {
            proof {
                let cur = s@.subrange(i0(s@), i as int);
                assert(cur.drop_last() =~= prev);
                assert(acc == digits_value(cur));
                assert(d.take(cur.len() as int) =~= cur);
                lemma_digits_value_prefix(d, cur.len() as int);
                assert(digits_value(d) > 255);
                assert(unsigned_digits(s@) == d);
                assert(parse_u8_spec(s@) is None);
            }
            return None;
        }
    }
    proof {
        assert(s@.subrange(i0(s@), s@.len() as int) =~= d);
    }
    Some(acc as u8)
}

/// Where the digits of a `u8` string start: after an optional leading `+`.
pub open spec fn i0(s: Seq<char>) -> int {
    if s.len() > 0 && s[0] == '+' {
        1
    } else {
        0
    }
}

impl Key {
    /// Parse a single key token (e.g. `"K"`, `"F5"`, `"Space"`, `"Up"`).
    pub fn from_token(tok: &str) -> (r: Option<Key>)
        ensures
            r == key_from_token_spec(tok@),
    {
        let chars = chars_of(tok);
        Self::from_token_chars(&chars)
    }

    /// `from_token` on a character buffer.
    pub fn from_token_chars(tok: &[char]) -> (r: Option<Key>)
        ensures
            r == key_from_token_spec(tok@),
    {
        let t = trim_chars(tok);
        if t.len() == 1 {
            let c = t[0];
            if ('A' <= c && c <= 'Z') || ('a' <= c && c <= 'z') {
                return Some(Key::Letter(lower_char(c)));
            }
            if '0' <= c && c <= '9' {
                let b: u8 = c as u8;
                return Some(Key::Digit(b - 48));
            }
        }
        let l = lower_chars(&t);
        if chars_eq_str(&l, "space") {
            Some(Key::Space)
        } else if chars_eq_str(&l, "enter") || chars_eq_str(&l, "return") {
            Some(Key::Enter)
        } else if chars_eq_str(&l, "escape") || chars_eq_str(&l, "esc") {
            Some(Key::Escape)
        } else if chars_eq_str(&l, "tab") {
            Some(Key::Tab)
        } else if chars_eq_str(&l, "backspace") || chars_eq_str(&l, "back") {
            Some(Key::Backspace)
        } else if chars_eq_str(&l, "delete") || chars_eq_str(&l, "del") {
            Some(Key::Delete)
        } else if chars_eq_str(&l, "up") || chars_eq_str(&l, "arrowup") {
            Some(Key::ArrowUp)
        } else if chars_eq_str(&l, "down") || chars_eq_str(&l, "arrowdown") {
            Some(Key::ArrowDown)
        } else if chars_eq_str(&l, "left") || chars_eq_str(&l, "arrowleft") {
            Some(Key::ArrowLeft)
        } else if chars_eq_str(&l, "right") || chars_eq_str(&l, "arrowright") {
            Some(Key::ArrowRight)
        } else if chars_eq_str(&l, "home") {
            Some(Key::Home)
        } else if chars_eq_str(&l, "end") {
            Some(Key::End)
        } else if chars_eq_str(&l, "pageup") || chars_eq_str(&l, "prior") {
            Some(Key::PageUp)
        } else if chars_eq_str(&l, "pagedown") || chars_eq_str(&l, "next") {
            Some(Key::PageDown)
        } else if chars_eq_str(&l, "insert") || chars_eq_str(&l, "ins") {
            Some(Key::Insert)
        } else if chars_eq_str(&l, "printscreen") {
            Some(Key::PrintScreen)
        } else if t.len() >= 2 && (t[0] == 'f' || t[0] == 'F') {
            let rest = slice_skip_first(&t);
            match parse_u8_chars(&rest) {
                Some(n) => {
                    if 1 <= n && n <= 24 {
                        Some(Key::F(n))
                    } else {
                        None
                    }
                },
                None => None,
            }
        } else {
            None
        }
    }

    /// The key's text, as its `Display` writes it: `"K"`, `"7"`, `"F5"`,
    /// `"Space"`, `"Up"`, ...
    pub fn to_string(&self) -> (r: String)
        ensures
            r@ == key_text(*self),
    {
        let mut s = String::new();
        self.push_text(&mut s);
        s
    }

    /// Appends the key's text to `s`.
    pub fn push_text(&self, s: &mut String)
        ensures
            final(s)@ == old(s)@ + key_text(*self),
    {
        match *self {
            Key::Letter(c) => {
                let ghost start = s@;
                s.push(upper_char(c));
                proof {
                    assert(s@ =~= start + key_text(*self));
                }
            },
            Key::Digit(d) => push_decimal(s, d as u64),
            Key::F(n) => {
                let ghost start = s@;
                s.push('F');
                push_decimal(s, n as u64);
                proof {
                    assert(s@ =~= start + key_text(*self));
                }
            },
            Key::Space => push_str(s, "Space"),
            Key::Enter => push_str(s, "Enter"),
            Key::Escape => push_str(s, "Escape"),
            Key::Tab => push_str(s, "Tab"),
            Key::Backspace => push_str(s, "Backspace"),
            Key::Delete => push_str(s, "Delete"),
            Key::ArrowUp => push_str(s, "Up"),
            Key::ArrowDown => push_str(s, "Down"),
            Key::ArrowLeft => push_str(s, "Left"),
            Key::ArrowRight => push_str(s, "Right"),
            Key::Home => push_str(s, "Home"),
            Key::End => push_str(s, "End"),
            Key::PageUp => push_str(s, "PageUp"),
            Key::PageDown => push_str(s, "PageDown"),
            Key::Insert => push_str(s, "Insert"),
            Key::PrintScreen => push_str(s, "PrintScreen"),
        }
    }
}

/// All characters after the first.
pub fn slice_skip_first(v: &[char]) -> (r: Vec<char>)
    requires
        v@.len() >= 1,
    ensures
        r@ == v@.drop_first(),
{
    let mut r: Vec<char> = Vec::new();
    let mut i: usize = 1;
    while i < v.len()
        invariant
            1 <= i <= v@.len(),
            r@ == v@.subrange(1, i as int),
        decreases v@.len() - i,
    {
        r.push(v[i]);
        i = i + 1;
        proof {
            assert(r@ =~= v@.subrange(1, i as int));
        }
    }
    proof {
        assert(r@ =~= v@.drop_first());
    }
    r
}

// ---------------------------------------------------------------------------
// Hotkeys and the combo notation
// ---------------------------------------------------------------------------

/// A global hotkey: a set of modifiers plus a primary key.
#[derive(Debug, Clone, Copy, PartialEq, Eq, Structural)]
pub struct Hotkey {
    pub modifiers: Modifiers,
    pub key: Key,
}

/// `str::split('+')`: the pieces between the `+` signs, empty pieces
/// included; a string without `+` is one piece.
pub open spec fn split_plus(s: Seq<char>) -> Seq<Seq<char>>
    decreases s.len(),
{
    if s.len() == 0 {
        seq![Seq::empty()]
    } else {
        let p = split_plus(s.drop_last());
        if s.last() == '+' {
            p.push(Seq::empty())
        } else {
            p.update(p.len() - 1, p.last().push(s.last()))
        }
    }
}

/// Pieces joined with `+`, as `[..].join("+")` does.
pub open spec fn join_plus(ts: Seq<Seq<char>>) -> Seq<char>
    decreases ts.len(),
{
    if ts.len() == 0 {
        Seq::empty()
    } else if ts.len() == 1 {
        ts[0]
    } else {
        join_plus(ts.drop_last()) + seq!['+'] + ts.last()
    }
}

/// The parts of a hotkey's text: the held modifiers in the order Ctrl, Alt,
/// Shift, Meta, then the key.
pub open spec fn hotkey_parts(hk: Hotkey) -> Seq<Seq<char>> {
    let m = hk.modifiers;
    let p0: Seq<Seq<char>> = Seq::empty();
    let p1 = if m.ctrl { p0.push("Ctrl"@) } else { p0 };
    let p2 = if m.alt { p1.push("Alt"@) } else { p1 };
    let p3 = if m.shift { p2.push("Shift"@) } else { p2 };
    let p4 = if m.meta { p3.push("Meta"@) } else { p3 };
    p4.push(key_text(hk.key))
}

/// The text of a hotkey, as its `Display` writes it, e.g. `"Ctrl+Shift+K"`.
pub open spec fn hotkey_text(hk: Hotkey) -> Seq<char> {
    join_plus(hotkey_parts(hk))
}

/// Parser state: the modifiers seen so far and the last key seen.
pub type ComboState = (Modifiers, Option<Key>);

pub open spec fn is_ctrl_word(l: Seq<char>) -> bool {
    l == "ctrl"@ || l == "control"@
}

pub open spec fn is_alt_word(l: Seq<char>) -> bool {
    l == "alt"@ || l == "option"@
}

pub open spec fn is_shift_word(l: Seq<char>) -> bool {
    l == "shift"@
}

pub open spec fn is_meta_word(l: Seq<char>) -> bool {
    l == "meta"@ || l == "win"@ || l == "cmd"@ || l == "super"@ || l == "command"@
}

/// One token of a combo: empty tokens are skipped, modifier words set their
/// modifier, anything else must name a key (the last key named wins).
pub open spec fn combo_step(st: ComboState, tok: Seq<char>) -> Result<ComboState, Seq<char>> {
    let t = trim(tok);
    let l = lower_seq(t);
    let m = st.0;
    if t.len() == 0 {
        Ok(st)
    } else if is_ctrl_word(l) {
        Ok((Modifiers { ctrl: true, ..m }, st.1))
    } else if is_alt_word(l) {
        Ok((Modifiers { alt: true, ..m }, st.1))
    } else if is_shift_word(l) {
        Ok((Modifiers { shift: true, ..m }, st.1))
    } else if is_meta_word(l) {
        Ok((Modifiers { meta: true, ..m }, st.1))
    } else {
        match key_from_token_spec(l) {
            Some(k) => Ok((m, Some(k))),
            None => Err("unknown key: "@ + t),
        }
    }
}

/// The tokens applied in order, stopping at the first error.
pub open spec fn combo_fold(ts: Seq<Seq<char>>) -> Result<ComboState, Seq<char>>
    decreases ts.len(),
{
    if ts.len() == 0 {
        Ok((no_modifiers(), None))
    } else {
        match combo_fold(ts.drop_last()) {
            Err(e) => Err(e),
            Ok(st) => combo_step(st, ts.last()),
        }
    }
}

/// What `Hotkey::parse` returns for a combo string.
pub open spec fn parse_hotkey_spec(s: Seq<char>) -> Result<Hotkey, Seq<char>> {
    match combo_fold(split_plus(s)) {
        Err(e) => Err(e),
        Ok((m, None)) => Err("hotkey requires a non-modifier key"@),
        Ok((m, Some(k))) => Ok(Hotkey { modifiers: m, key: k }),
    }
}

/// Once a prefix of the tokens fails, the whole fold fails with its error.
pub proof fn lemma_combo_fold_err(ts: Seq<Seq<char>>, j: int)
    requires
        0 <= j <= ts.len(),
        combo_fold(ts.take(j)) is Err,
    ensures
        combo_fold(ts) == combo_fold(ts.take(j)),
    decreases ts.len(),
{
    if j == ts.len() {
        assert(ts.take(j) =~= ts);
    } else {
        assert(ts.drop_last().take(j) =~= ts.take(j));
        lemma_combo_fold_err(ts.drop_last(), j);
    }
}

pub proof fn lemma_split_plus_nonempty(s: Seq<char>)
    ensures
        split_plus(s).len() >= 1,
    decreases s.len(),
{
    if s.len() > 0 {
        lemma_split_plus_nonempty(s.drop_last());
    }
}

/// The views of a list of character buffers.
pub open spec fn views(v: Seq<Vec<char>>) -> Seq<Seq<char>> {
    Seq::new(v.len(), |i: int| v[i]@)
}

/// Splits a character buffer at every `+`.
pub fn split_plus_chars(s: &[char]) -> (r: Vec<Vec<char>>)
    ensures
        views(r@) == split_plus(s@),
{
    let mut done: Vec<Vec<char>> = Vec::new();
    let mut cur: Vec<char> = Vec::new();
    let mut i: usize = 0;
    proof {
        assert(s@.take(0) =~= Seq::<char>::empty());
        assert(views(done@).push(cur@) =~= split_plus(s@.take(0)));
    }
    while i < s.len()
        invariant
            i <= s@.len(),
            views(done@).push(cur@) == split_plus(s@.take(i as int)),
        decreases s@.len() - i,
    {
        let c = s[i];
        let ghost before = views(done@).push(cur@);
        proof {
            assert(s@.take(i + 1).drop_last() =~= s@.take(i as int));
            assert(s@.take(i + 1).last() == c);
            lemma_split_plus_nonempty(s@.take(i as int));
        }
        if c == '+' {
            let piece = cur;
            done.push(piece);
            cur = Vec::new();
            proof {
                assert(views(done@).push(cur@) =~= before.push(Seq::empty()));
            }
        } else {
            cur.push(c);
            proof {
                assert(views(done@).push(cur@) =~= before.update(
                    before.len() - 1,
                    before.last().push(c),
                ));
            }
        }
        i = i + 1;
    }
    let ghost last = views(done@).push(cur@);
    done.push(cur);
    proof {
        assert(s@.take(s@.len() as int) =~= s@);
        assert(views(done@) =~= last);
    }
    done
}

impl Hotkey {
    /// Parse `"Ctrl+Shift+K"`, `"Alt+F4"`, `"Meta+Space"`, etc.
    pub fn parse(s: &str) -> (r: Result<Hotkey, String>)
        ensures
            match r {
                Ok(hk) => parse_hotkey_spec(s@) == Ok::<Hotkey, Seq<char>>(hk),
                Err(e) => parse_hotkey_spec(s@) == Err::<Hotkey, Seq<char>>(e@),
            },
    {
        let chars = chars_of(s);
        let toks = split_plus_chars(&chars);
        let ghost ts = views(toks@);
        let mut modifiers = Modifiers { ctrl: false, alt: false, shift: false, meta: false };
        let mut key: Option<Key> = None;
        let mut i: usize = 0;
        proof {
            assert(ts.take(0) =~= Seq::<Seq<char>>::empty());
        }
        while i < toks.len()
            invariant
                ts == views(toks@),
                ts == split_plus(s@),
                i <= ts.len(),
                combo_fold(ts.take(i as int)) == Ok::<ComboState, Seq<char>>((modifiers, key)),
            decreases ts.len() - i,
        {
            proof {
                assert(ts.take(i + 1).drop_last() =~= ts.take(i as int));
                assert(ts.take(i + 1).last() == ts[i as int]);
                assert(toks@[i as int]@ == ts[i as int]);
            }
            let t = trim_chars(&toks[i]);
            if t.len() > 0 {
                let l = lower_chars(&t);
                if chars_eq_str(&l, "ctrl") || chars_eq_str(&l, "control") {
                    modifiers.ctrl = true;
                } else if chars_eq_str(&l, "alt") || chars_eq_str(&l, "option") {
                    modifiers.alt = true;
                } else if chars_eq_str(&l, "shift") {
                    modifiers.shift = true;
                } else if chars_eq_str(&l, "meta") || chars_eq_str(&l, "win") || chars_eq_str(
                    &l,
                    "cmd",
                ) || chars_eq_str(&l, "super") || chars_eq_str(&l, "command") {
                    modifiers.meta = true;
                } else {
                    match Key::from_token_chars(&l) {
                        Some(k) => {
                            key = Some(k);
                        },
                        None => {
                            let mut msg = String::new();
                            push_str(&mut msg, "unknown key: ");
                            push_chars(&mut msg, &t);
                            proof {
                                lemma_combo_fold_err(ts, i + 1);
                            }
                            return Err(msg);
                        },
                    }
                }
            }
            i = i + 1;
        }
        proof {
            assert(ts.take(ts.len() as int) =~= ts);
        }
        match key {
            Some(k) => Ok(Hotkey { modifiers, key: k }),
            None => {
                let mut msg = String::new();
                push_str(&mut msg, "hotkey requires a non-modifier key");
                Err(msg)
            },
        }
    }

    /// The hotkey's text, as its `Display` writes it: held modifiers in the
    /// order Ctrl, Alt, Shift, Meta, then the key, joined with `+`.
    pub fn to_string(&self) -> (r: String)
        ensures
            r@ == hotkey_text(*self),
    {
        let mut s = String::new();
        let ghost mut parts: Seq<Seq<char>> = Seq::empty();
        proof {
            assert(s@ =~= parts_prefix(parts));
        }
        if self.modifiers.ctrl {
            push_str(&mut s, "Ctrl");
            s.push('+');
            proof {
                assert(parts.push("Ctrl"@).drop_last() =~= parts);
                assert(s@ =~= parts_prefix(parts.push("Ctrl"@)));
                parts = parts.push("Ctrl"@);
            }
        }
        if self.modifiers.alt {
            push_str(&mut s, "Alt");
            s.push('+');
            proof {
                assert(parts.push("Alt"@).drop_last() =~= parts);
                assert(s@ =~= parts_prefix(parts.push("Alt"@)));
                parts = parts.push("Alt"@);
            }
        }
        if self.modifiers.shift {
            push_str(&mut s, "Shift");
            s.push('+');
            proof {
                assert(parts.push("Shift"@).drop_last() =~= parts);
                assert(s@ =~= parts_prefix(parts.push("Shift"@)));
                parts = parts.push("Shift"@);
            }
        }
        if self.modifiers.meta {
            push_str(&mut s, "Meta");
            s.push('+');
            proof {
                assert(parts.push("Meta"@).drop_last() =~= parts);
                assert(s@ =~= parts_prefix(parts.push("Meta"@)));
                parts = parts.push("Meta"@);
            }
        }
        self.key.push_text(&mut s);
        proof {
            lemma_join_push(parts, key_text(self.key));
            assert(parts.push(key_text(self.key)) =~= hotkey_parts(*self));
        }
        s
    }
}

/// The text written before the key: each part followed by `+`.
pub open spec fn parts_prefix(ts: Seq<Seq<char>>) -> Seq<char>
    decreases ts.len(),
{
    if ts.len() == 0 {
        Seq::empty()
    } else {
        parts_prefix(ts.drop_last()) + ts.last() + seq!['+']
    }
}

/// Joining the parts and then a last piece is writing each part followed by
/// `+`, then the last piece.
pub proof fn lemma_join_push(ts: Seq<Seq<char>>, k: Seq<char>)
    ensures
        join_plus(ts.push(k)) == parts_prefix(ts) + k,
    decreases ts.len(),
{
    if ts.len() == 0 {
        assert(parts_prefix(ts) + k =~= k);
    } else {
        let q = ts.drop_last();
        let w = ts.last();
        assert(q.push(w) =~= ts);
        lemma_join_push(q, w);
        assert(ts.push(k).drop_last() =~= ts);
        assert(join_plus(ts.push(k)) =~= parts_prefix(q) + w + seq!['+'] + k);
    }
}

// ---------------------------------------------------------------------------
// Laws of the combo notation
// ---------------------------------------------------------------------------

pub open spec fn no_plus(w: Seq<char>) -> bool {
    forall|i: int| 0 <= i < w.len() ==> w[i] != '+'
}

/// Splitting around one `+` splits each side separately.
pub proof fn lemma_split_concat(a: Seq<char>, b: Seq<char>)
    ensures
        split_plus(a + seq!['+'] + b) == split_plus(a) + split_plus(b),
    decreases b.len(),
{
    let ab = a + seq!['+'] + b;
    if b.len() == 0 {
        assert(ab.drop_last() =~= a);
        assert(split_plus(a) + split_plus(b) =~= split_plus(a).push(Seq::empty()));
    } else {
        let b0 = b.drop_last();
        let c = b.last();
        assert(ab.drop_last() =~= a + seq!['+'] + b0);
        assert(ab.last() == c);
        lemma_split_concat(a, b0);
        lemma_split_plus_nonempty(b0);
        lemma_split_plus_nonempty(a);
        let p = split_plus(a) + split_plus(b0);
        if c == '+' {
            assert(split_plus(b) == split_plus(b0).push(Seq::empty()));
            assert(p.push(Seq::empty()) =~= split_plus(a) + split_plus(b));
        } else {
            let q = split_plus(b0);
            assert(split_plus(b) == q.update(q.len() - 1, q.last().push(c)));
            assert(p.update(p.len() - 1, p.last().push(c)) =~= split_plus(a) + split_plus(b));
        }
    }
}

/// A piece without `+` is not split.
pub proof fn lemma_split_single(w: Seq<char>)
    requires
        no_plus(w),
    ensures
        split_plus(w) == seq![w],
    decreases w.len(),
{
    if w.len() > 0 {
        let w0 = w.drop_last();
        assert(w.last() != '+');
        lemma_split_single(w0);
        assert(w0.push(w.last()) =~= w);
        assert(seq![w0].update(0, w0.push(w.last())) =~= seq![w]);
    } else {
        assert(w =~= Seq::<char>::empty());
    }
}

/// Splitting joined pieces gives the pieces back when none holds a `+`.
pub proof fn lemma_split_join(ts: Seq<Seq<char>>)
    requires
        ts.len() >= 1,
        forall|i: int| 0 <= i < ts.len() ==> no_plus(#[trigger] ts[i]),
    ensures
        split_plus(join_plus(ts)) == ts,
    decreases ts.len(),
{
    if ts.len() == 1 {
        lemma_split_single(ts[0]);
        assert(seq![ts[0]] =~= ts);
    } else {
        let q = ts.drop_last();
        assert forall|i: int| 0 <= i < q.len() implies no_plus(#[trigger] q[i]) by {
            assert(q[i] == ts[i]);
        }
        lemma_split_join(q);
        lemma_split_concat(join_plus(q), ts.last());
        lemma_split_single(ts.last());
        assert(q + seq![ts.last()] =~= ts);
    }
}

pub proof fn lemma_trim_id(s: Seq<char>)
    requires
        s.len() > 0,
        !is_ws(s[0]),
        !is_ws(s.last()),
    ensures
        trim(s) == s,
{
}

/// Decimal text is read back as the number it writes.
pub proof fn lemma_decimal_digits(n: nat)
    ensures
        all_digits(decimal(n)),
        digits_value(decimal(n)) == n,
        decimal(n).len() >= 1,
        decimal(n)[0] != '+',
    decreases n,
{
    if n >= 10 {
        lemma_decimal_digits(n / 10);
        let p = decimal(n / 10);
        let d = decimal(n);
        assert(d == p.push(digit_char(n % 10)));
        assert(d.drop_last() =~= p);
        assert forall|i: int| 0 <= i < d.len() implies is_ascii_digit(#[trigger] d[i]) by {
            if i < p.len() {
                assert(d[i] == p[i]);
            }
        }
        lemma_digit_char(n % 10);
        assert(d.last() == digit_char(n % 10));
        assert(digits_value(d) == digits_value(p) * 10 + (n % 10));
        assert((n / 10) * 10 + n % 10 == n) by (nonlinear_arith);
    } else {
        let d = decimal(n);
        lemma_digit_char(n);
        assert(d == seq![digit_char(n)]);
        assert(d.drop_last() =~= Seq::<char>::empty());
        assert(digits_value(d.drop_last()) == 0);
        assert(d.last() == digit_char(n));
        assert(digits_value(d) == n);
    }
}

pub proof fn lemma_digit_char(d: nat)
    requires
        d < 10,
    ensures
        digit_char(d) as u32 == d + 48,
        is_ascii_digit(digit_char(d)),
{
}

/// White space around a key token does not change the key it names.
pub proof fn lemma_token_ignores_blanks(a: Seq<char>, tok: Seq<char>, c: Seq<char>)
    requires
        all_ws(a),
        all_ws(c),
    ensures
        key_from_token_spec(a + tok + c) == key_from_token_spec(tok),
{
    lemma_trim_ignores_blanks(a, tok, c);
}

/// Only valid keys come out of the token parser.
pub proof fn lemma_from_token_valid(tok: Seq<char>)
    ensures
        key_from_token_spec(tok) matches Some(k) ==> valid_key(k),
{
}

proof fn lemma_step_modifier_words(st: ComboState)
    ensures
        combo_step(st, "Ctrl"@) == Ok::<ComboState, Seq<char>>((Modifiers { ctrl: true, ..st.0 }, st.1)),
        combo_step(st, "Alt"@) == Ok::<ComboState, Seq<char>>((Modifiers { alt: true, ..st.0 }, st.1)),
        combo_step(st, "Shift"@) == Ok::<ComboState, Seq<char>>((Modifiers { shift: true, ..st.0 }, st.1)),
        combo_step(st, "Meta"@) == Ok::<ComboState, Seq<char>>((Modifiers { meta: true, ..st.0 }, st.1)),
{
    reveal_strlit("Ctrl");
    reveal_strlit("ctrl");
    reveal_strlit("Alt");
    reveal_strlit("alt");
    reveal_strlit("Shift");
    reveal_strlit("shift");
    reveal_strlit("Meta");
    reveal_strlit("meta");
    reveal_strlit("control");
    lemma_trim_id("Ctrl"@);
    lemma_trim_id("Alt"@);
    lemma_trim_id("Shift"@);
    lemma_trim_id("Meta"@);
    assert(lower_seq("Ctrl"@) =~= "ctrl"@);
    assert(lower_seq("Alt"@) =~= "alt"@);
    assert(lower_seq("Shift"@) =~= "shift"@);
    assert(lower_seq("Meta"@) =~= "meta"@);
    reveal_strlit("option");
    reveal_strlit("win");
    reveal_strlit("cmd");
    reveal_strlit("super");
    reveal_strlit("command");
}

proof fn lemma_step_key_space(st: ComboState)
    ensures
        combo_step(st, "Space"@) == Ok::<ComboState, Seq<char>>((st.0, Some(Key::Space))),
{
    reveal_strlit("Space");
    reveal_strlit("space");
    reveal_strlit("enter");
    reveal_strlit("return");
    reveal_strlit("escape");
    reveal_strlit("esc");
    reveal_strlit("tab");
    reveal_strlit("backspace");
    reveal_strlit("back");
    reveal_strlit("delete");
    reveal_strlit("del");
    reveal_strlit("up");
    reveal_strlit("arrowup");
    reveal_strlit("down");
    reveal_strlit("arrowdown");
    reveal_strlit("left");
    reveal_strlit("arrowleft");
    reveal_strlit("right");
    reveal_strlit("arrowright");
    reveal_strlit("home");
    reveal_strlit("end");
    reveal_strlit("pageup");
    reveal_strlit("prior");
    reveal_strlit("pagedown");
    reveal_strlit("next");
    reveal_strlit("insert");
    reveal_strlit("ins");
    reveal_strlit("ctrl");
    reveal_strlit("control");
    reveal_strlit("alt");
    reveal_strlit("option");
    reveal_strlit("shift");
    reveal_strlit("meta");
    reveal_strlit("win");
    reveal_strlit("cmd");
    reveal_strlit("super");
    reveal_strlit("command");
    lemma_trim_id("Space"@);
    assert(lower_seq("Space"@) =~= "space"@);
    assert(lower_seq("space"@) =~= "space"@);
    lemma_trim_id("space"@);
}

proof fn lemma_step_key_enter(st: ComboState)
    ensures
        combo_step(st, "Enter"@) == Ok::<ComboState, Seq<char>>((st.0, Some(Key::Enter))),
{
    reveal_strlit("Enter");
    reveal_strlit("space");
    reveal_strlit("enter");
    reveal_strlit("return");
    reveal_strlit("escape");
    reveal_strlit("esc");
    reveal_strlit("tab");
    reveal_strlit("backspace");
    reveal_strlit("back");
    reveal_strlit("delete");
    reveal_strlit("del");
    reveal_strlit("up");
    reveal_strlit("arrowup");
    reveal_strlit("down");
    reveal_strlit("arrowdown");
    reveal_strlit("left");
    reveal_strlit("arrowleft");
    reveal_strlit("right");
    reveal_strlit("arrowright");
    reveal_strlit("home");
    reveal_strlit("end");
    reveal_strlit("pageup");
    reveal_strlit("prior");
    reveal_strlit("pagedown");
    reveal_strlit("next");
    reveal_strlit("insert");
    reveal_strlit("ins");
    reveal_strlit("ctrl");
    reveal_strlit("control");
    reveal_strlit("alt");
    reveal_strlit("option");
    reveal_strlit("shift");
    reveal_strlit("meta");
    reveal_strlit("win");
    reveal_strlit("cmd");
    reveal_strlit("super");
    reveal_strlit("command");
    lemma_trim_id("Enter"@);
    assert(lower_seq("Enter"@) =~= "enter"@);
    assert(lower_seq("enter"@) =~= "enter"@);
    lemma_trim_id("enter"@);
}

proof fn lemma_step_key_escape(st: ComboState)
    ensures
        combo_step(st, "Escape"@) == Ok::<ComboState, Seq<char>>((st.0, Some(Key::Escape))),
{
    reveal_strlit("Escape");
    reveal_strlit("space");
    reveal_strlit("enter");
    reveal_strlit("return");
    reveal_strlit("escape");
    reveal_strlit("esc");
    reveal_strlit("tab");
    reveal_strlit("backspace");
    reveal_strlit("back");
    reveal_strlit("delete");
    reveal_strlit("del");
    reveal_strlit("up");
    reveal_strlit("arrowup");
    reveal_strlit("down");
    reveal_strlit("arrowdown");
    reveal_strlit("left");
    reveal_strlit("arrowleft");
    reveal_strlit("right");
    reveal_strlit("arrowright");
    reveal_strlit("home");
    reveal_strlit("end");
    reveal_strlit("pageup");
    reveal_strlit("prior");
    reveal_strlit("pagedown");
    reveal_strlit("next");
    reveal_strlit("insert");
    reveal_strlit("ins");
    reveal_strlit("ctrl");
    reveal_strlit("control");
    reveal_strlit("alt");
    reveal_strlit("option");
    reveal_strlit("shift");
    reveal_strlit("meta");
    reveal_strlit("win");
    reveal_strlit("cmd");
    reveal_strlit("super");
    reveal_strlit("command");
    lemma_trim_id("Escape"@);
    assert(lower_seq("Escape"@) =~= "escape"@);
    assert(lower_seq("escape"@) =~= "escape"@);
    lemma_trim_id("escape"@);
}

proof fn lemma_step_key_tab(st: ComboState)
    ensures
        combo_step(st, "Tab"@) == Ok::<ComboState, Seq<char>>((st.0, Some(Key::Tab))),
{
    reveal_strlit("Tab");
    reveal_strlit("space");
    reveal_strlit("enter");
    reveal_strlit("return");
    reveal_strlit("escape");
    reveal_strlit("esc");
    reveal_strlit("tab");
    reveal_strlit("backspace");
    reveal_strlit("back");
    reveal_strlit("delete");
    reveal_strlit("del");
    reveal_strlit("up");
    reveal_strlit("arrowup");
    reveal_strlit("down");
    reveal_strlit("arrowdown");
    reveal_strlit("left");
    reveal_strlit("arrowleft");
    reveal_strlit("right");
    reveal_strlit("arrowright");
    reveal_strlit("home");
    reveal_strlit("end");
    reveal_strlit("pageup");
    reveal_strlit("prior");
    reveal_strlit("pagedown");
    reveal_strlit("next");
    reveal_strlit("insert");
    reveal_strlit("ins");
    reveal_strlit("ctrl");
    reveal_strlit("control");
    reveal_strlit("alt");
    reveal_strlit("option");
    reveal_strlit("shift");
    reveal_strlit("meta");
    reveal_strlit("win");
    reveal_strlit("cmd");
    reveal_strlit("super");
    reveal_strlit("command");
    lemma_trim_id("Tab"@);
    assert(lower_seq("Tab"@) =~= "tab"@);
    assert(lower_seq("tab"@) =~= "tab"@);
    lemma_trim_id("tab"@);
}

proof fn lemma_step_key_backspace(st: ComboState)
    ensures
        combo_step(st, "Backspace"@) == Ok::<ComboState, Seq<char>>((st.0, Some(Key::Backspace))),
{
    reveal_strlit("Backspace");
    reveal_strlit("space");
    reveal_strlit("enter");
    reveal_strlit("return");
    reveal_strlit("escape");
    reveal_strlit("esc");
    reveal_strlit("tab");
    reveal_strlit("backspace");
    reveal_strlit("back");
    reveal_strlit("delete");
    reveal_strlit("del");
    reveal_strlit("up");
    reveal_strlit("arrowup");
    reveal_strlit("down");
    reveal_strlit("arrowdown");
    reveal_strlit("left");
    reveal_strlit("arrowleft");
    reveal_strlit("right");
    reveal_strlit("arrowright");
    reveal_strlit("home");
    reveal_strlit("end");
    reveal_strlit("pageup");
    reveal_strlit("prior");
    reveal_strlit("pagedown");
    reveal_strlit("next");
    reveal_strlit("insert");
    reveal_strlit("ins");
    reveal_strlit("ctrl");
    reveal_strlit("control");
    reveal_strlit("alt");
    reveal_strlit("option");
    reveal_strlit("shift");
    reveal_strlit("meta");
    reveal_strlit("win");
    reveal_strlit("cmd");
    reveal_strlit("super");
    reveal_strlit("command");
    lemma_trim_id("Backspace"@);
    assert(lower_seq("Backspace"@) =~= "backspace"@);
    assert(lower_seq("backspace"@) =~= "backspace"@);
    lemma_trim_id("backspace"@);
}

proof fn lemma_step_key_delete(st: ComboState)
    ensures
        combo_step(st, "Delete"@) == Ok::<ComboState, Seq<char>>((st.0, Some(Key::Delete))),
{
    reveal_strlit("Delete");
    reveal_strlit("space");
    reveal_strlit("enter");
    reveal_strlit("return");
    reveal_strlit("escape");
    reveal_strlit("esc");
    reveal_strlit("tab");
    reveal_strlit("backspace");
    reveal_strlit("back");
    reveal_strlit("delete");
    reveal_strlit("del");
    reveal_strlit("up");
    reveal_strlit("arrowup");
    reveal_strlit("down");
    reveal_strlit("arrowdown");
    reveal_strlit("left");
    reveal_strlit("arrowleft");
    reveal_strlit("right");
    reveal_strlit("arrowright");
    reveal_strlit("home");
    reveal_strlit("end");
    reveal_strlit("pageup");
    reveal_strlit("prior");
    reveal_strlit("pagedown");
    reveal_strlit("next");
    reveal_strlit("insert");
    reveal_strlit("ins");
    reveal_strlit("ctrl");
    reveal_strlit("control");
    reveal_strlit("alt");
    reveal_strlit("option");
    reveal_strlit("shift");
    reveal_strlit("meta");
    reveal_strlit("win");
    reveal_strlit("cmd");
    reveal_strlit("super");
    reveal_strlit("command");
    lemma_trim_id("Delete"@);
    assert(lower_seq("Delete"@) =~= "delete"@);
    assert(lower_seq("delete"@) =~= "delete"@);
    lemma_trim_id("delete"@);
}

proof fn lemma_step_key_arrowup(st: ComboState)
    ensures
        combo_step(st, "Up"@) == Ok::<ComboState, Seq<char>>((st.0, Some(Key::ArrowUp))),
{
    reveal_strlit("Up");
    reveal_strlit("space");
    reveal_strlit("enter");
    reveal_strlit("return");
    reveal_strlit("escape");
    reveal_strlit("esc");
    reveal_strlit("tab");
    reveal_strlit("backspace");
    reveal_strlit("back");
    reveal_strlit("delete");
    reveal_strlit("del");
    reveal_strlit("up");
    reveal_strlit("arrowup");
    reveal_strlit("down");
    reveal_strlit("arrowdown");
    reveal_strlit("left");
    reveal_strlit("arrowleft");
    reveal_strlit("right");
    reveal_strlit("arrowright");
    reveal_strlit("home");
    reveal_strlit("end");
    reveal_strlit("pageup");
    reveal_strlit("prior");
    reveal_strlit("pagedown");
    reveal_strlit("next");
    reveal_strlit("insert");
    reveal_strlit("ins");
    reveal_strlit("ctrl");
    reveal_strlit("control");
    reveal_strlit("alt");
    reveal_strlit("option");
    reveal_strlit("shift");
    reveal_strlit("meta");
    reveal_strlit("win");
    reveal_strlit("cmd");
    reveal_strlit("super");
    reveal_strlit("command");
    lemma_trim_id("Up"@);
    assert(lower_seq("Up"@) =~= "up"@);
    assert(lower_seq("up"@) =~= "up"@);
    lemma_trim_id("up"@);
}

proof fn lemma_step_key_arrowdown(st: ComboState)
    ensures
        combo_step(st, "Down"@) == Ok::<ComboState, Seq<char>>((st.0, Some(Key::ArrowDown))),
{
    reveal_strlit("Down");
    reveal_strlit("space");
    reveal_strlit("enter");
    reveal_strlit("return");
    reveal_strlit("escape");
    reveal_strlit("esc");
    reveal_strlit("tab");
    reveal_strlit("backspace");
    reveal_strlit("back");
    reveal_strlit("delete");
    reveal_strlit("del");
    reveal_strlit("up");
    reveal_strlit("arrowup");
    reveal_strlit("down");
    reveal_strlit("arrowdown");
    reveal_strlit("left");
    reveal_strlit("arrowleft");
    reveal_strlit("right");
    reveal_strlit("arrowright");
    reveal_strlit("home");
    reveal_strlit("end");
    reveal_strlit("pageup");
    reveal_strlit("prior");
    reveal_strlit("pagedown");
    reveal_strlit("next");
    reveal_strlit("insert");
    reveal_strlit("ins");
    reveal_strlit("ctrl");
    reveal_strlit("control");
    reveal_strlit("alt");
    reveal_strlit("option");
    reveal_strlit("shift");
    reveal_strlit("meta");
    reveal_strlit("win");
    reveal_strlit("cmd");
    reveal_strlit("super");
    reveal_strlit("command");
    lemma_trim_id("Down"@);
    assert(lower_seq("Down"@) =~= "down"@);
    assert(lower_seq("down"@) =~= "down"@);
    lemma_trim_id("down"@);
}

proof fn lemma_step_key_arrowleft(st: ComboState)
    ensures
        combo_step(st, "Left"@) == Ok::<ComboState, Seq<char>>((st.0, Some(Key::ArrowLeft))),
{
    reveal_strlit("Left");
    reveal_strlit("space");
    reveal_strlit("enter");
    reveal_strlit("return");
    reveal_strlit("escape");
    reveal_strlit("esc");
    reveal_strlit("tab");
    reveal_strlit("backspace");
    reveal_strlit("back");
    reveal_strlit("delete");
    reveal_strlit("del");
    reveal_strlit("up");
    reveal_strlit("arrowup");
    reveal_strlit("down");
    reveal_strlit("arrowdown");
    reveal_strlit("left");
    reveal_strlit("arrowleft");
    reveal_strlit("right");
    reveal_strlit("arrowright");
    reveal_strlit("home");
    reveal_strlit("end");
    reveal_strlit("pageup");
    reveal_strlit("prior");
    reveal_strlit("pagedown");
    reveal_strlit("next");
    reveal_strlit("insert");
    reveal_strlit("ins");
    reveal_strlit("ctrl");
    reveal_strlit("control");
    reveal_strlit("alt");
    reveal_strlit("option");
    reveal_strlit("shift");
    reveal_strlit("meta");
    reveal_strlit("win");
    reveal_strlit("cmd");
    reveal_strlit("super");
    reveal_strlit("command");
    lemma_trim_id("Left"@);
    assert(lower_seq("Left"@) =~= "left"@);
    assert(lower_seq("left"@) =~= "left"@);
    lemma_trim_id("left"@);
}

proof fn lemma_step_key_arrowright(st: ComboState)
    ensures
        combo_step(st, "Right"@) == Ok::<ComboState, Seq<char>>((st.0, Some(Key::ArrowRight))),
{
    reveal_strlit("Right");
    reveal_strlit("space");
    reveal_strlit("enter");
    reveal_strlit("return");
    reveal_strlit("escape");
    reveal_strlit("esc");
    reveal_strlit("tab");
    reveal_strlit("backspace");
    reveal_strlit("back");
    reveal_strlit("delete");
    reveal_strlit("del");
    reveal_strlit("up");
    reveal_strlit("arrowup");
    reveal_strlit("down");
    reveal_strlit("arrowdown");
    reveal_strlit("left");
    reveal_strlit("arrowleft");
    reveal_strlit("right");
    reveal_strlit("arrowright");
    reveal_strlit("home");
    reveal_strlit("end");
    reveal_strlit("pageup");
    reveal_strlit("prior");
    reveal_strlit("pagedown");
    reveal_strlit("next");
    reveal_strlit("insert");
    reveal_strlit("ins");
    reveal_strlit("ctrl");
    reveal_strlit("control");
    reveal_strlit("alt");
    reveal_strlit("option");
    reveal_strlit("shift");
    reveal_strlit("meta");
    reveal_strlit("win");
    reveal_strlit("cmd");
    reveal_strlit("super");
    reveal_strlit("command");
    lemma_trim_id("Right"@);
    assert(lower_seq("Right"@) =~= "right"@);
    assert(lower_seq("right"@) =~= "right"@);
    lemma_trim_id("right"@);
}

proof fn lemma_step_key_home(st: ComboState)
    ensures
        combo_step(st, "Home"@) == Ok::<ComboState, Seq<char>>((st.0, Some(Key::Home))),
{
    reveal_strlit("Home");
    reveal_strlit("space");
    reveal_strlit("enter");
    reveal_strlit("return");
    reveal_strlit("escape");
    reveal_strlit("esc");
    reveal_strlit("tab");
    reveal_strlit("backspace");
    reveal_strlit("back");
    reveal_strlit("delete");
    reveal_strlit("del");
    reveal_strlit("up");
    reveal_strlit("arrowup");
    reveal_strlit("down");
    reveal_strlit("arrowdown");
    reveal_strlit("left");
    reveal_strlit("arrowleft");
    reveal_strlit("right");
    reveal_strlit("arrowright");
    reveal_strlit("home");
    reveal_strlit("end");
    reveal_strlit("pageup");
    reveal_strlit("prior");
    reveal_strlit("pagedown");
    reveal_strlit("next");
    reveal_strlit("insert");
    reveal_strlit("ins");
    reveal_strlit("ctrl");
    reveal_strlit("control");
    reveal_strlit("alt");
    reveal_strlit("option");
    reveal_strlit("shift");
    reveal_strlit("meta");
    reveal_strlit("win");
    reveal_strlit("cmd");
    reveal_strlit("super");
    reveal_strlit("command");
    lemma_trim_id("Home"@);
    assert(lower_seq("Home"@) =~= "home"@);
    assert(lower_seq("home"@) =~= "home"@);
    lemma_trim_id("home"@);
}

proof fn lemma_step_key_end(st: ComboState)
    ensures
        combo_step(st, "End"@) == Ok::<ComboState, Seq<char>>((st.0, Some(Key::End))),
{
    reveal_strlit("End");
    reveal_strlit("space");
    reveal_strlit("enter");
    reveal_strlit("return");
    reveal_strlit("escape");
    reveal_strlit("esc");
    reveal_strlit("tab");
    reveal_strlit("backspace");
    reveal_strlit("back");
    reveal_strlit("delete");
    reveal_strlit("del");
    reveal_strlit("up");
    reveal_strlit("arrowup");
    reveal_strlit("down");
    reveal_strlit("arrowdown");
    reveal_strlit("left");
    reveal_strlit("arrowleft");
    reveal_strlit("right");
    reveal_strlit("arrowright");
    reveal_strlit("home");
    reveal_strlit("end");
    reveal_strlit("pageup");
    reveal_strlit("prior");
    reveal_strlit("pagedown");
    reveal_strlit("next");
    reveal_strlit("insert");
    reveal_strlit("ins");
    reveal_strlit("ctrl");
    reveal_strlit("control");
    reveal_strlit("alt");
    reveal_strlit("option");
    reveal_strlit("shift");
    reveal_strlit("meta");
    reveal_strlit("win");
    reveal_strlit("cmd");
    reveal_strlit("super");
    reveal_strlit("command");
    lemma_trim_id("End"@);
    assert(lower_seq("End"@) =~= "end"@);
    assert(lower_seq("end"@) =~= "end"@);
    lemma_trim_id("end"@);
}

proof fn lemma_step_key_pageup(st: ComboState)
    ensures
        combo_step(st, "PageUp"@) == Ok::<ComboState, Seq<char>>((st.0, Some(Key::PageUp))),
{
    reveal_strlit("PageUp");
    reveal_strlit("space");
    reveal_strlit("enter");
    reveal_strlit("return");
    reveal_strlit("escape");
    reveal_strlit("esc");
    reveal_strlit("tab");
    reveal_strlit("backspace");
    reveal_strlit("back");
    reveal_strlit("delete");
    reveal_strlit("del");
    reveal_strlit("up");
    reveal_strlit("arrowup");
    reveal_strlit("down");
    reveal_strlit("arrowdown");
    reveal_strlit("left");
    reveal_strlit("arrowleft");
    reveal_strlit("right");
    reveal_strlit("arrowright");
    reveal_strlit("home");
    reveal_strlit("end");
    reveal_strlit("pageup");
    reveal_strlit("prior");
    reveal_strlit("pagedown");
    reveal_strlit("next");
    reveal_strlit("insert");
    reveal_strlit("ins");
    reveal_strlit("ctrl");
    reveal_strlit("control");
    reveal_strlit("alt");
    reveal_strlit("option");
    reveal_strlit("shift");
    reveal_strlit("meta");
    reveal_strlit("win");
    reveal_strlit("cmd");
    reveal_strlit("super");
    reveal_strlit("command");
    lemma_trim_id("PageUp"@);
    assert(lower_seq("PageUp"@) =~= "pageup"@);
    assert(lower_seq("pageup"@) =~= "pageup"@);
    lemma_trim_id("pageup"@);
}

proof fn lemma_step_key_pagedown(st: ComboState)
    ensures
        combo_step(st, "PageDown"@) == Ok::<ComboState, Seq<char>>((st.0, Some(Key::PageDown))),
{
    reveal_strlit("PageDown");
    reveal_strlit("space");
    reveal_strlit("enter");
    reveal_strlit("return");
    reveal_strlit("escape");
    reveal_strlit("esc");
    reveal_strlit("tab");
    reveal_strlit("backspace");
    reveal_strlit("back");
    reveal_strlit("delete");
    reveal_strlit("del");
    reveal_strlit("up");
    reveal_strlit("arrowup");
    reveal_strlit("down");
    reveal_strlit("arrowdown");
    reveal_strlit("left");
    reveal_strlit("arrowleft");
    reveal_strlit("right");
    reveal_strlit("arrowright");
    reveal_strlit("home");
    reveal_strlit("end");
    reveal_strlit("pageup");
    reveal_strlit("prior");
    reveal_strlit("pagedown");
    reveal_strlit("next");
    reveal_strlit("insert");
    reveal_strlit("ins");
    reveal_strlit("ctrl");
    reveal_strlit("control");
    reveal_strlit("alt");
    reveal_strlit("option");
    reveal_strlit("shift");
    reveal_strlit("meta");
    reveal_strlit("win");
    reveal_strlit("cmd");
    reveal_strlit("super");
    reveal_strlit("command");
    lemma_trim_id("PageDown"@);
    assert(lower_seq("PageDown"@) =~= "pagedown"@);
    assert(lower_seq("pagedown"@) =~= "pagedown"@);
    lemma_trim_id("pagedown"@);
}

proof fn lemma_step_key_insert(st: ComboState)
    ensures
        combo_step(st, "Insert"@) == Ok::<ComboState, Seq<char>>((st.0, Some(Key::Insert))),
{
    reveal_strlit("Insert");
    reveal_strlit("space");
    reveal_strlit("enter");
    reveal_strlit("return");
    reveal_strlit("escape");
    reveal_strlit("esc");
    reveal_strlit("tab");
    reveal_strlit("backspace");
    reveal_strlit("back");
    reveal_strlit("delete");
    reveal_strlit("del");
    reveal_strlit("up");
    reveal_strlit("arrowup");
    reveal_strlit("down");
    reveal_strlit("arrowdown");
    reveal_strlit("left");
    reveal_strlit("arrowleft");
    reveal_strlit("right");
    reveal_strlit("arrowright");
    reveal_strlit("home");
    reveal_strlit("end");
    reveal_strlit("pageup");
    reveal_strlit("prior");
    reveal_strlit("pagedown");
    reveal_strlit("next");
    reveal_strlit("insert");
    reveal_strlit("ins");
    reveal_strlit("ctrl");
    reveal_strlit("control");
    reveal_strlit("alt");
    reveal_strlit("option");
    reveal_strlit("shift");
    reveal_strlit("meta");
    reveal_strlit("win");
    reveal_strlit("cmd");
    reveal_strlit("super");
    reveal_strlit("command");
    lemma_trim_id("Insert"@);
    assert(lower_seq("Insert"@) =~= "insert"@);
    assert(lower_seq("insert"@) =~= "insert"@);
    lemma_trim_id("insert"@);
}

proof fn lemma_step_key_printscreen(st: ComboState)
    ensures
        combo_step(st, "PrintScreen"@) == Ok::<ComboState, Seq<char>>((st.0, Some(Key::PrintScreen))),
{
    reveal_strlit("PrintScreen");
    reveal_strlit("space");
    reveal_strlit("enter");
    reveal_strlit("return");
    reveal_strlit("escape");
    reveal_strlit("esc");
    reveal_strlit("tab");
    reveal_strlit("backspace");
    reveal_strlit("back");
    reveal_strlit("delete");
    reveal_strlit("del");
    reveal_strlit("up");
    reveal_strlit("arrowup");
    reveal_strlit("down");
    reveal_strlit("arrowdown");
    reveal_strlit("left");
    reveal_strlit("arrowleft");
    reveal_strlit("right");
    reveal_strlit("arrowright");
    reveal_strlit("home");
    reveal_strlit("end");
    reveal_strlit("pageup");
    reveal_strlit("prior");
    reveal_strlit("pagedown");
    reveal_strlit("next");
    reveal_strlit("insert");
    reveal_strlit("ins");
    reveal_strlit("printscreen");
    reveal_strlit("ctrl");
    reveal_strlit("control");
    reveal_strlit("alt");
    reveal_strlit("option");
    reveal_strlit("shift");
    reveal_strlit("meta");
    reveal_strlit("win");
    reveal_strlit("cmd");
    reveal_strlit("super");
    reveal_strlit("command");
    lemma_trim_id("PrintScreen"@);
    assert(lower_seq("PrintScreen"@) =~= "printscreen"@);
    assert(lower_seq("printscreen"@) =~= "printscreen"@);
    lemma_trim_id("printscreen"@);
}

proof fn lemma_step_key_letter(st: ComboState, c: char)
    requires
        is_ascii_lower(c),
    ensures
        combo_step(st, key_text(Key::Letter(c))) == Ok::<ComboState, Seq<char>>((st.0, Some(Key::Letter(c)))),
{
    reveal_strlit("ctrl");
    reveal_strlit("control");
    reveal_strlit("alt");
    reveal_strlit("option");
    reveal_strlit("shift");
    reveal_strlit("meta");
    reveal_strlit("win");
    reveal_strlit("cmd");
    reveal_strlit("super");
    reveal_strlit("command");
    let t = key_text(Key::Letter(c));
    assert(t == seq![ascii_upper(c)]);
    lemma_trim_id(t);
    assert(lower_seq(t) =~= seq![c]);
    lemma_trim_id(seq![c]);
}

proof fn lemma_step_key_digit(st: ComboState, d: u8)
    requires
        d <= 9,
    ensures
        combo_step(st, key_text(Key::Digit(d))) == Ok::<ComboState, Seq<char>>((st.0, Some(Key::Digit(d)))),
{
    reveal_strlit("ctrl");
    reveal_strlit("control");
    reveal_strlit("alt");
    reveal_strlit("option");
    reveal_strlit("shift");
    reveal_strlit("meta");
    reveal_strlit("win");
    reveal_strlit("cmd");
    reveal_strlit("super");
    reveal_strlit("command");
    let t = key_text(Key::Digit(d));
    lemma_digit_char(d as nat);
    assert(t == seq![digit_char(d as nat)]);
    lemma_trim_id(t);
    assert(lower_seq(t) =~= t);
}

proof fn lemma_step_key_f(st: ComboState, n: u8)
    requires
        1 <= n <= 24,
    ensures
        combo_step(st, key_text(Key::F(n))) == Ok::<ComboState, Seq<char>>((st.0, Some(Key::F(n)))),
{
    reveal_strlit("ctrl");
    reveal_strlit("control");
    reveal_strlit("alt");
    reveal_strlit("option");
    reveal_strlit("shift");
    reveal_strlit("meta");
    reveal_strlit("win");
    reveal_strlit("cmd");
    reveal_strlit("super");
    reveal_strlit("command");
    reveal_strlit("space");
    reveal_strlit("enter");
    reveal_strlit("return");
    reveal_strlit("escape");
    reveal_strlit("esc");
    reveal_strlit("tab");
    reveal_strlit("backspace");
    reveal_strlit("back");
    reveal_strlit("delete");
    reveal_strlit("del");
    reveal_strlit("up");
    reveal_strlit("arrowup");
    reveal_strlit("down");
    reveal_strlit("arrowdown");
    reveal_strlit("left");
    reveal_strlit("arrowleft");
    reveal_strlit("right");
    reveal_strlit("arrowright");
    reveal_strlit("home");
    reveal_strlit("end");
    reveal_strlit("pageup");
    reveal_strlit("prior");
    reveal_strlit("pagedown");
    reveal_strlit("next");
    reveal_strlit("insert");
    reveal_strlit("ins");
    reveal_strlit("printscreen");
    let t = key_text(Key::F(n));
    let dn = decimal(n as nat);
    lemma_decimal_digits(n as nat);
    assert(t == seq!['F'] + dn);
    assert(t[0] == 'F');
    assert(t.last() == dn.last());
    assert(is_ascii_digit(dn[dn.len() - 1]));
    lemma_trim_id(t);
    let l = lower_seq(t);
    assert forall|i: int| 0 <= i < dn.len() implies ascii_lower(#[trigger] dn[i]) == dn[i] by {
        assert(is_ascii_digit(dn[i]));
    }
    assert(l =~= seq!['f'] + dn);
    assert(l[0] == 'f');
    assert(l.last() == dn.last());
    lemma_trim_id(l);
    assert(lower_seq(l) =~= l);
    assert(l.drop_first() =~= dn);
    assert(parse_u8_spec(dn) == Some(n));
}

proof fn lemma_step_key(st: ComboState, k: Key)
    requires
        valid_key(k),
    ensures
        combo_step(st, key_text(k)) == Ok::<ComboState, Seq<char>>((st.0, Some(k))),
{
    match k {
        Key::Letter(c) => lemma_step_key_letter(st, c),
        Key::Digit(d) => lemma_step_key_digit(st, d),
        Key::F(n) => lemma_step_key_f(st, n),
        Key::Space => lemma_step_key_space(st),
        Key::Enter => lemma_step_key_enter(st),
        Key::Escape => lemma_step_key_escape(st),
        Key::Tab => lemma_step_key_tab(st),
        Key::Backspace => lemma_step_key_backspace(st),
        Key::Delete => lemma_step_key_delete(st),
        Key::ArrowUp => lemma_step_key_arrowup(st),
        Key::ArrowDown => lemma_step_key_arrowdown(st),
        Key::ArrowLeft => lemma_step_key_arrowleft(st),
        Key::ArrowRight => lemma_step_key_arrowright(st),
        Key::Home => lemma_step_key_home(st),
        Key::End => lemma_step_key_end(st),
        Key::PageUp => lemma_step_key_pageup(st),
        Key::PageDown => lemma_step_key_pagedown(st),
        Key::Insert => lemma_step_key_insert(st),
        Key::PrintScreen => lemma_step_key_printscreen(st),
    }
}

proof fn lemma_key_text_no_plus(k: Key)
    requires
        valid_key(k),
    ensures
        no_plus(key_text(k)),
{
    reveal_strlit("Space");
    reveal_strlit("Enter");
    reveal_strlit("Escape");
    reveal_strlit("Tab");
    reveal_strlit("Backspace");
    reveal_strlit("Delete");
    reveal_strlit("Up");
    reveal_strlit("Down");
    reveal_strlit("Left");
    reveal_strlit("Right");
    reveal_strlit("Home");
    reveal_strlit("End");
    reveal_strlit("PageUp");
    reveal_strlit("PageDown");
    reveal_strlit("Insert");
    reveal_strlit("PrintScreen");
    reveal_strlit("Ctrl");
    reveal_strlit("Alt");
    reveal_strlit("Shift");
    reveal_strlit("Meta");
    match k {
        Key::Digit(d) => {
            lemma_digit_char(d as nat);
        },
        Key::F(n) => {
            lemma_decimal_digits(n as nat);
            let dn = decimal(n as nat);
            assert forall|i: int| 0 <= i < key_text(k).len() implies key_text(k)[i] != '+' by {
                if i > 0 {
                    assert(key_text(k)[i] == dn[i - 1]);
                    assert(is_ascii_digit(dn[i - 1]));
                }
            }
        },
        _ => {},
    }
}

/// One more token extends the fold by one step.
proof fn lemma_combo_fold_push(ts: Seq<Seq<char>>, t: Seq<char>)
    ensures
        combo_fold(ts.push(t)) == match combo_fold(ts) {
            Err(e) => Err(e),
            Ok(st) => combo_step(st, t),
        },
{
    assert(ts.push(t).drop_last() =~= ts);
}

/// Law: the text of a hotkey parses back to the same hotkey.
pub proof fn lemma_hotkey_text_parses_back(hk: Hotkey)
    requires
        valid_key(hk.key),
    ensures
        parse_hotkey_spec(hotkey_text(hk)) == Ok::<Hotkey, Seq<char>>(hk),
{
    reveal_strlit("Space");
    reveal_strlit("Enter");
    reveal_strlit("Escape");
    reveal_strlit("Tab");
    reveal_strlit("Backspace");
    reveal_strlit("Delete");
    reveal_strlit("Up");
    reveal_strlit("Down");
    reveal_strlit("Left");
    reveal_strlit("Right");
    reveal_strlit("Home");
    reveal_strlit("End");
    reveal_strlit("PageUp");
    reveal_strlit("PageDown");
    reveal_strlit("Insert");
    reveal_strlit("PrintScreen");
    reveal_strlit("Ctrl");
    reveal_strlit("Alt");
    reveal_strlit("Shift");
    reveal_strlit("Meta");
    let m = hk.modifiers;
    let p0: Seq<Seq<char>> = Seq::empty();
    let p1 = if m.ctrl { p0.push("Ctrl"@) } else { p0 };
    let p2 = if m.alt { p1.push("Alt"@) } else { p1 };
    let p3 = if m.shift { p2.push("Shift"@) } else { p2 };
    let p4 = if m.meta { p3.push("Meta"@) } else { p3 };
    let parts = hotkey_parts(hk);
    assert(parts == p4.push(key_text(hk.key)));
    lemma_key_text_no_plus(hk.key);
    assert forall|i: int| 0 <= i < parts.len() implies no_plus(#[trigger] parts[i]) by {
        if i < parts.len() - 1 {
            assert(parts[i] == "Ctrl"@ || parts[i] == "Alt"@ || parts[i] == "Shift"@ || parts[i]
                == "Meta"@);
        }
    }
    lemma_split_join(parts);
    let m1 = Modifiers { ctrl: m.ctrl, ..no_modifiers() };
    let m2 = Modifiers { alt: m.alt, ..m1 };
    let m3 = Modifiers { shift: m.shift, ..m2 };
    let none: Option<Key> = None;
    assert(combo_fold(p0) == Ok::<ComboState, Seq<char>>((no_modifiers(), none)));
    lemma_step_modifier_words((no_modifiers(), none));
    lemma_combo_fold_push(p0, "Ctrl"@);
    assert(combo_fold(p1) == Ok::<ComboState, Seq<char>>((m1, none)));
    lemma_step_modifier_words((m1, none));
    lemma_combo_fold_push(p1, "Alt"@);
    assert(combo_fold(p2) == Ok::<ComboState, Seq<char>>((m2, none)));
    lemma_step_modifier_words((m2, none));
    lemma_combo_fold_push(p2, "Shift"@);
    assert(combo_fold(p3) == Ok::<ComboState, Seq<char>>((m3, none)));
    lemma_step_modifier_words((m3, none));
    lemma_combo_fold_push(p3, "Meta"@);
    assert(combo_fold(p4) == Ok::<ComboState, Seq<char>>((m, none)));
    lemma_step_key((m, none), hk.key);
    lemma_combo_fold_push(p4, key_text(hk.key));
}

/// A word of at most seven characters whose letters are all lower-case
/// ASCII, checked one index at a time.
proof fn lemma_lower_word(l: Seq<char>)
    requires
        1 <= l.len() <= 7,
        is_ascii_lower(l[0]),
        l.len() > 1 ==> is_ascii_lower(l[1]),
        l.len() > 2 ==> is_ascii_lower(l[2]),
        l.len() > 3 ==> is_ascii_lower(l[3]),
        l.len() > 4 ==> is_ascii_lower(l[4]),
        l.len() > 5 ==> is_ascii_lower(l[5]),
        l.len() > 6 ==> is_ascii_lower(l[6]),
    ensures
        forall|i: int| 0 <= i < l.len() ==> is_ascii_lower(#[trigger] l[i]),
{
    assert forall|i: int| 0 <= i < l.len() implies is_ascii_lower(#[trigger] l[i]) by {
        if i == 0 {
        } else if i == 1 {
        } else if i == 2 {
        } else if i == 3 {
        } else if i == 4 {
        } else if i == 5 {
        } else {
        }
    }
}

/// A string that lower-cases to a word of ASCII letters holds only
/// letters: no `+` and no white space, so it is one token and trims to
/// itself.
proof fn lemma_letters_only(w: Seq<char>)
    requires
        lower_seq(w).len() >= 1,
        forall|i: int| 0 <= i < lower_seq(w).len() ==> is_ascii_lower(#[trigger] lower_seq(w)[i]),
    ensures
        no_plus(w),
        trim(w) == w,
{
    let l = lower_seq(w);
    assert forall|i: int| 0 <= i < w.len() implies is_ascii_lower(#[trigger] w[i]) || is_ascii_upper(w[i]) by {
        assert(l[i] == ascii_lower(w[i]));
        assert(is_ascii_lower(l[i]));
    }
    assert(is_ascii_lower(w[0]) || is_ascii_upper(w[0]));
    assert(is_ascii_lower(w[w.len() - 1]) || is_ascii_upper(w[w.len() - 1]));
    lemma_trim_id(w);
}

/// The literal modifier words, with the letters the proofs below need.
proof fn lemma_modifier_literals()
    ensures
        forall|i: int| 0 <= i < "ctrl"@.len() ==> is_ascii_lower(#[trigger] "ctrl"@[i]),
        forall|i: int| 0 <= i < "control"@.len() ==> is_ascii_lower(#[trigger] "control"@[i]),
        forall|i: int| 0 <= i < "alt"@.len() ==> is_ascii_lower(#[trigger] "alt"@[i]),
        forall|i: int| 0 <= i < "option"@.len() ==> is_ascii_lower(#[trigger] "option"@[i]),
        forall|i: int| 0 <= i < "shift"@.len() ==> is_ascii_lower(#[trigger] "shift"@[i]),
        forall|i: int| 0 <= i < "meta"@.len() ==> is_ascii_lower(#[trigger] "meta"@[i]),
        forall|i: int| 0 <= i < "win"@.len() ==> is_ascii_lower(#[trigger] "win"@[i]),
        forall|i: int| 0 <= i < "cmd"@.len() ==> is_ascii_lower(#[trigger] "cmd"@[i]),
        forall|i: int| 0 <= i < "super"@.len() ==> is_ascii_lower(#[trigger] "super"@[i]),
        forall|i: int| 0 <= i < "command"@.len() ==> is_ascii_lower(#[trigger] "command"@[i]),
        "ctrl"@.len() >= 1 && "control"@.len() >= 1 && "alt"@.len() >= 1 && "option"@.len() >= 1,
        "shift"@.len() >= 1 && "meta"@.len() >= 1 && "win"@.len() >= 1 && "cmd"@.len() >= 1,
        "super"@.len() >= 1 && "command"@.len() >= 1,
        "ctrl"@ != "control"@ && "ctrl"@ != "alt"@ && "ctrl"@ != "option"@ && "ctrl"@ != "shift"@,
        "control"@ != "alt"@ && "control"@ != "option"@ && "control"@ != "shift"@,
        "alt"@ != "option"@ && "alt"@ != "shift"@ && "option"@ != "shift"@,
        "meta"@ != "ctrl"@ && "meta"@ != "control"@ && "meta"@ != "alt"@ && "meta"@ != "option"@
            && "meta"@ != "shift"@,
        "win"@ != "ctrl"@ && "win"@ != "control"@ && "win"@ != "alt"@ && "win"@ != "option"@
            && "win"@ != "shift"@,
        "cmd"@ != "ctrl"@ && "cmd"@ != "control"@ && "cmd"@ != "alt"@ && "cmd"@ != "option"@
            && "cmd"@ != "shift"@,
        "super"@ != "ctrl"@ && "super"@ != "control"@ && "super"@ != "alt"@ && "super"@ != "option"@
            && "super"@ != "shift"@,
        "command"@ != "ctrl"@ && "command"@ != "control"@ && "command"@ != "alt"@ && "command"@
            != "option"@ && "command"@ != "shift"@,
{
    reveal_strlit("ctrl");
    reveal_strlit("control");
    reveal_strlit("alt");
    reveal_strlit("option");
    reveal_strlit("shift");
    reveal_strlit("meta");
    reveal_strlit("win");
    reveal_strlit("cmd");
    reveal_strlit("super");
    reveal_strlit("command");
    lemma_lower_word("ctrl"@);
    lemma_lower_word("control"@);
    lemma_lower_word("alt"@);
    lemma_lower_word("option"@);
    lemma_lower_word("shift"@);
    lemma_lower_word("meta"@);
    lemma_lower_word("win"@);
    lemma_lower_word("cmd"@);
    lemma_lower_word("super"@);
    lemma_lower_word("command"@);
    assert("ctrl"@[1] != "cmd"@[1]);
    assert("control"@[2] != "command"@[2]);
    assert("shift"@[1] != "super"@[1]);
    assert("ctrl"@[0] != "meta"@[0]);
    assert("alt"@[0] != "win"@[0] && "alt"@[0] != "cmd"@[0]);
}

/// Law: each modifier word, in any letter case, sets its modifier and only
/// that one. For the text of any key, `Ctrl+K`, `control+K` set Ctrl;
/// `Alt+K`, `option+K` set Alt; `Shift+K` sets Shift; `Meta+K`, `Win+K`,
/// `Cmd+K`, `Super+K`, `Command+K` set Meta; the key is `K`'s key.
pub proof fn lemma_modifier_words_parse(w: Seq<char>, k: Key)
    requires
        valid_key(k),
    ensures
        (lower_seq(w) == "ctrl"@ || lower_seq(w) == "control"@) ==> parse_hotkey_spec(
            w + seq!['+'] + key_text(k),
        ) == Ok::<Hotkey, Seq<char>>(
            Hotkey { modifiers: Modifiers { ctrl: true, alt: false, shift: false, meta: false }, key: k },
        ),
        (lower_seq(w) == "alt"@ || lower_seq(w) == "option"@) ==> parse_hotkey_spec(
            w + seq!['+'] + key_text(k),
        ) == Ok::<Hotkey, Seq<char>>(
            Hotkey { modifiers: Modifiers { ctrl: false, alt: true, shift: false, meta: false }, key: k },
        ),
        lower_seq(w) == "shift"@ ==> parse_hotkey_spec(w + seq!['+'] + key_text(k)) == Ok::<
            Hotkey,
            Seq<char>,
        >(Hotkey { modifiers: Modifiers { ctrl: false, alt: false, shift: true, meta: false }, key: k }),
        (lower_seq(w) == "meta"@ || lower_seq(w) == "win"@ || lower_seq(w) == "cmd"@ || lower_seq(w)
            == "super"@ || lower_seq(w) == "command"@) ==> parse_hotkey_spec(
            w + seq!['+'] + key_text(k),
        ) == Ok::<Hotkey, Seq<char>>(
            Hotkey { modifiers: Modifiers { ctrl: false, alt: false, shift: false, meta: true }, key: k },
        ),
{
    let l = lower_seq(w);
    let is_word = l == "ctrl"@ || l == "control"@ || l == "alt"@ || l == "option"@ || l == "shift"@
        || l == "meta"@ || l == "win"@ || l == "cmd"@ || l == "super"@ || l == "command"@;
    if is_word {
        lemma_modifier_literals();
        lemma_letters_only(w);
        let kt = key_text(k);
        lemma_key_text_no_plus(k);
        let parts = seq![w, kt];
        assert(parts.drop_last() =~= seq![w]);
        assert(join_plus(seq![w]) == w);
        assert(parts.last() == kt);
        assert(join_plus(parts) == join_plus(parts.drop_last()) + seq!['+'] + parts.last());
        assert(join_plus(parts) == w + seq!['+'] + kt);
        assert forall|i: int| 0 <= i < parts.len() implies no_plus(#[trigger] parts[i]) by {}
        lemma_split_join(parts);
        let none: Option<Key> = None;
        let st0: ComboState = (no_modifiers(), none);
        assert(parts.drop_last().drop_last() =~= Seq::<Seq<char>>::empty());
        assert(combo_fold(parts.drop_last().drop_last()) == Ok::<ComboState, Seq<char>>(st0));
        assert(trim(w) == w);
        let m = if l == "ctrl"@ || l == "control"@ {
            Modifiers { ctrl: true, ..no_modifiers() }
        } else if l == "alt"@ || l == "option"@ {
            Modifiers { alt: true, ..no_modifiers() }
        } else if l == "shift"@ {
            Modifiers { shift: true, ..no_modifiers() }
        } else {
            Modifiers { meta: true, ..no_modifiers() }
        };
        assert(combo_step(st0, w) == Ok::<ComboState, Seq<char>>((m, none)));
        assert(combo_fold(parts.drop_last()) == Ok::<ComboState, Seq<char>>((m, none)));
        lemma_step_key((m, none), k);
        assert(combo_fold(parts) == Ok::<ComboState, Seq<char>>((m, Some(k))));
    }
}

// ---------------------------------------------------------------------------
// Registered hotkeys
// ---------------------------------------------------------------------------

/// Called when a registered hotkey fires.
pub trait HotkeyHandler {
    fn on_hotkey(&self, id: u32, hotkey: &Hotkey);
}

/// What registering a hotkey asks of the platform code.
#[derive(Debug, Clone, Copy, PartialEq, Eq, Structural)]
pub enum HotkeyStep {
    /// Send the registration to the running hotkey thread.
    Register { id: u32, hotkey: Hotkey },
    /// Start the hotkey thread first, then send the registration.
    StartThenRegister { id: u32, hotkey: Hotkey },
}

pub open spec fn unsupported_hotkeys_message() -> Seq<char> {
    "global hotkeys are only supported on Windows and macOS"@
}

pub open spec fn mac_hotkeys_message() -> Seq<char> {
    "global hotkeys on macOS require a CGEventTap implementation (pending macOS build)"@
}

/// Global hotkeys for one handler. The platform thread that owns the
/// registrations is started on the first registration.
pub struct HotkeyManager<H> {
    handler: Arc<H>,
    started: bool,
}

impl<H: HotkeyHandler> HotkeyManager<H> {
    pub closed spec fn started_spec(&self) -> bool {
        self.started
    }

    /// The handler the manager was made with.
    pub closed spec fn handler_spec(&self) -> Arc<H> {
        self.handler
    }

    pub fn new(handler: Arc<H>) -> (r: Self)
        ensures
            !r.started_spec(),
            r.handler_spec() == handler,
    {
        HotkeyManager { handler, started: false }
    }

    /// The handler fired hotkeys go to.
    pub fn handler(&self) -> (r: &Arc<H>)
        ensures
            *r == self.handler_spec(),
    {
        &self.handler
    }

    /// Register `hotkey` under `id`. With the thread running the
    /// registration is sent to it; otherwise it is started first on
    /// Windows, and refused on other platforms.
    pub fn register(&mut self, id: u32, hotkey: &Hotkey, os: TargetOs) -> (r: Result<HotkeyStep, RdesktopError>)
        ensures
            old(self).started_spec() ==> r == Ok::<HotkeyStep, RdesktopError>(HotkeyStep::Register { id, hotkey: *hotkey })
                && final(self).started_spec(),
            !old(self).started_spec() && os == TargetOs::Windows ==> r == Ok::<HotkeyStep, RdesktopError>(
                HotkeyStep::StartThenRegister { id, hotkey: *hotkey },
            ) && final(self).started_spec(),
            !old(self).started_spec() && os == TargetOs::MacOs ==> (r matches Err(RdesktopError::UnsupportedPlatform(m))
                && m@ == mac_hotkeys_message()) && !final(self).started_spec(),
            !old(self).started_spec() && os != TargetOs::Windows && os != TargetOs::MacOs ==> (r matches Err(
                RdesktopError::UnsupportedPlatform(m),
            ) && m@ == unsupported_hotkeys_message()) && !final(self).started_spec(),
            final(self).handler_spec() == old(self).handler_spec(),
    {
        if self.started {
            return Ok(HotkeyStep::Register { id, hotkey: *hotkey });
        }
        match os {
            TargetOs::Windows => {
                self.started = true;
                Ok(HotkeyStep::StartThenRegister { id, hotkey: *hotkey })
            },
            TargetOs::MacOs => match MacHotkey::<H>::start(self.handler.clone()) {
                Ok(_) => Ok(HotkeyStep::Register { id, hotkey: *hotkey }),
                Err(e) => Err(e),
            },
            _ => Err(
                RdesktopError::UnsupportedPlatform(
                    String::from_str("global hotkeys are only supported on Windows and macOS"),
                ),
            ),
        }
    }

    /// Unregister `id`: the id to send to the running thread, or `None`
    /// when no thread runs and there is nothing to do.
    pub fn unregister(&self, id: u32) -> (r: Option<u32>)
        ensures
            r == if self.started_spec() {
                Some(id)
            } else {
                None::<u32>
            },
    {
        if self.started {
            Some(id)
        } else {
            None
        }
    }

    /// Stop the hotkey thread; the result says whether one was running.
    pub fn stop(&mut self) -> (r: bool)
        ensures
            r == old(self).started_spec(),
            !final(self).started_spec(),
            final(self).handler_spec() == old(self).handler_spec(),
    {
        let was = self.started;
        self.started = false;
        was
    }
}

/// The macOS hotkey backend, which is not available yet.
pub struct MacHotkey<H> {
    handler: Arc<H>,
}

impl<H: HotkeyHandler> MacHotkey<H> {
    /// Always refused: the macOS event tap is not implemented.
    pub fn start(handler: Arc<H>) -> (r: Result<MacHotkey<H>, RdesktopError>)
        ensures
            r matches Err(RdesktopError::UnsupportedPlatform(m)) && m@ == mac_hotkeys_message(),
    {
        Err(
            RdesktopError::UnsupportedPlatform(
                String::from_str("global hotkeys on macOS require a CGEventTap implementation (pending macOS build)"),
            ),
        )
    }

    pub fn register(&self, id: u32, hotkey: &Hotkey) -> (r: Result<(), RdesktopError>)
        ensures
            r is Ok,
    {
        Ok(())
    }

    pub fn unregister(&self, id: u32) -> (r: Result<(), RdesktopError>)
        ensures
            r is Ok,
    {
        Ok(())
    }

    pub fn stop(self) {
    }
}

/// A command for the hotkey thread.
#[derive(Debug, Clone, Copy, PartialEq, Eq, Structural)]
pub enum HotkeyCommand {
    Register(u32, Hotkey),
    Unregister(u32),
    Stop,
}

/// A call the hotkey thread makes to the operating system.
#[derive(Debug, Clone, Copy, PartialEq, Eq, Structural)]
pub enum HotkeyCall {
    /// `RegisterHotKey(id, modifiers, vk)`
    Register { id: u32, modifiers: u32, vk: u32 },
    /// `UnregisterHotKey(id)`
    Unregister { id: u32 },
    /// Leave the message loop.
    Quit,
}

/// The hotkeys the thread has registered, by id.
pub struct HotkeyRegistry {
    map: HashMap<u32, Hotkey>,
}

impl HotkeyRegistry {
    pub closed spec fn view_map(&self) -> Map<u32, Hotkey> {
        self.map@
    }

    pub fn new() -> (r: Self)
        ensures
            r.view_map() == Map::<u32, Hotkey>::empty(),
    {
        HotkeyRegistry { map: HashMap::new() }
    }

    /// Carry out a command: registering records the hotkey and calls
    /// `RegisterHotKey`; unregistering forgets it and calls
    /// `UnregisterHotKey`; stopping quits the loop.
    pub fn apply(&mut self, cmd: HotkeyCommand) -> (r: HotkeyCall)
        requires
            cmd matches HotkeyCommand::Register(_, hk) ==> has_vk(hk.key),
        ensures
            match cmd {
                HotkeyCommand::Register(id, hk) => r == (HotkeyCall::Register {
                    id,
                    modifiers: mods_to_raw_spec(hk.modifiers),
                    vk: key_to_vk_spec(hk.key),
                }) && final(self).view_map() == old(self).view_map().insert(id, hk),
                HotkeyCommand::Unregister(id) => r == (HotkeyCall::Unregister { id })
                    && final(self).view_map() == old(self).view_map().remove(id),
                HotkeyCommand::Stop => r == HotkeyCall::Quit && final(self).view_map() == old(
                    self,
                ).view_map(),
            },
    {
        broadcast use vstd::std_specs::hash::group_hash_axioms;

        match cmd {
            HotkeyCommand::Register(id, hk) => {
                let vk = key_to_vk(hk.key);
                let modifiers = mods_to_raw(hk.modifiers);
                self.map.insert(id, hk);
                HotkeyCall::Register { id, modifiers, vk }
            },
            HotkeyCommand::Unregister(id) => {
                self.map.remove(&id);
                HotkeyCall::Unregister { id }
            },
            HotkeyCommand::Stop => HotkeyCall::Quit,
        }
    }

    /// The hotkey a fired id names, if it is registered.
    pub fn lookup(&self, id: u32) -> (r: Option<Hotkey>)
        ensures
            r == if self.view_map().contains_key(id) {
                Some(self.view_map()[id])
            } else {
                None::<Hotkey>
            },
    {
        broadcast use vstd::std_specs::hash::group_hash_axioms;

        match self.map.get(&id) {
            Some(hk) => Some(*hk),
            None => None,
        }
    }
}

/// A hotkey fires for its id from its registration until it is
/// unregistered, and registering or unregistering one id leaves the others
/// alone.
pub proof fn lemma_registry_register_unregister(m: Map<u32, Hotkey>, id: u32, hk: Hotkey, other: u32)
    requires
        other != id,
    ensures
        m.insert(id, hk).contains_key(id) && m.insert(id, hk)[id] == hk,
        !m.insert(id, hk).remove(id).contains_key(id),
        m.insert(id, hk).contains_key(other) == m.contains_key(other),
        m.contains_key(other) ==> m.insert(id, hk)[other] == m[other],
        m.remove(id).contains_key(other) == m.contains_key(other),
        m.contains_key(other) ==> m.remove(id)[other] == m[other],
{
}

impl std::str::FromStr for Hotkey {
    type Err = String;

    fn from_str(s: &str) -> (r: Result<Hotkey, String>)
        ensures
            match r {
                Ok(hk) => parse_hotkey_spec(s@) == Ok::<Hotkey, Seq<char>>(hk),
                Err(e) => parse_hotkey_spec(s@) == Err::<Hotkey, Seq<char>>(e@),
            },
    {
        Hotkey::parse(s)
    }
}

} // verus!
