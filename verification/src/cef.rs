//! The Chromium backend's own logic: where to look for a browser, and the
//! script that delivers a message to the page.

use crate::platform::TargetOs;
use crate::text::{chars_of, push_str};
use vstd::prelude::*;
use vstd::string::*;

verus! {

/// The executables tried, in order. On Windows the last candidate lies in
/// the user's local application data directory.
pub open spec fn chrome_candidates_spec(os: TargetOs, local_app_data: Seq<char>) -> Seq<Seq<char>> {
    match os {
        TargetOs::Windows => seq![
            "C:\\Program Files\\Google\\Chrome\\Application\\chrome.exe"@,
            "C:\\Program Files (x86)\\Google\\Chrome\\Application\\chrome.exe"@,
            "C:\\Program Files (x86)\\Microsoft\\Edge\\Application\\msedge.exe"@,
            local_app_data + "\\Google\\Chrome\\Application\\chrome.exe"@,
        ],
        TargetOs::MacOs => seq![
            "/Applications/Google Chrome.app/Contents/MacOS/Google Chrome"@,
            "/Applications/Microsoft Edge.app/Contents/MacOS/Microsoft Edge"@,
            "/Applications/Chromium.app/Contents/MacOS/Chromium"@,
        ],
        _ => seq![
            "/usr/bin/google-chrome"@,
            "/usr/bin/google-chrome-stable"@,
            "/usr/bin/chromium"@,
            "/usr/bin/chromium-browser"@,
            "/snap/bin/chromium"@,
        ],
    }
}

pub open spec fn views(v: Seq<String>) -> Seq<Seq<char>> {
    Seq::new(v.len(), |i: int| v[i]@)
}

/// The browser executables to look for on a platform.
pub fn chrome_candidates(os: TargetOs, local_app_data: &str) -> (r: Vec<String>)
    ensures
        views(r@) == chrome_candidates_spec(os, local_app_data@),
{
    let mut v: Vec<String> = Vec::new();
    match os {
        TargetOs::Windows => {
            v.push(String::from_str("C:\\Program Files\\Google\\Chrome\\Application\\chrome.exe"));
            v.push(String::from_str("C:\\Program Files (x86)\\Google\\Chrome\\Application\\chrome.exe"));
            v.push(String::from_str("C:\\Program Files (x86)\\Microsoft\\Edge\\Application\\msedge.exe"));
            let mut last = String::new();
            push_str(&mut last, local_app_data);
            push_str(&mut last, "\\Google\\Chrome\\Application\\chrome.exe");
            v.push(last);
        },
        TargetOs::MacOs => {
            v.push(String::from_str("/Applications/Google Chrome.app/Contents/MacOS/Google Chrome"));
            v.push(String::from_str("/Applications/Microsoft Edge.app/Contents/MacOS/Microsoft Edge"));
            v.push(String::from_str("/Applications/Chromium.app/Contents/MacOS/Chromium"));
        },
        _ => {
            v.push(String::from_str("/usr/bin/google-chrome"));
            v.push(String::from_str("/usr/bin/google-chrome-stable"));
            v.push(String::from_str("/usr/bin/chromium"));
            v.push(String::from_str("/usr/bin/chromium-browser"));
            v.push(String::from_str("/snap/bin/chromium"));
        },
    }
    proof {
        assert(views(v@) =~= chrome_candidates_spec(os, local_app_data@));
    }
    v
}

/// The first candidate that exists, given which of them exist.
pub fn first_existing(candidates: &Vec<String>, present: &[bool]) -> (r: Option<String>)
    requires
        candidates@.len() == present@.len(),
    ensures
        match r {
            Some(p) => exists|i: int|
                0 <= i < present@.len() && present@[i] && p@ == candidates@[i]@ && forall|j: int|
                    0 <= j < i ==> !#[trigger] present@[j],
            None => forall|i: int| 0 <= i < present@.len() ==> !#[trigger] present@[i],
        },
{
    let mut i: usize = 0;
    while i < present.len()
        invariant
            candidates@.len() == present@.len(),
            i <= present@.len(),
            forall|j: int| 0 <= j < i ==> !#[trigger] present@[j],
        decreases present@.len() - i,
    {
        if present[i] {
            let p = candidates[i].clone();
            proof {
                assert(0 <= i < present@.len() && present@[i as int] && p@ == candidates@[i as int]@);
            }
            return Some(p);
        }
        i = i + 1;
    }
    None
}

/// A message escaped for a single-quoted JavaScript string: backslashes
/// doubled, single quotes preceded by a backslash.
pub open spec fn js_single_quote_escape(s: Seq<char>) -> Seq<char>
    decreases s.len(),
{
    if s.len() == 0 {
        Seq::empty()
    } else {
        js_single_quote_escape(s.drop_last()) + if s.last() == '\\' {
            seq!['\\', '\\']
        } else if s.last() == '\'' {
            seq!['\\', '\'']
        } else {
            seq![s.last()]
        }
    }
}

/// The script that hands `message` to the page's IPC entry point.
pub fn send_to_frontend_script(message: &str) -> (r: String)
    ensures
        r@ == "window.__RDESKTOP_IPC__('"@ + js_single_quote_escape(message@) + "')"@,
{
    let v = chars_of(message);
    let mut s = String::new();
    push_str(&mut s, "window.__RDESKTOP_IPC__('");
    let ghost start = s@;
    let mut i: usize = 0;
    while i < v.len()
        invariant
            v@ == message@,
            i <= v@.len(),
            s@ == start + js_single_quote_escape(v@.take(i as int)),
        decreases v@.len() - i,
    {
        let c = v[i];
        if c == '\\' {
            s.push('\\');
            s.push('\\');
        } else if c == '\'' {
            s.push('\\');
            s.push('\'');
        } else {
            s.push(c);
        }
        proof {
            assert(v@.take(i + 1).drop_last() =~= v@.take(i as int));
            assert(s@ =~= start + js_single_quote_escape(v@.take(i + 1)));
        }
        i = i + 1;
    }
    proof {
        assert(v@.take(v@.len() as int) =~= v@);
    }
    push_str(&mut s, "')");
    s
}

/// Hands out window ids for the Chromium renderer, from 1 upward.
pub struct WindowIds {
    next: u64,
}

impl WindowIds {
    pub closed spec fn next_spec(&self) -> u64 {
        self.next
    }

    pub fn new() -> (r: Self)
        ensures
            r.next_spec() == 1,
    {
        WindowIds { next: 1 }
    }

    /// The id the next call of `next_id` hands out.
    pub fn peek(&self) -> (r: u64)
        ensures
            r == self.next_spec(),
    {
        self.next
    }

    /// The next id; each call returns one more than the last.
    pub fn next_id(&mut self) -> (r: u64)
        requires
            old(self).next_spec() < u64::MAX,
        ensures
            r == old(self).next_spec(),
            final(self).next_spec() == r + 1,
    {
        let id = self.next;
        self.next = id + 1;
        id
    }
}

} // verus!
