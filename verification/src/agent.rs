//! The Agent API's own logic: element search in a DOM snapshot, the demo
//! IPC commands, recording request options and the answers built from a
//! recording snapshot. The HTTP plumbing around these lives with the server.

use std::collections::HashMap;
use crate::recording::{
    is_mp4, opt_str, RecordingSnapshot, RecordingStatus, DEFAULT_RECORDING_MAX_DURATION_SECONDS,
    MAX_RECORDING_MAX_DURATION_SECONDS,
};
use crate::text::{
    to_lowercase, unicode_lowercase, chars_of, contains_seq, decimal, find_from, find_from_exec, lemma_find_from_spec, matches_at, push_chars,
    push_decimal, push_str, starts_with_str, str_eq, string_from_chars, trim, trim_chars,
};
use vstd::prelude::*;
use vstd::string::*;

verus! {

/// Query parameters for element selection.
#[derive(Debug, Clone)]
pub struct ElementQuery {
    /// Tag selector such as `button` or `<h1>`.
    pub selector: Option<String>,
    /// Text to search for, ignoring case.
    pub text: Option<String>,
    /// Role attribute to filter by.
    pub role: Option<String>,
}

/// The kinds of UI action an agent can queue.
#[derive(Debug, Clone, Copy, PartialEq, Eq, Structural)]
pub enum ActionType {
    Click,
    DoubleClick,
    RightClick,
    Type,
    Fill,
    Clear,
    Scroll,
    Hover,
    Focus,
    Select,
}

/// A DOM snapshot returned to agents.
#[derive(Debug, Clone)]
pub struct DomSnapshot {
    pub html: String,
    pub url: String,
    pub title: String,
    pub timestamp: String,
}

/// One element found in a DOM snapshot.
#[derive(Debug, Clone)]
pub struct ElementInfo {
    pub selector: String,
    pub tag: String,
    pub text: String,
    pub attributes: HashMap<String, String>,
    pub visible: bool,
    pub enabled: bool,
    pub role: Option<String>,
    pub label: Option<String>,
}

/// The result of an action request.
#[derive(Debug, Clone)]
pub struct ActionResult {
    pub success: bool,
    pub error: Option<String>,
    pub side_effects: Vec<String>,
}

/// Optional body of a recording start request.
#[derive(Debug, Clone, Default)]
pub struct RecordingStartRequest {
    pub fps: Option<u32>,
    /// Safety limit for forgotten recordings.
    pub max_duration_seconds: Option<u64>,
}

/// Optional session guard for stopping a recording.
#[derive(Debug, Clone, Default)]
pub struct RecordingStopRequest {
    pub session_id: Option<String>,
}

#[derive(Debug, Clone)]
pub struct RecordingStartedRequest {
    pub session_id: String,
    pub mime_type: String,
}

#[derive(Debug, Clone)]
pub struct RecordingCompleteRequest {
    pub session_id: String,
    pub mime_type: Option<String>,
}

#[derive(Debug, Clone)]
pub struct RecordingErrorRequest {
    pub session_id: String,
    pub error: String,
}

// ---------------------------------------------------------------------------
// Element search
// ---------------------------------------------------------------------------

/// `str::trim_start_matches` for one character.
pub open spec fn strip_leading(s: Seq<char>, c: char) -> Seq<char>
    decreases s.len(),
{
    if s.len() > 0 && s[0] == c {
        strip_leading(s.skip(1), c)
    } else {
        s
    }
}

/// `str::trim_end_matches` for one character.
pub open spec fn strip_trailing(s: Seq<char>, c: char) -> Seq<char>
    decreases s.len(),
{
    if s.len() > 0 && s.last() == c {
        strip_trailing(s.drop_last(), c)
    } else {
        s
    }
}

/// The tag named by a selector: surrounding `<` and `>` removed.
pub open spec fn selector_tag(selector: Seq<char>) -> Seq<char> {
    strip_trailing(strip_leading(selector, '<'), '>')
}

/// Where the text of an element found at `p` starts: after the first `>`
/// at or after `p`, or right after `p` when there is none.
pub open spec fn text_start(html: Seq<char>, p: int) -> int {
    match find_from(html, seq!['>'], p) {
        Some(e) => e + 1,
        None => p + 1,
    }
}

/// The text of an element: what lies between its opening tag and the next
/// closing tag of the same name, trimmed; empty when no closing tag follows.
pub open spec fn element_text(html: Seq<char>, tag: Seq<char>, ts: int) -> Seq<char> {
    match find_from(html, "</"@ + tag + seq!['>'], ts) {
        Some(t) => trim(html.subrange(ts, t)),
        None => Seq::empty(),
    }
}

/// The texts of the elements with the given tag, found from `start` on.
pub open spec fn tag_texts(html: Seq<char>, tag: Seq<char>, start: int) -> Seq<Seq<char>>
    decreases html.len() + 1 - start,
{
    if start < 0 {
        Seq::empty()
    } else {
        match find_from(html, seq!['<'] + tag, start) {
            Some(p) => {
                let ts = text_start(html, p);
                if start < ts <= html.len() {
                    seq![element_text(html, tag, ts)] + tag_texts(html, tag, ts)
                } else {
                    Seq::empty()
                }
            },
            None => Seq::empty(),
        }
    }
}

proof fn lemma_text_start_bounds(html: Seq<char>, tag: Seq<char>, start: int)
    requires
        0 <= start,
        find_from(html, seq!['<'] + tag, start) is Some,
    ensures
        ({
            let p = find_from(html, seq!['<'] + tag, start)->Some_0;
            let ts = text_start(html, p);
            &&& start <= p < html.len()
            &&& p < ts <= html.len()
        }),
{
    let open = seq!['<'] + tag;
    lemma_find_from_spec(html, open, start);
    let p = find_from(html, open, start)->Some_0;
    lemma_find_from_spec(html, seq!['>'], p);
    assert(open.len() >= 1);
    match find_from(html, seq!['>'], p) {
        Some(e) => {
            assert(e + 1 <= html.len());
        },
        None => {},
    }
}

/// Where `pat` occurs in `s` at or after `from`, in increasing order.
pub open spec fn occurrences(s: Seq<char>, pat: Seq<char>, from: int) -> Seq<int>
    decreases s.len() + 1 - from,
{
    if from < 0 {
        Seq::empty()
    } else {
        match find_from(s, pat, from) {
            Some(p) => if from <= p <= s.len() {
                seq![p] + occurrences(s, pat, p + 1)
            } else {
                Seq::empty()
            },
            None => Seq::empty(),
        }
    }
}

/// No occurrence of the opening tag starts inside the opening tag of an
/// earlier one (before the `>` that ends it).
pub open spec fn tags_apart(html: Seq<char>, occ: Seq<int>) -> bool {
    forall|k: int, j: int| 0 <= k < j < occ.len() ==> text_start(html, #[trigger] occ[k]) <= #[trigger] occ[j]
}

/// A search that finds nothing before `q` finds `q` from any later start up
/// to `q`, and a search that finds nothing finds nothing later either.
proof fn lemma_find_from_later(s: Seq<char>, pat: Seq<char>, i: int, j: int)
    requires
        0 <= i <= j,
    ensures
        (find_from(s, pat, i) matches Some(q) && j <= q) ==> find_from(s, pat, j) == find_from(s, pat, i),
        find_from(s, pat, i) is None ==> find_from(s, pat, j) is None,
    decreases j - i,
{
    if i < j {
        if i + pat.len() > s.len() {
        } else if matches_at(s, pat, i) {
        } else {
            lemma_find_from_later(s, pat, i + 1, j);
        }
    }
}

proof fn lemma_occurrences_from(html: Seq<char>, tag: Seq<char>, s: int)
    requires
        0 <= s,
        tags_apart(html, occurrences(html, seq!['<'] + tag, s)),
    ensures
        ({
            let occ = occurrences(html, seq!['<'] + tag, s);
            &&& tag_texts(html, tag, s).len() == occ.len()
            &&& forall|k: int|
                0 <= k < occ.len() ==> #[trigger] tag_texts(html, tag, s)[k] == element_text(
                    html,
                    tag,
                    text_start(html, occ[k]),
                )
        }),
    decreases html.len() + 1 - s,
{
    let pat = seq!['<'] + tag;
    let occ = occurrences(html, pat, s);
    lemma_find_from_spec(html, pat, s);
    match find_from(html, pat, s) {
        None => {},
        Some(p) => {
            lemma_text_start_bounds(html, tag, s);
            let ts = text_start(html, p);
            let rest = occurrences(html, pat, p + 1);
            assert(occ == seq![p] + rest);
            lemma_find_from_spec(html, pat, p + 1);
            lemma_find_from_later(html, pat, p + 1, ts);
            match find_from(html, pat, p + 1) {
                Some(q) => {
                    assert(occ[0] == p && occ[1] == q);
                    assert(text_start(html, occ[0]) <= occ[1]);
                    assert(find_from(html, pat, ts) == Some(q));
                },
                None => {},
            }
            assert(occurrences(html, pat, ts) == rest);
            assert forall|k: int, j: int| 0 <= k < j < rest.len() implies text_start(
                html,
                #[trigger] rest[k],
            ) <= #[trigger] rest[j] by {
                assert(rest[k] == occ[k + 1] && rest[j] == occ[j + 1]);
                assert(text_start(html, occ[k + 1]) <= occ[j + 1]);
            }
            lemma_occurrences_from(html, tag, ts);
            let texts = tag_texts(html, tag, s);
            assert(texts == seq![element_text(html, tag, ts)] + tag_texts(html, tag, ts));
            assert forall|k: int| 0 <= k < occ.len() implies #[trigger] texts[k] == element_text(
                html,
                tag,
                text_start(html, occ[k]),
            ) by {
                if k > 0 {
                    assert(texts[k] == tag_texts(html, tag, ts)[k - 1]);
                    assert(occ[k] == rest[k - 1]);
                }
            }
        },
    }
}

/// Law: every opening tag in the document is reported, nested ones
/// included. When no `<tag` starts inside an earlier one's opening tag,
/// the search finds one element for each index where `<tag` occurs, in
/// order, and the k-th element's text starts right after the first `>`
/// that follows the k-th occurrence.
pub proof fn lemma_every_opening_tag_is_reported(html: Seq<char>, tag: Seq<char>)
    requires
        tags_apart(html, occurrences(html, seq!['<'] + tag, 0)),
    ensures
        ({
            let occ = occurrences(html, seq!['<'] + tag, 0);
            &&& tag_texts(html, tag, 0).len() == occ.len()
            &&& forall|k: int|
                0 <= k < occ.len() ==> matches_at(html, seq!['<'] + tag, #[trigger] occ[k])
            &&& forall|i: int| 0 <= i && #[trigger] matches_at(html, seq!['<'] + tag, i) ==> occ.contains(i)
            &&& forall|k: int|
                0 <= k < occ.len() ==> #[trigger] tag_texts(html, tag, 0)[k] == element_text(
                    html,
                    tag,
                    text_start(html, occ[k]),
                )
        }),
{
    lemma_occurrences_from(html, tag, 0);
    lemma_occurrences_complete(html, seq!['<'] + tag, 0);
}

/// The occurrences list holds exactly the matching indices at or after
/// `from`.
proof fn lemma_occurrences_complete(s: Seq<char>, pat: Seq<char>, from: int)
    requires
        0 <= from,
    ensures
        forall|k: int| 0 <= k < occurrences(s, pat, from).len() ==> matches_at(s, pat, #[trigger] occurrences(s, pat, from)[k]),
        forall|i: int| from <= i && #[trigger] matches_at(s, pat, i) ==> occurrences(s, pat, from).contains(i),
    decreases s.len() + 1 - from,
{
    lemma_find_from_spec(s, pat, from);
    let occ = occurrences(s, pat, from);
    match find_from(s, pat, from) {
        None => {},
        Some(p) => {
            assert(p + pat.len() <= s.len());
            lemma_occurrences_complete(s, pat, p + 1);
            let rest = occurrences(s, pat, p + 1);
            assert(occ == seq![p] + rest);
            assert forall|k: int| 0 <= k < occ.len() implies matches_at(s, pat, #[trigger] occ[k]) by {
                if k > 0 {
                    assert(occ[k] == rest[k - 1]);
                }
            }
            assert forall|i: int| from <= i && #[trigger] matches_at(s, pat, i) implies occ.contains(i) by {
                if i == p {
                    assert(occ[0] == p);
                } else {
                    assert(i > p);
                    assert(rest.contains(i));
                    let k = choose|k: int| 0 <= k < rest.len() && rest[k] == i;
                    assert(occ[k + 1] == i);
                }
            }
        },
    }
}

/// `tag:nth-of-type(k)`, the selector of the k-th element found.
pub open spec fn nth_selector(tag: Seq<char>, k: nat) -> Seq<char> {
    tag + ":nth-of-type("@ + decimal(k) + ")"@
}

/// `*:contains("text")`, the selector of a text match.
pub open spec fn contains_selector(text: Seq<char>) -> Seq<char> {
    "*:contains(\""@ + text + "\")"@
}

/// An element as the search reports it: no attributes, visible, enabled.
pub open spec fn plain_element(e: ElementInfo, selector: Seq<char>, tag: Seq<char>, text: Seq<char>) -> bool {
    &&& e.selector@ == selector
    &&& e.tag@ == tag
    &&& e.text@ == text
    &&& e.attributes@ == Map::<String, String>::empty()
    &&& e.visible
    &&& e.enabled
    &&& e.role is None
    &&& e.label is None
}

/// The elements found for a tag selector, in document order.
pub open spec fn tag_elements_ok(r: Seq<ElementInfo>, html: Seq<char>, tag: Seq<char>) -> bool {
    &&& r.len() == tag_texts(html, tag, 0).len()
    &&& forall|i: int|
        0 <= i < r.len() ==> plain_element(
            #[trigger] r[i],
            nth_selector(tag, (i + 1) as nat),
            tag,
            tag_texts(html, tag, 0)[i],
        )
}

fn strip_selector(v: &[char]) -> (r: Vec<char>)
    ensures
        r@ == selector_tag(v@),
{
    let mut a: usize = 0;
    proof {
        assert(v@.skip(0) =~= v@);
    }
    while a < v.len() && v[a] == '<'
        invariant
            a <= v@.len(),
            strip_leading(v@.skip(a as int), '<') == strip_leading(v@, '<'),
        decreases v@.len() - a,
    {
        proof {
            assert(v@.skip(a as int).skip(1) =~= v@.skip(a + 1));
        }
        a = a + 1;
    }
    let ghost lead = v@.skip(a as int);
    let mut b: usize = v.len();
    while b > a && v[b - 1] == '>'
        invariant
            a <= b <= v@.len(),
            lead == v@.skip(a as int),
            strip_trailing(v@.subrange(a as int, b as int), '>') == strip_trailing(lead, '>'),
        decreases b,
    {
        proof {
            assert(v@.subrange(a as int, b as int).drop_last() =~= v@.subrange(a as int, b - 1));
        }
        b = b - 1;
    }
    proof {
        assert(v@.skip(a as int) =~= v@.subrange(a as int, v@.len() as int));
    }
    let mut r: Vec<char> = Vec::new();
    let mut i: usize = a;
    while i < b
        invariant
            a <= i <= b <= v@.len(),
            r@ == v@.subrange(a as int, i as int),
        decreases b - i,
    {
        r.push(v[i]);
        proof {
            assert(v@.subrange(a as int, i + 1) =~= v@.subrange(a as int, i as int).push(v@[i as int]));
        }
        i = i + 1;
    }
    r
}

fn plain_element_new(selector: String, tag: String, text: String) -> (e: ElementInfo)
    ensures
        plain_element(e, selector@, tag@, text@),
{
    ElementInfo {
        selector,
        tag,
        text,
        attributes: HashMap::new(),
        visible: true,
        enabled: true,
        role: None,
        label: None,
    }
}

fn tag_elements(h: &[char], tag: &[char]) -> (r: Vec<ElementInfo>)
    ensures
        tag_elements_ok(r@, h@, tag@),
{
    let mut open: Vec<char> = Vec::new();
    open.push('<');
    let mut close: Vec<char> = Vec::new();
    close.push('<');
    close.push('/');
    let mut k: usize = 0;
    while k < tag.len()
        invariant
            k <= tag@.len(),
            open@ == seq!['<'] + tag@.take(k as int),
            close@ == seq!['<', '/'] + tag@.take(k as int),
        decreases tag@.len() - k,
    {
        open.push(tag[k]);
        close.push(tag[k]);
        proof {
            assert(tag@.take(k + 1) =~= tag@.take(k as int).push(tag@[k as int]));
        }
        k = k + 1;
    }
    close.push('>');
    proof {
        assert(tag@.take(tag@.len() as int) =~= tag@);
        reveal_strlit("</");
        assert(close@ =~= "</"@ + tag@ + seq!['>']);
        assert(open@ =~= seq!['<'] + tag@);
    }
    let ghost all = tag_texts(h@, tag@, 0);
    let mut elements: Vec<ElementInfo> = Vec::new();
    let mut start: usize = 0;
    loop
        invariant
            start <= h@.len(),
            elements@.len() <= start,
            open@ == seq!['<'] + tag@,
            close@ == "</"@ + tag@ + seq!['>'],
            all == tag_texts(h@, tag@, 0),
            elements@.len() + tag_texts(h@, tag@, start as int).len() == all.len(),
            forall|j: int| 0 <= j < tag_texts(h@, tag@, start as int).len()
                ==> #[trigger] tag_texts(h@, tag@, start as int)[j] == all[elements@.len() + j],
            forall|i: int|
                0 <= i < elements@.len() ==> plain_element(
                    #[trigger] elements@[i],
                    nth_selector(tag@, (i + 1) as nat),
                    tag@,
                    all[i],
                ),
        ensures
            elements@.len() == all.len(),
            forall|i: int|
                0 <= i < elements@.len() ==> plain_element(
                    #[trigger] elements@[i],
                    nth_selector(tag@, (i + 1) as nat),
                    tag@,
                    all[i],
                ),
        decreases h@.len() + 1 - start,
    {
        let found = find_from_exec(h, open.as_slice(), start);
        match found {
            None => {
                proof {
                    assert(tag_texts(h@, tag@, start as int) =~= Seq::<Seq<char>>::empty());
                }
                break;
            },
            Some(p) => {
                proof {
                    lemma_text_start_bounds(h@, tag@, start as int);
                    lemma_find_from_spec(h@, seq!['>'], p as int);
                    assert(p < h@.len());
                    assert(h@.len() == h.len());
                }
                let ts: usize = match crate::text::find_char_from(h, '>', p) {
                    Some(e) => e + 1,
                    None => p + 1,
                };
                let ghost texts_here = tag_texts(h@, tag@, start as int);
                let text: Vec<char> = match find_from_exec(h, close.as_slice(), ts) {
                    Some(t) => {
                        proof {
                            lemma_find_from_spec(h@, close@, ts as int);
                        }
                        let mut piece: Vec<char> = Vec::new();
                        let mut i: usize = ts;
                        while i < t
                            invariant
                                ts <= i <= t <= h@.len(),
                                piece@ == h@.subrange(ts as int, i as int),
                            decreases t - i,
                        {
                            piece.push(h[i]);
                            proof {
                                assert(h@.subrange(ts as int, i + 1) =~= h@.subrange(
                                    ts as int,
                                    i as int,
                                ).push(h@[i as int]));
                            }
                            i = i + 1;
                        }
                        trim_chars(piece.as_slice())
                    },
                    None => Vec::new(),
                };
                proof {
                    assert(text@ == element_text(h@, tag@, ts as int));
                    assert(texts_here == seq![element_text(h@, tag@, ts as int)] + tag_texts(
                        h@,
                        tag@,
                        ts as int,
                    ));
                    assert(texts_here[0] == all[elements@.len() as int]);
                    assert forall|j: int| 0 <= j < tag_texts(h@, tag@, ts as int).len() implies
                        #[trigger] tag_texts(h@, tag@, ts as int)[j] == all[elements@.len() + 1 + j] by {
                        assert(tag_texts(h@, tag@, ts as int)[j] == texts_here[j + 1]);
                    }
                }
                let mut selector = string_from_chars(tag);
                push_str(&mut selector, ":nth-of-type(");
                let n: u64 = (elements.len() + 1) as u64;
                push_decimal(&mut selector, n);
                push_str(&mut selector, ")");
                let e = plain_element_new(selector, string_from_chars(tag), string_from_chars(text.as_slice()));
                let ghost before = elements@;
                elements.push(e);
                proof {
                    assert forall|i: int| 0 <= i < elements@.len() implies plain_element(
                        #[trigger] elements@[i],
                        nth_selector(tag@, (i + 1) as nat),
                        tag@,
                        all[i],
                    ) by {
                        if i < before.len() {
                            assert(elements@[i] == before[i]);
                        }
                    }
                }
                start = ts;
            },
        }
    }
    elements
}

/// The element reported for a text match.
fn text_element(text: &str) -> (e: ElementInfo)
    ensures
        plain_element(e, contains_selector(text@), "*"@, text@),
{
    let mut selector = String::new();
    push_str(&mut selector, "*:contains(\"");
    push_str(&mut selector, text);
    push_str(&mut selector, "\")");
    plain_element_new(selector, String::from_str("*"), String::from_str(text))
}

/// What a search returns: the tag matches, then the text match, if any.
/// `lowered` holds the lower-cased document and query text.
pub open spec fn find_elements_ok(
    r: Seq<ElementInfo>,
    html: Seq<char>,
    query: ElementQuery,
    lowered: Option<(Seq<char>, Seq<char>)>,
) -> bool {
    let tags: Seq<ElementInfo> = match query.selector {
        Some(sel) => r.take(tag_texts(html, selector_tag(sel@), 0).len() as int),
        None => Seq::empty(),
    };
    let n = tags.len();
    &&& match query.selector {
        Some(sel) => n == tag_texts(html, selector_tag(sel@), 0).len() && tag_elements_ok(
            tags,
            html,
            selector_tag(sel@),
        ),
        None => true,
    }
    &&& match (query.text, lowered) {
        (Some(t), Some((lh, lq))) => if contains_seq(lh, lq) {
            r.len() == n + 1 && plain_element(r[n as int], contains_selector(t@), "*"@, t@)
        } else {
            r.len() == n
        },
        _ => r.len() == n,
    }
}

/// Search a DOM snapshot, given the lower-cased document and query text
/// (`lowered`, which must be present when the query has text).
///
/// A selector is read as a tag name: every `<tag` in the document, from the
/// front, yields an element whose text runs to the next `</tag>`. A text
/// query yields one more element when the document contains it.
pub fn find_elements_lowered(
    html: &str,
    query: &ElementQuery,
    lowered: Option<(&str, &str)>,
) -> (r: Vec<ElementInfo>)
    requires
        query.text is Some ==> lowered is Some,
    ensures
        find_elements_ok(
            r@,
            html@,
            *query,
            match lowered {
                Some((a, b)) => Some((a@, b@)),
                None => None,
            },
        ),
{
    let h = chars_of(html);
    let mut elements: Vec<ElementInfo> = match &query.selector {
        Some(sel) => {
            let sv = chars_of(sel.as_str());
            let tag = strip_selector(sv.as_slice());
            tag_elements(h.as_slice(), tag.as_slice())
        },
        None => Vec::new(),
    };
    let ghost tags = elements@;
    proof {
        assert(tags.take(tags.len() as int) =~= tags);
    }
    match (&query.text, lowered) {
        (Some(t), Some((lh, lq))) => {
            let lhv = chars_of(lh);
            let lqv = chars_of(lq);
            if crate::text::contains_exec(lhv.as_slice(), lqv.as_slice()) {
                let e = text_element(t.as_str());
                elements.push(e);
                proof {
                    assert(elements@.take(tags.len() as int) =~= tags);
                }
            }
        },
        _ => {},
    }
    elements
}

/// Search a DOM snapshot for a query: tag matches in document order, then
/// one element for a case-insensitive text match.
pub fn find_elements(html: &str, query: &ElementQuery) -> (r: Vec<ElementInfo>)
    ensures
        find_elements_ok(
            r@,
            html@,
            *query,
            match query.text {
                Some(t) => Some((unicode_lowercase(html@), unicode_lowercase(t@))),
                None => None,
            },
        ),
{
    match &query.text {
        Some(t) => {
            let lh = to_lowercase(html);
            let lq = to_lowercase(t.as_str());
            find_elements_lowered(html, query, Some((lh.as_str(), lq.as_str())))
        },
        None => find_elements_lowered(html, query, None),
    }
}

// ---------------------------------------------------------------------------
// Agent IPC
// ---------------------------------------------------------------------------

/// What the IPC endpoint reads from an agent's JSON message.
#[derive(Debug, Clone)]
pub struct AgentIpcRequest {
    /// `cmd`, when it is a string.
    pub cmd: Option<String>,
    /// `id`, when it is a string.
    pub id: Option<String>,
    /// `payload.name`, when it is a string.
    pub name: Option<String>,
}

/// The `data` of an IPC reply.
#[derive(Debug, Clone)]
pub enum AgentIpcData {
    /// `{ "message": .. }`
    Message(String),
    /// `{ "pong": true }`
    Pong,
    /// `{ "error": .. }`
    Error(String),
}

/// The IPC endpoint's answer.
#[derive(Debug, Clone)]
pub struct AgentIpcReply {
    pub id: String,
    pub success: bool,
    pub data: AgentIpcData,
}

pub open spec fn or_default(o: Option<String>, d: Seq<char>) -> Seq<char> {
    match o {
        Some(s) => s@,
        None => d,
    }
}

/// The reply to an agent IPC message: `greet` says hello to `payload.name`
/// (default "World"), `ping` answers pong, anything else is an unknown command.
pub open spec fn ipc_reply_ok(r: AgentIpcReply, req: AgentIpcRequest) -> bool {
    let cmd = or_default(req.cmd, "unknown"@);
    &&& r.id@ == or_default(req.id, "0"@)
    &&& if cmd == "greet"@ {
        r.success && (r.data matches AgentIpcData::Message(m) && m@ == "Hello, "@ + or_default(
            req.name,
            "World"@,
        ) + "!"@)
    } else if cmd == "ping"@ {
        r.success && r.data is Pong
    } else {
        !r.success && (r.data matches AgentIpcData::Error(e) && e@ == "Unknown command: "@ + cmd)
    }
}

fn string_or(o: &Option<String>, d: &str) -> (r: String)
    ensures
        r@ == or_default(*o, d@),
{
    match o {
        Some(s) => s.clone(),
        None => String::from_str(d),
    }
}

/// Answer an agent IPC message with the built-in demo commands.
pub fn agent_ipc_reply(request: &AgentIpcRequest) -> (r: AgentIpcReply)
    ensures
        ipc_reply_ok(r, *request),
{
    let cmd = string_or(&request.cmd, "unknown");
    let id = string_or(&request.id, "0");
    if str_eq(cmd.as_str(), "greet") {
        let name = string_or(&request.name, "World");
        let mut m = String::new();
        push_str(&mut m, "Hello, ");
        push_str(&mut m, name.as_str());
        push_str(&mut m, "!");
        AgentIpcReply { id, success: true, data: AgentIpcData::Message(m) }
    } else if str_eq(cmd.as_str(), "ping") {
        AgentIpcReply { id, success: true, data: AgentIpcData::Pong }
    } else {
        let mut e = String::new();
        push_str(&mut e, "Unknown command: ");
        push_str(&mut e, cmd.as_str());
        AgentIpcReply { id, success: false, data: AgentIpcData::Error(e) }
    }
}

// ---------------------------------------------------------------------------
// Actions and DOM snapshots
// ---------------------------------------------------------------------------

/// The `Debug` name of an action type.
pub open spec fn action_type_name(a: ActionType) -> Seq<char> {
    match a {
        ActionType::Click => "Click"@,
        ActionType::DoubleClick => "DoubleClick"@,
        ActionType::RightClick => "RightClick"@,
        ActionType::Type => "Type"@,
        ActionType::Fill => "Fill"@,
        ActionType::Clear => "Clear"@,
        ActionType::Scroll => "Scroll"@,
        ActionType::Hover => "Hover"@,
        ActionType::Focus => "Focus"@,
        ActionType::Select => "Select"@,
    }
}

impl ActionType {
    pub fn name(&self) -> (r: &'static str)
        ensures
            r@ == action_type_name(*self),
    {
        match self {
            ActionType::Click => "Click",
            ActionType::DoubleClick => "DoubleClick",
            ActionType::RightClick => "RightClick",
            ActionType::Type => "Type",
            ActionType::Fill => "Fill",
            ActionType::Clear => "Clear",
            ActionType::Scroll => "Scroll",
            ActionType::Hover => "Hover",
            ActionType::Focus => "Focus",
            ActionType::Select => "Select",
        }
    }
}

/// The answer to a queued action: success, with one side effect naming it.
pub fn queued_action_result(action: ActionType, selector: &str) -> (r: ActionResult)
    ensures
        r.success,
        r.error is None,
        r.side_effects@.len() == 1,
        r.side_effects@[0]@ == "Action "@ + action_type_name(action) + " on '"@ + selector@
            + "' queued"@,
{
    let mut s = String::new();
    push_str(&mut s, "Action ");
    push_str(&mut s, action.name());
    push_str(&mut s, " on '");
    push_str(&mut s, selector);
    push_str(&mut s, "' queued");
    let mut effects: Vec<String> = Vec::new();
    effects.push(s);
    ActionResult { success: true, error: None, side_effects: effects }
}

pub open spec fn no_dom_html() -> Seq<char> {
    "<!DOCTYPE html>\n<html>\n<head><title>rdesktop</title></head>\n<body>\n  <p>No DOM snapshot available yet. Make sure the app is loaded in the browser.</p>\n  <p>The bridge script will send DOM updates automatically.</p>\n</body>\n</html>"@
}

/// The DOM snapshot served to agents: the last one the bridge sent, or a
/// page explaining that none arrived yet.
pub fn dom_snapshot(last: Option<String>, timestamp: String) -> (r: DomSnapshot)
    ensures
        r.html@ == match last {
            Some(h) => h@,
            None => no_dom_html(),
        },
        r.url@ == "http://localhost"@,
        r.title@ == "rdesktop App"@,
        r.timestamp@ == timestamp@,
{
    let html = match last {
        Some(h) => h,
        None => String::from_str(
            "<!DOCTYPE html>\n<html>\n<head><title>rdesktop</title></head>\n<body>\n  <p>No DOM snapshot available yet. Make sure the app is loaded in the browser.</p>\n  <p>The bridge script will send DOM updates automatically.</p>\n</body>\n</html>",
        ),
    };
    DomSnapshot {
        html,
        url: String::from_str("http://localhost"),
        title: String::from_str("rdesktop App"),
        timestamp,
    }
}

// ---------------------------------------------------------------------------
// Recording requests
// ---------------------------------------------------------------------------

pub open spec fn clamp_spec(v: int, lo: int, hi: int) -> int {
    if v < lo {
        lo
    } else if v > hi {
        hi
    } else {
        v
    }
}

/// Frames per second and the auto-stop limit in seconds of a start request:
/// 30 fps by default, kept within 1..=60; five minutes by default, kept
/// within one second and one hour.
pub fn recording_start_options(request: &RecordingStartRequest) -> (r: (u32, u64))
    ensures
        r.0 == clamp_spec(
            match request.fps {
                Some(f) => f as int,
                None => 30,
            },
            1,
            60,
        ),
        r.1 == clamp_spec(
            match request.max_duration_seconds {
                Some(d) => d as int,
                None => DEFAULT_RECORDING_MAX_DURATION_SECONDS as int,
            },
            1,
            MAX_RECORDING_MAX_DURATION_SECONDS as int,
        ),
{
    let fps: u32 = match request.fps {
        Some(f) => f,
        None => 30,
    };
    let fps = if fps < 1 {
        1
    } else if fps > 60 {
        60
    } else {
        fps
    };
    let secs: u64 = match request.max_duration_seconds {
        Some(d) => d,
        None => DEFAULT_RECORDING_MAX_DURATION_SECONDS,
    };
    let secs = if secs < 1 {
        1
    } else if secs > MAX_RECORDING_MAX_DURATION_SECONDS {
        MAX_RECORDING_MAX_DURATION_SECONDS
    } else {
        secs
    };
    (fps, secs)
}

/// Every accepted start request runs between one second and one hour, and
/// between 1 and 60 frames per second; an empty request gets five minutes.
pub proof fn lemma_start_options_bounded(fps: Option<u32>, secs: Option<u64>)
    ensures
        ({
            let f = clamp_spec(
                match fps {
                    Some(f) => f as int,
                    None => 30,
                },
                1,
                60,
            );
            let d = clamp_spec(
                match secs {
                    Some(d) => d as int,
                    None => DEFAULT_RECORDING_MAX_DURATION_SECONDS as int,
                },
                1,
                MAX_RECORDING_MAX_DURATION_SECONDS as int,
            );
            &&& 1 <= f <= 60
            &&& 1 <= d <= 3600
            &&& secs is None ==> d == 300
            &&& fps is None ==> f == 30
        }),
{
}

/// The session to stop automatically after the time limit: only a session
/// that this request started, not one it reused.
pub fn auto_stop_session(snapshot: &RecordingSnapshot, reused: bool) -> (r: Option<String>)
    ensures
        opt_str(r) == if reused {
            None
        } else {
            opt_str(snapshot.session_id)
        },
{
    if reused {
        None
    } else {
        match &snapshot.session_id {
            Some(s) => Some(s.clone()),
            None => None,
        }
    }
}

/// A finalization answer is `ok` when the recording completed.
pub fn recording_ok(snapshot: &RecordingSnapshot) -> (r: bool)
    ensures
        r == (snapshot.status == RecordingStatus::Completed),
{
    snapshot.status == RecordingStatus::Completed
}

/// The `Debug` name of a status.
pub open spec fn status_debug_name(s: RecordingStatus) -> Seq<char> {
    match s {
        RecordingStatus::Idle => "Idle"@,
        RecordingStatus::Recording => "Recording"@,
        RecordingStatus::StopRequested => "StopRequested"@,
        RecordingStatus::Finalizing => "Finalizing"@,
        RecordingStatus::Completed => "Completed"@,
        RecordingStatus::Failed => "Failed"@,
    }
}

fn status_debug(s: RecordingStatus) -> (r: &'static str)
    ensures
        r@ == status_debug_name(s),
{
    match s {
        RecordingStatus::Idle => "Idle",
        RecordingStatus::Recording => "Recording",
        RecordingStatus::StopRequested => "StopRequested",
        RecordingStatus::Finalizing => "Finalizing",
        RecordingStatus::Completed => "Completed",
        RecordingStatus::Failed => "Failed",
    }
}

/// The headers of a recording download, the content type and the
/// disposition; or, for an unfinished recording, the error message.
pub fn recording_download(snapshot: &RecordingSnapshot) -> (r: Result<(String, &'static str), String>)
    ensures
        snapshot.status != RecordingStatus::Completed ==> (r matches Err(e) && e@
            == "recording is not complete: "@ + status_debug_name(snapshot.status)),
        snapshot.status == RecordingStatus::Completed ==> (r matches Ok((t, d)) && t@ == or_default(
            snapshot.mime_type,
            "video/webm"@,
        ) && d@ == if is_mp4(opt_str(snapshot.mime_type)) {
            "attachment; filename=recording.mp4"@
        } else {
            "attachment; filename=recording.webm"@
        }),
{
    if snapshot.status != RecordingStatus::Completed {
        let mut e = String::new();
        push_str(&mut e, "recording is not complete: ");
        push_str(&mut e, status_debug(snapshot.status));
        return Err(e);
    }
    let content_type = string_or(&snapshot.mime_type, "video/webm");
    let mp4 = match &snapshot.mime_type {
        Some(m) => starts_with_str(m.as_str(), "video/mp4"),
        None => false,
    };
    let disposition = if mp4 {
        "attachment; filename=recording.mp4"
    } else {
        "attachment; filename=recording.webm"
    };
    Ok((content_type, disposition))
}

} // verus!
