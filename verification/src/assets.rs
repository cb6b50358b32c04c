//! Application icon assets: checks on the requested icon name and source
//! image, PNG encoding of rendered sizes, and the ICO container that holds
//! one PNG payload per size.

use crate::text::{chars_of, decimal, push_decimal, push_str, str_eq, string_from_chars};
use vstd::prelude::*;
use vstd::string::*;

verus! {

/// Largest source edge the generator accepts, in pixels.
pub const MAX_SOURCE_EDGE: u32 = 8192;

/// The sizes of the generated icons, in pixels.
pub open spec fn icon_sizes_spec() -> Seq<u32> {
    seq![16u32, 24, 32, 48, 64, 128, 256]
}

/// The sizes included in generated ICO files and PNG variants.
pub fn icon_sizes() -> (r: Vec<u32>)
    ensures
        r@ == icon_sizes_spec(),
{
    let r: Vec<u32> = vec![16, 24, 32, 48, 64, 128, 256];
    proof {
        assert(r@ =~= icon_sizes_spec());
    }
    r
}

/// The files a generation run wrote.
#[derive(Debug, Clone, PartialEq, Eq)]
pub struct GeneratedIcons {
    /// The ICO holding every size.
    pub ico: String,
    /// The square PNG variants, by edge length.
    pub pngs: Vec<(u32, String)>,
}

// ---------------------------------------------------------------------------
// Names and sources
// ---------------------------------------------------------------------------

/// A non-empty name without `/`, `\\` or `:` that is neither `.` nor `..`:
/// on every platform a path made of one normal component.
pub open spec fn plain_name(s: Seq<char>) -> bool {
    s.len() > 0 && !s.contains('/') && !s.contains('\\') && !s.contains(':') && s != "."@ && s != ".."@
}

pub open spec fn name_reserved(name: Seq<char>) -> bool {
    name.len() == 0 || name == "."@ || name == ".."@
}

/// The outcome of checking an icon name, given whether the platform's path
/// rules read the name as exactly one file name.
pub open spec fn validate_name_spec(name: Seq<char>, is_file_name: bool) -> Result<(), Seq<char>> {
    if name_reserved(name) {
        Err("icon name must not be empty, '.' or '..'"@)
    } else if name.contains('/') || name.contains('\\') || !is_file_name {
        Err("icon name must be a file name, got '"@ + name + "'"@)
    } else {
        Ok(())
    }
}

fn contains_char(s: &str, c: char) -> (r: bool)
    ensures
        r == s@.contains(c),
{
    let v = chars_of(s);
    let mut i: usize = 0;
    while i < v.len()
        invariant
            i <= v@.len(),
            v@ == s@,
            forall|k: int| 0 <= k < i ==> v@[k] != c,
        decreases v@.len() - i,
    {
        if v[i] == c {
            proof {
                assert(s@[i as int] == c);
            }
            return true;
        }
        i = i + 1;
    }
    false
}

/// Check an icon name, given whether the platform reads it as one file name.
pub fn validate_name_with(name: &str, is_file_name: bool) -> (r: Result<(), String>)
    ensures
        match r {
            Ok(()) => validate_name_spec(name@, is_file_name) is Ok,
            Err(e) => validate_name_spec(name@, is_file_name) == Err::<(), Seq<char>>(e@),
        },
{
    if name.unicode_len() == 0 || str_eq(name, ".") || str_eq(name, "..") {
        return Err(String::from_str("icon name must not be empty, '.' or '..'"));
    }
    if contains_char(name, '/') || contains_char(name, '\\') || !is_file_name {
        let mut e = String::new();
        push_str(&mut e, "icon name must be a file name, got '");
        push_str(&mut e, name);
        push_str(&mut e, "'");
        return Err(e);
    }
    Ok(())
}

/// Calls `Path::file_name`: the last normal component of the path, if
/// any. Which part that is depends on the platform's path syntax, so only
/// one case is stated: a plain name (see `plain_name`) is one normal
/// component on every platform, since separators are `/` (and `\\` on
/// Windows) and Windows prefixes need a `\\` or a `:`; it is its own file
/// name, and being valid UTF-8 it comes back unchanged.
#[verifier::external_body]
fn file_name_of(path: &str) -> (r: Option<String>)
    ensures
        plain_name(path@) ==> r is Some && r.unwrap()@ == path@,
{
    match std::path::Path::new(path).file_name() {
        Some(f) => Some(f.to_string_lossy().into_owned()),
        None => None,
    }
}

/// Check that an icon name is a bare file stem such as `app`.
pub fn validate_name(name: &str) -> (r: Result<(), String>)
    ensures
        name_reserved(name@) ==> (r matches Err(e) && e@
            == "icon name must not be empty, '.' or '..'"@),
        !name_reserved(name@) && (name@.contains('/') || name@.contains('\\')) ==> (r matches Err(e)
            && e@ == "icon name must be a file name, got '"@ + name@ + "'"@),
        r is Ok ==> !name_reserved(name@) && !name@.contains('/') && !name@.contains('\\'),
        plain_name(name@) ==> r is Ok,
{
    let is_file = match file_name_of(name) {
        Some(f) => str_eq(f.as_str(), name),
        None => false,
    };
    validate_name_with(name, is_file)
}

/// The outcome of checking a source image's dimensions.
pub open spec fn validate_source_spec(width: u32, height: u32, input: Seq<char>) -> Result<(), Seq<char>> {
    if width == 0 || height == 0 {
        Err("PNG '"@ + input + "' has no pixels"@)
    } else if width > MAX_SOURCE_EDGE || height > MAX_SOURCE_EDGE {
        Err(
            "PNG '"@ + input + "' is "@ + decimal(width as nat) + "x"@ + decimal(height as nat)
                + "; maximum supported edge is "@ + decimal(MAX_SOURCE_EDGE as nat),
        )
    } else {
        Ok(())
    }
}

/// Check the source image: it must have pixels, and neither edge may exceed
/// [`MAX_SOURCE_EDGE`]. `input` is the source file as shown in messages.
pub fn validate_source(width: u32, height: u32, input: &str) -> (r: Result<(), String>)
    ensures
        match r {
            Ok(()) => validate_source_spec(width, height, input@) is Ok,
            Err(e) => validate_source_spec(width, height, input@) == Err::<(), Seq<char>>(e@),
        },
{
    if width == 0 || height == 0 {
        let mut e = String::new();
        push_str(&mut e, "PNG '");
        push_str(&mut e, input);
        push_str(&mut e, "' has no pixels");
        return Err(e);
    }
    if width > MAX_SOURCE_EDGE || height > MAX_SOURCE_EDGE {
        let mut e = String::new();
        push_str(&mut e, "PNG '");
        push_str(&mut e, input);
        push_str(&mut e, "' is ");
        push_decimal(&mut e, width as u64);
        push_str(&mut e, "x");
        push_decimal(&mut e, height as u64);
        push_str(&mut e, "; maximum supported edge is ");
        push_decimal(&mut e, MAX_SOURCE_EDGE as u64);
        return Err(e);
    }
    Ok(())
}

/// `{name}-{size}.png`, the file of one PNG variant.
pub fn png_file_name(name: &str, size: u32) -> (r: String)
    ensures
        r@ == name@ + "-"@ + decimal(size as nat) + ".png"@,
{
    let mut s = String::new();
    push_str(&mut s, name);
    push_str(&mut s, "-");
    push_decimal(&mut s, size as u64);
    push_str(&mut s, ".png");
    s
}

/// `{name}.ico`, the icon container.
pub fn ico_file_name(name: &str) -> (r: String)
    ensures
        r@ == name@ + ".ico"@,
{
    let mut s = String::new();
    push_str(&mut s, name);
    push_str(&mut s, ".ico");
    s
}

// ---------------------------------------------------------------------------
// PNG payloads
// ---------------------------------------------------------------------------

/// The PNG file the image crate writes for an RGBA image, or the text of
/// its error.
pub uninterp spec fn png_encoding(rgba: Seq<u8>, width: u32, height: u32) -> Result<Seq<u8>, Seq<char>>;

/// Calls `DynamicImage::write_to` with `ImageFormat::Png` on the RGBA
/// image of the given size; the encoder's output, or its error's text,
/// depends on the pixels and the size alone.
#[verifier::external_body]
fn png_bytes(rgba: &[u8], width: u32, height: u32) -> (r: Result<Vec<u8>, String>)
    requires
        rgba@.len() == width * height * 4,
    ensures
        match r {
            Ok(b) => png_encoding(rgba@, width, height) == Ok::<Seq<u8>, Seq<char>>(b@),
            Err(e) => png_encoding(rgba@, width, height) == Err::<Seq<u8>, Seq<char>>(e@),
        },
{
    let image = match image::RgbaImage::from_raw(width, height, rgba.to_vec()) {
        Some(image) => image,
        None => return Err(String::new()),
    };
    let mut output = std::io::Cursor::new(Vec::new());
    match image::DynamicImage::ImageRgba8(image).write_to(&mut output, image::ImageFormat::Png) {
        Ok(()) => Ok(output.into_inner()),
        Err(error) => Err(error.to_string()),
    }
}

/// Encode a rendered square icon of edge `size` as PNG.
pub fn encode_png(rgba: &[u8], size: u32) -> (r: Result<Vec<u8>, String>)
    requires
        rgba@.len() == size * size * 4,
    ensures
        match png_encoding(rgba@, size, size) {
            Ok(b) => r matches Ok(v) && v@ == b,
            Err(e) => r matches Err(m) && m@ == "failed to encode "@ + decimal(size as nat) + "x"@
                + decimal(size as nat) + " PNG: "@ + e,
        },
{
    match png_bytes(rgba, size, size) {
        Ok(b) => Ok(b),
        Err(e) => {
            let mut m = String::new();
            push_str(&mut m, "failed to encode ");
            push_decimal(&mut m, size as u64);
            push_str(&mut m, "x");
            push_decimal(&mut m, size as u64);
            push_str(&mut m, " PNG: ");
            push_str(&mut m, e.as_str());
            Err(m)
        },
    }
}

// ---------------------------------------------------------------------------
// ICO container
// ---------------------------------------------------------------------------

pub open spec fn le16(v: nat) -> Seq<u8> {
    seq![(v % 256) as u8, ((v / 256) % 256) as u8]
}

pub open spec fn le32(v: nat) -> Seq<u8> {
    seq![
        (v % 256) as u8,
        ((v / 256) % 256) as u8,
        ((v / 65536) % 256) as u8,
        ((v / 16777216) % 256) as u8,
    ]
}

/// The width or height byte of an entry: 0 stands for 256.
pub open spec fn ico_size_byte(size: u32) -> u8 {
    if size == 256 {
        0
    } else {
        size as u8
    }
}

/// One 16-byte directory entry: width, height, no palette, reserved, one
/// plane, 32 bits per pixel, payload length and payload offset.
#[verifier::opaque]
pub open spec fn ico_entry(size: u32, len: nat, offset: nat) -> Seq<u8> {
    seq![ico_size_byte(size), ico_size_byte(size), 0u8, 0u8] + le16(1) + le16(32) + le32(len) + le32(
        offset,
    )
}

pub open spec fn unsupported_entry(size: u32, len: nat) -> Seq<char> {
    "unsupported ICO entry: "@ + decimal(size as nat) + "px, "@ + decimal(len) + " bytes"@
}

pub open spec fn entry_supported(size: u32, len: nat) -> bool {
    0 < size <= 256 && len <= u32::MAX
}

/// The directory entries from entry `k` on, whose payloads start at
/// `offset`; every payload must end within 4 GiB.
pub open spec fn ico_directory(es: Seq<(u32, Seq<u8>)>, k: int, offset: nat) -> Result<Seq<u8>, Seq<char>>
    decreases es.len() - k,
{
    if k < 0 || k >= es.len() {
        Ok(Seq::empty())
    } else {
        let size = es[k].0;
        let len = es[k].1.len();
        if !entry_supported(size, len) {
            Err(unsupported_entry(size, len))
        } else if offset + len > u32::MAX {
            Err("ICO payload is too large"@)
        } else {
            match ico_directory(es, k + 1, offset + len) {
                Ok(rest) => Ok(ico_entry(size, len, offset) + rest),
                Err(m) => Err(m),
            }
        }
    }
}

/// The payloads of the first `k` entries, one after another.
pub open spec fn payloads_upto(es: Seq<(u32, Seq<u8>)>, k: int) -> Seq<u8>
    decreases k,
{
    if k <= 0 {
        Seq::empty()
    } else {
        payloads_upto(es, k - 1) + es[k - 1].1
    }
}

/// The ICO file for the entries: a 6-byte header (reserved, type 1, count),
/// the directory, then the payloads in order.
pub open spec fn encode_ico_spec(es: Seq<(u32, Seq<u8>)>) -> Result<Seq<u8>, Seq<char>> {
    if es.len() == 0 || es.len() > 65535 {
        Err("ICO must contain between 1 and 65535 images"@)
    } else {
        match ico_directory(es, 0, (6 + 16 * es.len()) as nat) {
            Ok(dir) => Ok(le16(0) + le16(1) + le16(es.len()) + dir + payloads_upto(es, es.len() as int)),
            Err(m) => Err(m),
        }
    }
}

pub open spec fn entries_view(entries: Seq<(u32, Vec<u8>)>) -> Seq<(u32, Seq<u8>)> {
    entries.map_values(|e: (u32, Vec<u8>)| (e.0, e.1@))
}

fn push_le16(out: &mut Vec<u8>, v: u16)
    ensures
        final(out)@ == old(out)@ + le16(v as nat),
{
    out.push((v % 256) as u8);
    out.push((v / 256) as u8);
    proof {
        assert(final(out)@ =~= old(out)@ + le16(v as nat));
    }
}

fn push_le32(out: &mut Vec<u8>, v: u32)
    ensures
        final(out)@ == old(out)@ + le32(v as nat),
{
    out.push((v % 256) as u8);
    out.push(((v / 256) % 256) as u8);
    out.push(((v / 65536) % 256) as u8);
    out.push((v / 16777216) as u8);
    proof {
        assert(final(out)@ =~= old(out)@ + le32(v as nat));
    }
}

/// The directory from entry `k` on, after the bytes `acc` already written.
pub open spec fn directory_after(es: Seq<(u32, Seq<u8>)>, k: int, offset: nat, acc: Seq<u8>) -> Result<Seq<u8>, Seq<char>> {
    match ico_directory(es, k, offset) {
        Ok(rest) => Ok(acc + rest),
        Err(m) => Err(m),
    }
}

proof fn lemma_directory_step(es: Seq<(u32, Seq<u8>)>, k: int, offset: nat, acc: Seq<u8>)
    requires
        0 <= k < es.len(),
        entry_supported(es[k].0, es[k].1.len()),
        offset + es[k].1.len() <= u32::MAX,
    ensures
        directory_after(es, k, offset, acc) == directory_after(
            es,
            k + 1,
            offset + es[k].1.len(),
            acc + ico_entry(es[k].0, es[k].1.len(), offset),
        ),
{
    let e = ico_entry(es[k].0, es[k].1.len(), offset);
    match ico_directory(es, k + 1, offset + es[k].1.len()) {
        Ok(rest) => {
            assert(acc + (e + rest) =~= (acc + e) + rest);
        },
        Err(m) => {},
    }
}

fn push_ico_entry(out: &mut Vec<u8>, size: u32, len: u32, offset: u32)
    requires
        0 < size <= 256,
    ensures
        final(out)@ == old(out)@ + ico_entry(size, len as nat, offset as nat),
{
    let b: u8 = if size == 256 {
        0
    } else {
        size as u8
    };
    out.push(b);
    out.push(b);
    out.push(0);
    out.push(0);
    push_le16(out, 1);
    push_le16(out, 32);
    push_le32(out, len);
    push_le32(out, offset);
    proof {
        reveal(ico_entry);
        assert(final(out)@ =~= old(out)@ + ico_entry(size, len as nat, offset as nat));
    }
}

proof fn lemma_entry_len(size: u32, len: nat, offset: nat)
    ensures
        ico_entry(size, len, offset).len() == 16,
{
    reveal(ico_entry);
}

/// Build an ICO file whose entries are PNG payloads, each with its edge
/// length. Fails when there are no entries or more than 65535, when an
/// edge is 0 or above 256, or when a payload would end beyond 4 GiB.
pub fn encode_ico(entries: &[(u32, Vec<u8>)]) -> (r: Result<Vec<u8>, String>)
    ensures
        match r {
            Ok(b) => encode_ico_spec(entries_view(entries@)) == Ok::<Seq<u8>, Seq<char>>(b@),
            Err(e) => encode_ico_spec(entries_view(entries@)) == Err::<Seq<u8>, Seq<char>>(e@),
        },
{
    let ghost es = entries_view(entries@);
    let n = entries.len();
    if n == 0 || n > 65535 {
        return Err(String::from_str("ICO must contain between 1 and 65535 images"));
    }
    let mut result: Vec<u8> = Vec::new();
    push_le16(&mut result, 0);
    push_le16(&mut result, 1);
    push_le16(&mut result, n as u16);
    let ghost header = result@;
    let directory_size: u32 = 6 + 16 * (n as u32);
    let mut offset: u32 = directory_size;
    let mut k: usize = 0;
    while k < n
        invariant
            n == entries@.len(),
            es == entries_view(entries@),
            0 < n <= 65535,
            k <= n,
            header == le16(0) + le16(1) + le16(n as nat),
            ico_directory(es, 0, directory_size as nat) == directory_after(
                es,
                k as int,
                offset as nat,
                result@.skip(6),
            ),
            result@.len() >= 6,
            result@.take(6) == header,
            directory_size == 6 + 16 * n,
        decreases n - k,
    {
        let size = entries[k].0;
        let len = entries[k].1.len();
        proof {
            assert(es[k as int] == (size, entries@[k as int].1@));
        }
        if size > 256 || size == 0 || len > u32::MAX as usize {
            let mut e = String::new();
            push_str(&mut e, "unsupported ICO entry: ");
            push_decimal(&mut e, size as u64);
            push_str(&mut e, "px, ");
            push_decimal(&mut e, len as u64);
            push_str(&mut e, " bytes");
            return Err(e);
        }
        let ghost before = result@;
        push_ico_entry(&mut result, size, len as u32, offset);
        if offset as u64 + len as u64 > u32::MAX as u64 {
            return Err(String::from_str("ICO payload is too large"));
        }
        proof {
            lemma_directory_step(es, k as int, offset as nat, before.skip(6));
            assert(result@.skip(6) =~= before.skip(6) + ico_entry(size, len as nat, offset as nat));
            assert(result@.take(6) =~= before.take(6));
        }
        offset = offset + len as u32;
        k = k + 1;
    }
    proof {
        assert(result@ =~= header + result@.skip(6));
        assert(ico_directory(es, n as int, offset as nat) == Ok::<Seq<u8>, Seq<char>>(Seq::empty()));
        assert(result@.skip(6) + Seq::<u8>::empty() =~= result@.skip(6));
    }
    let ghost dir = result@.skip(6);
    assert(ico_directory(es, 0, directory_size as nat) == Ok::<Seq<u8>, Seq<char>>(dir));
    let mut j: usize = 0;
    while j < n
        invariant
            n == entries@.len(),
            es == entries_view(entries@),
            j <= n,
            result@ == header + dir + payloads_upto(es, j as int),
        decreases n - j,
    {
        let ghost before = result@;
        let mut i: usize = 0;
        while i < entries[j].1.len()
            invariant
                j < n,
                n == entries@.len(),
                i <= entries@[j as int].1@.len(),
                result@ == before + entries@[j as int].1@.take(i as int),
            decreases entries@[j as int].1@.len() - i,
        {
            result.push(entries[j].1[i]);
            proof {
                assert(entries@[j as int].1@.take(i + 1) =~= entries@[j as int].1@.take(i as int).push(
                    entries@[j as int].1@[i as int],
                ));
            }
            i = i + 1;
        }
        proof {
            assert(entries@[j as int].1@.take(entries@[j as int].1@.len() as int) =~= entries@[j as int].1@);
            assert(es[j as int].1 == entries@[j as int].1@);
            assert(payloads_upto(es, j + 1) == payloads_upto(es, j as int) + es[j as int].1);
            assert(result@ =~= header + dir + payloads_upto(es, j + 1));
        }
        j = j + 1;
    }
    Ok(result)
}

// ---------------------------------------------------------------------------
// Layout of an ICO file
// ---------------------------------------------------------------------------

/// Where the payload of entry `k` starts: after the header, the directory
/// and the payloads before it.
/// The total length of the payloads of the first `k` entries.
pub open spec fn lengths_before(es: Seq<(u32, Seq<u8>)>, k: int) -> nat
    decreases k,
{
    if k <= 0 {
        0
    } else {
        lengths_before(es, k - 1) + es[k - 1].1.len()
    }
}

proof fn lemma_payloads_length(es: Seq<(u32, Seq<u8>)>, k: int)
    requires
        0 <= k <= es.len(),
    ensures
        payloads_upto(es, k).len() == lengths_before(es, k),
    decreases k,
{
    if k > 0 {
        lemma_payloads_length(es, k - 1);
    }
}

pub open spec fn payload_offset(es: Seq<(u32, Seq<u8>)>, k: int) -> int {
    (6 + 16 * es.len() + payloads_upto(es, k).len()) as int
}

proof fn lemma_directory_length(es: Seq<(u32, Seq<u8>)>, k: int, offset: nat)
    requires
        0 <= k <= es.len(),
        ico_directory(es, k, offset) is Ok,
    ensures
        ico_directory(es, k, offset)->Ok_0.len() == 16 * (es.len() - k),
    decreases es.len() - k,
{
    if k < es.len() {
        lemma_directory_length(es, k + 1, offset + es[k].1.len());
        lemma_entry_len(es[k].0, es[k].1.len(), offset);
    }
}

proof fn lemma_directory_entry(es: Seq<(u32, Seq<u8>)>, k: int, offset: nat, j: int)
    requires
        0 <= k <= j < es.len(),
        ico_directory(es, k, offset) is Ok,
    ensures
        ico_directory(es, k, offset)->Ok_0.subrange(16 * (j - k), 16 * (j - k) + 16) == ico_entry(
            es[j].0,
            es[j].1.len(),
            (offset + payloads_upto(es, j).len() - payloads_upto(es, k).len()) as nat,
        ),
    decreases j - k,
{
    let d = ico_directory(es, k, offset)->Ok_0;
    let e = ico_entry(es[k].0, es[k].1.len(), offset);
    let next = (offset + es[k].1.len()) as nat;
    let rest = ico_directory(es, k + 1, next)->Ok_0;
    assert(d == e + rest);
    lemma_entry_len(es[k].0, es[k].1.len(), offset);
    if j == k {
        assert(d.subrange(0, 16) =~= e);
    } else {
        lemma_directory_entry(es, k + 1, next, j);
        lemma_directory_length(es, k + 1, next);
        assert(payloads_upto(es, k + 1).len() == payloads_upto(es, k).len() + es[k].1.len());
        assert(d.subrange(16 * (j - k), 16 * (j - k) + 16) =~= rest.subrange(
            16 * (j - (k + 1)),
            16 * (j - (k + 1)) + 16,
        ));
    }
}

proof fn lemma_payloads_grow(es: Seq<(u32, Seq<u8>)>, k: int, n: int)
    requires
        0 <= k <= n <= es.len(),
    ensures
        payloads_upto(es, k).len() <= payloads_upto(es, n).len(),
        payloads_upto(es, n).take(payloads_upto(es, k).len() as int) == payloads_upto(es, k),
    decreases n - k,
{
    if k < n {
        lemma_payloads_grow(es, k, n - 1);
        let a = payloads_upto(es, n - 1);
        assert(payloads_upto(es, n) == a + es[n - 1].1);
        assert((a + es[n - 1].1).take(payloads_upto(es, k).len() as int) =~= a.take(
            payloads_upto(es, k).len() as int,
        ));
    } else {
        assert(payloads_upto(es, n).take(payloads_upto(es, n).len() as int) =~= payloads_upto(es, n));
    }
}

proof fn lemma_payload_at(es: Seq<(u32, Seq<u8>)>, k: int)
    requires
        0 <= k < es.len(),
    ensures
        ({
            let all = payloads_upto(es, es.len() as int);
            let start = payloads_upto(es, k).len() as int;
            &&& start + es[k].1.len() <= all.len()
            &&& all.subrange(start, start + es[k].1.len()) == es[k].1
        }),
{
    let all = payloads_upto(es, es.len() as int);
    let upto = payloads_upto(es, k + 1);
    assert(upto == payloads_upto(es, k) + es[k].1);
    lemma_payloads_grow(es, k + 1, es.len() as int);
    let start = payloads_upto(es, k).len() as int;
    assert(all.subrange(start, start + es[k].1.len()) =~= upto.subrange(start, start + es[k].1.len()));
    assert(upto.subrange(start, start + es[k].1.len()) =~= es[k].1);
}

/// In a built ICO file, directory entry `k` (at byte 6 + 16k) records the
/// edge of image `k` (0 standing for 256) as width and height, no palette,
/// one plane, 32 bits per pixel, the payload's length, and its offset: the
/// directory's end plus the lengths of the payloads before it. The payload
/// is found at that offset byte for byte.
pub proof fn lemma_ico_entry_points_at_payload(es: Seq<(u32, Seq<u8>)>, k: int)
    requires
        encode_ico_spec(es) is Ok,
        0 <= k < es.len(),
    ensures
        ({
            let b = encode_ico_spec(es)->Ok_0;
            let off = payload_offset(es, k);
            let at = 6 + 16 * k;
            &&& b.subrange(at, at + 16) == ico_entry(es[k].0, es[k].1.len(), off as nat)
            &&& b[at] == ico_size_byte(es[k].0)
            &&& b[at + 1] == ico_size_byte(es[k].0)
            &&& b[at + 2] == 0
            &&& b[at + 3] == 0
            &&& b.subrange(at + 4, at + 6) == le16(1)
            &&& b.subrange(at + 6, at + 8) == le16(32)
            &&& b.subrange(at + 8, at + 12) == le32(es[k].1.len())
            &&& b.subrange(at + 12, at + 16) == le32(off as nat)
            &&& off == 6 + 16 * es.len() + lengths_before(es, k)
            &&& off + es[k].1.len() <= b.len()
            &&& b.subrange(off, off + es[k].1.len()) == es[k].1
        }),
{
    let n = es.len();
    let start = (6 + 16 * n) as nat;
    let dir = ico_directory(es, 0, start)->Ok_0;
    let head = le16(0) + le16(1) + le16(n);
    let all = payloads_upto(es, n as int);
    let b = encode_ico_spec(es)->Ok_0;
    assert(b == head + dir + all);
    assert(head.len() == 6);
    lemma_directory_length(es, 0, start);
    lemma_directory_entry(es, 0, start, k);
    assert(payloads_upto(es, 0).len() == 0);
    assert(b.subrange(6 + 16 * k, 6 + 16 * k + 16) =~= dir.subrange(16 * k, 16 * k + 16));
    lemma_payload_at(es, k);
    let p = payloads_upto(es, k).len() as int;
    assert(b.subrange(6 + 16 * n + p, 6 + 16 * n + p + es[k].1.len()) =~= all.subrange(
        p,
        p + es[k].1.len(),
    ));
    lemma_payloads_length(es, k);
    let at = 6 + 16 * k;
    let e = b.subrange(at, at + 16);
    reveal(ico_entry);
    assert(e[0] == b[at] && e[1] == b[at + 1] && e[2] == b[at + 2] && e[3] == b[at + 3]);
    assert(b.subrange(at + 4, at + 6) =~= e.subrange(4, 6));
    assert(b.subrange(at + 6, at + 8) =~= e.subrange(6, 8));
    assert(b.subrange(at + 8, at + 12) =~= e.subrange(8, 12));
    assert(b.subrange(at + 12, at + 16) =~= e.subrange(12, 16));
    let off = payload_offset(es, k);
    assert(e.subrange(4, 6) =~= le16(1));
    assert(e.subrange(6, 8) =~= le16(32));
    assert(e.subrange(8, 12) =~= le32(es[k].1.len()));
    assert(e.subrange(12, 16) =~= le32(off as nat));
}

/// The header of a built ICO file: reserved zero, type 1 (icon), and the
/// number of images; the file is the header, one 16-byte directory entry
/// per image, and the payloads, nothing more.
pub proof fn lemma_ico_header(es: Seq<(u32, Seq<u8>)>)
    requires
        encode_ico_spec(es) is Ok,
    ensures
        encode_ico_spec(es)->Ok_0.take(6) == seq![0u8, 0, 1, 0, (es.len() % 256) as u8, ((es.len() / 256) % 256) as u8],
        encode_ico_spec(es)->Ok_0.len() == 6 + 16 * es.len() + lengths_before(es, es.len() as int),
{
    let b = encode_ico_spec(es)->Ok_0;
    let head = le16(0) + le16(1) + le16(es.len());
    assert(b.take(6) =~= head);
    let n = es.len();
    lemma_directory_length(es, 0, (6 + 16 * n) as nat);
    lemma_payloads_length(es, n as int);
}

} // verus!
