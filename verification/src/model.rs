//! The clipboard history entry model.

use vstd::prelude::*;
use vstd::utf8::encode_utf8;

use crate::text::{char_is_whitespace, chars_of, collapse_whitespace, collapse_ws, decimal, push_char, push_str, string_of, u32_to_string};

verus! {

/// Which selection a clipboard event came from: CLIPBOARD (explicit copy) or
/// PRIMARY (mouse selection).
#[derive(Debug, Clone, Copy, PartialEq, Eq, Structural)]
pub enum Source {
    Clipboard,
    Primary,
}

/// Whether an entry holds text or an image.
#[derive(Debug, Clone, Copy, PartialEq, Eq, Structural)]
pub enum EntryKind {
    Text,
    Image,
}

/// Stable identifier of a history entry: the lowercase hex BLAKE3 hash of its
/// content, so identical content always maps to the same id.
pub type EntryId = String;

/// Maximum number of characters kept in a row preview.
pub const PREVIEW_MAX_CHARS: usize = 200;

/// A single clipboard history entry.
#[derive(Debug, Clone)]
pub struct Entry {
    /// Content hash (hex), also the key of the entry in the history.
    pub id: EntryId,
    pub kind: EntryKind,
    /// Present for text entries.
    pub text: Option<String>,
    /// Path of the stored PNG for image entries.
    pub image_path: Option<String>,
    /// Path of the stored thumbnail PNG for image entries.
    pub thumb_path: Option<String>,
    /// One-line display text (text flattened and truncated, or "Imagem WxH").
    pub preview: String,
    /// Last-used time in unix milliseconds; drives the most-recent-first order.
    pub timestamp_ms: i64,
    /// Pinned entries stay above the most-recent-first order.
    pub pinned: bool,
}

/// The mathematical content of an [`Entry`].
pub struct EntryView {
    pub id: Seq<char>,
    pub kind: EntryKind,
    pub text: Option<Seq<char>>,
    pub image_path: Option<Seq<char>>,
    pub thumb_path: Option<Seq<char>>,
    pub preview: Seq<char>,
    pub timestamp_ms: i64,
    pub pinned: bool,
}

/// The characters of an optional string.
pub open spec fn opt_view(o: Option<String>) -> Option<Seq<char>> {
    match o {
        Some(s) => Some(s@),
        None => None,
    }
}

impl View for Entry {
    type V = EntryView;

    open spec fn view(&self) -> EntryView {
        EntryView {
            id: self.id@,
            kind: self.kind,
            text: opt_view(self.text),
            image_path: opt_view(self.image_path),
            thumb_path: opt_view(self.thumb_path),
            preview: self.preview@,
            timestamp_ms: self.timestamp_ms,
            pinned: self.pinned,
        }
    }
}

/// The lowercase hexadecimal digit for `n < 16`.
pub open spec fn hex_digit(n: nat) -> char {
    if n < 10 {
        crate::text::digit_char(n)
    } else if n == 10 {
        'a'
    } else if n == 11 {
        'b'
    } else if n == 12 {
        'c'
    } else if n == 13 {
        'd'
    } else if n == 14 {
        'e'
    } else {
        'f'
    }
}

/// Lowercase hexadecimal encoding, two digits per byte, high nibble first.
pub open spec fn hex_lower(b: Seq<u8>) -> Seq<char>
    decreases b.len(),
{
    if b.len() == 0 {
        seq![]
    } else {
        hex_lower(b.drop_last()) + seq![
            hex_digit((b.last() / 16) as nat),
            hex_digit((b.last() % 16) as nat),
        ]
    }
}

/// The 32-byte BLAKE3 digest of `data`, as `blake3::hash` computes it.
pub uninterp spec fn blake3_hash(data: Seq<u8>) -> Seq<u8>;

/// The id of a text entry: the hex hash of the text's UTF-8 bytes.
pub open spec fn text_id(t: Seq<char>) -> Seq<char> {
    hex_lower(blake3_hash(encode_utf8(t)))
}

/// The preview of a text: whitespace collapsed, cut to [`PREVIEW_MAX_CHARS`]
/// characters, with `…` appended when something was cut.
pub open spec fn preview_of(t: Seq<char>) -> Seq<char> {
    let flat = collapse_ws(t);
    if flat.len() > PREVIEW_MAX_CHARS {
        flat.take(PREVIEW_MAX_CHARS as int).push('…')
    } else {
        flat
    }
}

/// The preview of an image entry: `Imagem {width}×{height}`.
pub open spec fn image_preview(width: u32, height: u32) -> Seq<char> {
    seq!['I', 'm', 'a', 'g', 'e', 'm', ' '] + decimal(width as nat) + seq!['×'] + decimal(
        height as nat,
    )
}

/// The view a freshly built text entry has.
pub open spec fn text_entry_view(t: Seq<char>, timestamp_ms: i64) -> EntryView {
    EntryView {
        id: text_id(t),
        kind: EntryKind::Text,
        text: Some(t),
        image_path: None,
        thumb_path: None,
        preview: preview_of(t),
        timestamp_ms,
        pinned: false,
    }
}

/// Calls `blake3::hash` and reads out the digest's bytes.
#[verifier::external_body]
fn blake3_digest(data: &[u8]) -> (r: [u8; 32])
    ensures
        r@ == blake3_hash(data@),
{
    *blake3::hash(data).as_bytes()
}

fn hex_char(n: u8) -> (c: char)
    requires
        n < 16,
    ensures
        c == hex_digit(n as nat),
{
    match n {
        0 => '0',
        1 => '1',
        2 => '2',
        3 => '3',
        4 => '4',
        5 => '5',
        6 => '6',
        7 => '7',
        8 => '8',
        9 => '9',
        10 => 'a',
        11 => 'b',
        12 => 'c',
        13 => 'd',
        14 => 'e',
        _ => 'f',
    }
}

/// Lowercase hex encoding of `bytes`.
fn hex_string(bytes: &[u8]) -> (r: String)
    ensures
        r@ == hex_lower(bytes@),
{
    let mut s = String::new();
    let mut i: usize = 0;
    while i < bytes.len()
        invariant
            i <= bytes.len(),
            s@ == hex_lower(bytes@.take(i as int)),
        decreases bytes.len() - i,
    {
        let b = bytes[i];
        push_char(&mut s, hex_char(b / 16));
        push_char(&mut s, hex_char(b % 16));
        assert(bytes@.take(i + 1).drop_last() == bytes@.take(i as int));
        i = i + 1;
    }
    assert(bytes@.take(bytes.len() as int) == bytes@);
    s
}

/// Hex encoding takes two characters per byte.
pub proof fn lemma_hex_lower_len(b: Seq<u8>)
    ensures
        hex_lower(b).len() == 2 * b.len(),
    decreases b.len(),
{
    if b.len() > 0 {
        lemma_hex_lower_len(b.drop_last());
    }
}

/// Hex BLAKE3 hash of arbitrary bytes: 64 lowercase hex characters.
pub fn hash_bytes(bytes: &[u8]) -> (r: String)
    ensures
        r@ == hex_lower(blake3_hash(bytes@)),
        r@.len() == 64,
{
    let digest = blake3_digest(bytes);
    let r = hex_string(&digest);
    proof {
        lemma_hex_lower_len(digest@);
    }
    r
}

/// The standard library's wall-clock time, carried through opaquely.
#[verifier::external_type_specification]
#[verifier::external_body]
pub struct ExSystemTime(std::time::SystemTime);

/// Calls `SystemTime::now`.
#[verifier::external_body]
fn system_time_now() -> std::time::SystemTime {
    std::time::SystemTime::now()
}

/// Calls `SystemTime::duration_since(UNIX_EPOCH)`; `None` when the time lies
/// before the epoch. Nothing is stated: the value depends on the clock it was
/// read from.
#[verifier::external_body]
fn since_epoch(t: &std::time::SystemTime) -> Option<std::time::Duration> {
    t.duration_since(std::time::UNIX_EPOCH).ok()
}

/// Calls `Duration::as_millis`: the whole milliseconds of the duration. Nothing
/// is stated, as the duration is carried through opaquely.
#[verifier::external_body]
fn duration_millis(d: &std::time::Duration) -> u128 {
    d.as_millis()
}

/// A reading of milliseconds since the epoch as a timestamp: the reading cast
/// to `i64`, or 0 when the clock lies before the epoch.
pub fn millis_to_timestamp(millis: Option<u128>) -> (r: i64)
    ensures
        r == (match millis {
            Some(m) => m as i64,
            None => 0i64,
        }),
{
    match millis {
        Some(m) => m as i64,
        None => 0,
    }
}

/// Current time in unix milliseconds.
pub fn now_ms() -> i64 {
    let now = system_time_now();
    let millis = match since_epoch(&now) {
        Some(d) => Some(duration_millis(&d)),
        None => None,
    };
    millis_to_timestamp(millis)
}

/// Flatten whitespace/newlines to single spaces and truncate for a row preview.
pub fn make_preview(text: &str) -> (r: String)
    ensures
        r@ == preview_of(text@),
{
    let chars = chars_of(text);
    let flat = collapse_whitespace(&chars);
    let mut out = String::new();
    let mut i: usize = 0;
    while i < flat.len() && i < PREVIEW_MAX_CHARS
        invariant
            i <= flat.len(),
            i <= PREVIEW_MAX_CHARS,
            out@ == flat@.take(i as int),
        decreases flat.len() - i,
    {
        push_char(&mut out, flat[i]);
        assert(flat@.take(i + 1) == flat@.take(i as int).push(flat@[i as int]));
        i = i + 1;
    }
    if flat.len() > PREVIEW_MAX_CHARS {
        push_char(&mut out, '…');
    } else {
        assert(flat@.take(flat.len() as int) == flat@);
    }
    out
}

impl Entry {
    /// Build a text entry, computing its id and preview.
    pub fn new_text(text: &str, timestamp_ms: i64) -> (e: Entry)
        ensures
            e@ == text_entry_view(text@, timestamp_ms),
            e.id@.len() == 64,
    {
        Entry {
            id: hash_bytes(text.as_bytes()),
            kind: EntryKind::Text,
            preview: make_preview(text),
            text: Some(text.to_owned()),
            image_path: None,
            thumb_path: None,
            timestamp_ms,
            pinned: false,
        }
    }

    /// Build an image entry from an already-computed content hash, on-disk paths
    /// and pixel dimensions.
    pub fn new_image(
        content_hash: String,
        image_path: String,
        thumb_path: String,
        width: u32,
        height: u32,
        timestamp_ms: i64,
    ) -> (e: Entry)
        ensures
            e@ == (EntryView {
                id: content_hash@,
                kind: EntryKind::Image,
                text: None,
                image_path: Some(image_path@),
                thumb_path: Some(thumb_path@),
                preview: image_preview(width, height),
                timestamp_ms,
                pinned: false,
            }),
    {
        let mut preview = String::new();
        push_str(&mut preview, "Imagem ");
        let w = u32_to_string(width);
        push_str(&mut preview, w.as_str());
        push_char(&mut preview, '×');
        let h = u32_to_string(height);
        push_str(&mut preview, h.as_str());
        proof {
            reveal_strlit("Imagem ");
            assert(preview@ == image_preview(width, height));
        }
        Entry {
            id: content_hash,
            kind: EntryKind::Image,
            text: None,
            image_path: Some(image_path),
            thumb_path: Some(thumb_path),
            preview,
            timestamp_ms,
            pinned: false,
        }
    }

    /// A copy of this entry with the same content.
    pub fn duplicate(&self) -> (r: Entry)
        ensures
            r@ == self@,
    {
        Entry {
            id: self.id.clone(),
            kind: self.kind,
            text: clone_opt(&self.text),
            image_path: clone_opt(&self.image_path),
            thumb_path: clone_opt(&self.thumb_path),
            preview: self.preview.clone(),
            timestamp_ms: self.timestamp_ms,
            pinned: self.pinned,
        }
    }
}

/// A copy of an optional string.
pub fn clone_opt(o: &Option<String>) -> (r: Option<String>)
    ensures
        opt_view(r) == opt_view(*o),
{
    match o {
        Some(s) => Some(s.clone()),
        None => None,
    }
}


/// The number an entry kind is stored as: 0 for text, 1 for images.
pub open spec fn kind_code(kind: EntryKind) -> i64 {
    match kind {
        EntryKind::Text => 0,
        EntryKind::Image => 1,
    }
}

/// The kind a stored number stands for: 1 is an image, anything else text.
pub open spec fn kind_of_code(v: i64) -> EntryKind {
    if v == 1 {
        EntryKind::Image
    } else {
        EntryKind::Text
    }
}

/// The number an entry kind is stored as.
pub fn kind_to_i64(kind: EntryKind) -> (r: i64)
    ensures
        r == kind_code(kind),
{
    match kind {
        EntryKind::Text => 0,
        EntryKind::Image => 1,
    }
}

/// The kind a stored number stands for.
pub fn kind_from_i64(v: i64) -> (r: EntryKind)
    ensures
        r == kind_of_code(v),
{
    if v == 1 {
        EntryKind::Image
    } else {
        EntryKind::Text
    }
}

/// Law: a kind read back from the number it is stored as is the same kind.
pub proof fn law_kind_code_roundtrip(kind: EntryKind)
    ensures
        kind_of_code(kind_code(kind)) == kind,
{
}

/// Law: identical text gets an identical id, whenever it is copied.
pub proof fn law_same_text_same_id(t: Seq<char>, a: i64, b: i64)
    ensures
        text_entry_view(t, a).id == text_entry_view(t, b).id,
        text_entry_view(t, a).preview == text_entry_view(t, b).preview,
{
}

/// Law: a preview never holds more than [`PREVIEW_MAX_CHARS`] characters of
/// text plus the `…` that marks a cut, and a text that fits is not cut.
pub proof fn law_preview_bounded(t: Seq<char>)
    ensures
        preview_of(t).len() <= PREVIEW_MAX_CHARS + 1,
        collapse_ws(t).len() <= PREVIEW_MAX_CHARS ==> preview_of(t) == collapse_ws(t),
        collapse_ws(t).len() > PREVIEW_MAX_CHARS ==> preview_of(t).last() == '…',
{
}

} // verus!
