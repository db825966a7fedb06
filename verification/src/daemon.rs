//! The daemon's decisions: which captures enter the history, what the popup is
//! told, and how edits and selections change the history. Running processes,
//! D-Bus and the GUI happen outside the library.

use vstd::prelude::*;

use crate::config::General;
use crate::error::KlippoError;
use crate::actions::OutputMode;
use crate::model::{Entry, EntryKind, EntryView, Source, opt_view, text_entry_view};
use crate::store::{Store, inserted, kept, lookup, pruned, touched, views, without_id};
use crate::text::{trim_str, trim_ws, str_eq};

verus! {

/// An event pushed from the daemon to the GTK UI.
#[derive(Debug, Clone)]
pub enum UiEvent {
    Show,
    Hide,
    Toggle,
    /// History changed: rebuild the list if visible.
    Refresh,
    /// Put this content on the system clipboard (done by the focused popup).
    SetClipboard(ClipboardPayload),
    /// Put this content on the PRIMARY selection.
    SetPrimary(ClipboardPayload),
    /// Offer an action menu for an entry (entry id and matching action names).
    ActionMenu { id: String, actions: Vec<String> },
}

/// The text a capture stores, or `None` when it is filtered out: PRIMARY
/// selections are ignored when `ignore_selection` is on, the text is trimmed
/// when `strip_whitespace` is on, and empty text is dropped.
pub open spec fn accepted_text(g: General, text: Seq<char>, source: Source) -> Option<Seq<char>> {
    if source == Source::Primary && g.ignore_selection {
        None
    } else {
        let p = if g.strip_whitespace {
            trim_ws(text)
        } else {
            text
        };
        if p.len() == 0 {
            None
        } else {
            Some(p)
        }
    }
}

/// Apply the configuration to a text capture: the text to store, or `None` if
/// it is filtered out (ignored selection, empty).
pub fn accept_text(general: &General, text: &str, source: Source) -> (r: Option<String>)
    ensures
        match accepted_text(*general, text@, source) {
            Some(p) => r matches Some(s) && s@ == p,
            None => r is None,
        },
{
    if source == Source::Primary && general.ignore_selection {
        return None;
    }
    let processed = if general.strip_whitespace {
        trim_str(text)
    } else {
        text
    };
    if processed.is_empty() {
        return None;
    }
    Some(processed.to_owned())
}

/// Store a text capture: filtered by the configuration, then inserted with
/// timestamp `now_ms` and pruned to `max_items`. Returns the stored entry and
/// the entries pruned to make room, or `None` if the capture was filtered out.
pub fn ingest_text(store: &mut Store, general: &General, text: &str, source: Source, now_ms: i64) -> (r:
    Result<Option<(Entry, Vec<Entry>)>, KlippoError>)
    requires
        old(store).wf(),
    ensures
        final(store).wf(),
        match accepted_text(*general, text@, source) {
            None => r matches Ok(None) && final(store)@ == old(store)@,
            Some(p) => r matches Ok(Some((e, gone))) && e@ == text_entry_view(p, now_ms)
                && final(store)@ == kept(inserted(old(store)@, e@), general.max_items as nat)
                && views(gone@) == pruned(inserted(old(store)@, e@), general.max_items as nat),
        },
{
    match accept_text(general, text, source) {
        None => Ok(None),
        Some(p) => {
            let entry = Entry::new_text(p.as_str(), now_ms);
            let gone = store.upsert(&entry, general.max_items)?;
            Ok(Some((entry, gone)))
        },
    }
}

/// Whether an image capture may be stored: not when images are ignored, and
/// not from PRIMARY when selections are ignored or text-only.
pub fn image_capture_allowed(general: &General, source: Source) -> (r: bool)
    ensures
        r == !(general.ignore_images || (source == Source::Primary && (general.selection_text_only
            || general.ignore_selection))),
{
    !(general.ignore_images || (source == Source::Primary && (general.selection_text_only
        || general.ignore_selection)))
}

/// The width and height of the image `image::load_from_memory` decodes from
/// `bytes` (the format is guessed from the bytes themselves), or `None` when it
/// cannot decode them.
pub uninterp spec fn decoded_size(bytes: Seq<u8>) -> Option<(u32, u32)>;

/// The PNG file that `DynamicImage::write_to` writes for
/// `DynamicImage::thumbnail(width, height)` of the image decoded from `bytes`,
/// or `None` when the encoder fails.
pub uninterp spec fn thumbnail_png(bytes: Seq<u8>, width: u32, height: u32) -> Option<Seq<u8>>;

/// Calls `image::load_from_memory`, reads the decoded image's `width` and
/// `height`, and writes its `thumbnail(thumb_width, thumb_height)` as PNG with
/// `write_to` on an in-memory buffer. The size is named by `decoded_size` and
/// the thumbnail's bytes by `thumbnail_png`. (The decoded image is an outside
/// value that only these calls read, so they stand in this one item.)
#[verifier::external_body]
fn decode_with_thumbnail(bytes: &[u8], thumb_width: u32, thumb_height: u32) -> (r: Result<
    (u32, u32, Result<Vec<u8>, image::ImageError>),
    image::ImageError,
>)
    ensures
        r is Ok <==> decoded_size(bytes@) is Some,
        r matches Ok((w, h, t)) ==> decoded_size(bytes@) == Some((w, h)) && match t {
            Ok(png) => thumbnail_png(bytes@, thumb_width, thumb_height) == Some(png@),
            Err(_) => thumbnail_png(bytes@, thumb_width, thumb_height) is None,
        },
{
    let img = image::load_from_memory(bytes)?;
    let mut png = Vec::new();
    let thumb = img
        .thumbnail(thumb_width, thumb_height)
        .write_to(&mut std::io::Cursor::new(&mut png), image::ImageFormat::Png)
        .map(|_| png);
    Ok((img.width(), img.height(), thumb))
}

/// Largest thumbnail width stored next to an image capture.
pub const THUMB_WIDTH: u32 = 96;

/// Largest thumbnail height stored next to an image capture.
pub const THUMB_HEIGHT: u32 = 64;

/// Decode an image capture: its width and height, and a PNG thumbnail fitting
/// inside [`THUMB_WIDTH`] x [`THUMB_HEIGHT`]. Fails when the bytes are no
/// image the `image` crate can decode or the thumbnail cannot be encoded.
pub fn decode_capture(bytes: &[u8]) -> (r: Result<(u32, u32, Vec<u8>), KlippoError>)
    ensures
        match decoded_size(bytes@) {
            None => r matches Err(e) && e is Image,
            Some((w, h)) => match thumbnail_png(bytes@, THUMB_WIDTH, THUMB_HEIGHT) {
                Some(t) => r matches Ok((w2, h2, t2)) && w2 == w && h2 == h && t2@ == t,
                None => r matches Err(e) && e is Image,
            },
        },
{
    match decode_with_thumbnail(bytes, THUMB_WIDTH, THUMB_HEIGHT) {
        Err(e) => Err(KlippoError::Image(e)),
        Ok((w, h, Ok(png))) => Ok((w, h, png)),
        Ok((_, _, Err(e))) => Err(KlippoError::Image(e)),
    }
}

/// An image capture whose content is already stored only moves that entry to
/// `now_ms`. Returns the entry as it was, or `None` when `id` is new.
pub fn promote_existing(store: &mut Store, id: &str, now_ms: i64) -> (r: Option<Entry>)
    requires
        old(store).wf(),
    ensures
        final(store).wf(),
        match lookup(old(store)@, id@) {
            Some(v) => r matches Some(e) && e@ == v && final(store)@ == touched(old(store)@, id@, now_ms),
            None => r is None && final(store)@ == old(store)@,
        },
{
    match store.get(id) {
        Ok(Some(e)) => {
            let _ = store.touch(id, now_ms);
            Some(e)
        },
        _ => None,
    }
}

/// What an entry puts on the clipboard: its text, or else the file its image
/// is stored in.
pub open spec fn payload_matches(r: Option<ClipboardPayload>, v: Option<EntryView>) -> bool {
    match v {
        Some(v) => match v.text {
            Some(t) => r matches Some(ClipboardPayload::Text(s)) && s@ == t,
            None => match v.image_path {
                Some(p) => r matches Some(ClipboardPayload::ImageFile(q)) && q@ == p,
                None => r is None,
            },
        },
        None => r is None,
    }
}

/// What an entry puts on the clipboard: its text, or else the PNG file of its
/// image (`None` for an entry with neither).
pub fn entry_payload(e: Entry) -> (r: Option<ClipboardPayload>)
    ensures
        payload_matches(r, Some(e@)),
{
    match e.text {
        Some(t) => Some(ClipboardPayload::Text(t)),
        None => match e.image_path {
            Some(p) => Some(ClipboardPayload::ImageFile(p)),
            None => None,
        },
    }
}

/// What to put back when the clipboard is cleared: with
/// `prevent_empty_clipboard` on, the content of the top history entry when the
/// CLIPBOARD selection went empty; nothing otherwise (also when PRIMARY went
/// empty or the history is empty).
pub fn restore_on_clear(general: &General, store: &Store, source: Source) -> (r: Option<ClipboardPayload>)
    requires
        store.wf(),
    ensures
        general.prevent_empty_clipboard && source == Source::Clipboard && store@.len() > 0
            ==> payload_matches(r, Some(store@[0])),
        !(general.prevent_empty_clipboard && source == Source::Clipboard && store@.len() > 0)
            ==> r is None,
{
    if !general.prevent_empty_clipboard || source != Source::Clipboard {
        return None;
    }
    match store.list(1) {
        Ok(v) => {
            assert(views(v@).len() == v@.len());
            if v.len() == 0 {
                None
            } else {
                assert(views(v@)[0] == v@[0]@);
                assert(kept(store@, 1)[0] == store@[0]);
                let mut v = v;
                let top = v.swap_remove(0);
                entry_payload(top)
            }
        },
        Err(_) => None,
    }
}

/// The other selection, which a capture is copied to when
/// `sync_clipboards` keeps CLIPBOARD and PRIMARY identical.
pub fn sync_target(general: &General, source: Source) -> (r: Option<Source>)
    ensures
        r == if general.sync_clipboards {
            Some(
                match source {
                    Source::Clipboard => Source::Primary,
                    Source::Primary => Source::Clipboard,
                },
            )
        } else {
            None
        },
{
    if !general.sync_clipboards {
        return None;
    }
    match source {
        Source::Clipboard => Some(Source::Primary),
        Source::Primary => Some(Source::Clipboard),
    }
}

/// Promote an entry to `now_ms` and return what to copy to the clipboard: its
/// text, or the PNG file of an image entry; `None` for unknown ids.
pub fn select_entry(store: &mut Store, id: &str, now_ms: i64) -> (r: Option<ClipboardPayload>)
    requires
        old(store).wf(),
    ensures
        final(store).wf(),
        final(store)@ == touched(old(store)@, id@, now_ms),
        payload_matches(r, lookup(touched(old(store)@, id@, now_ms), id@)),
{
    let _ = store.touch(id, now_ms);
    match store.get(id) {
        Ok(Some(e)) => entry_payload(e),
        _ => None,
    }
}

/// The full text of an entry; `None` for unknown ids and image entries.
pub fn entry_text(store: &Store, id: &str) -> (r: Option<String>)
    requires
        store.wf(),
    ensures
        match lookup(store@, id@) {
            Some(v) => match v.text {
                Some(t) => r matches Some(s) && s@ == t,
                None => r is None,
            },
            None => r is None,
        },
{
    match store.get(id) {
        Ok(Some(e)) => e.text,
        _ => None,
    }
}

/// What replacing an entry's text did: the new entry's id, the entries pruned
/// by inserting it, and the edited entry if it was removed.
pub struct Replaced {
    pub new_id: String,
    pub pruned: Vec<Entry>,
    pub removed: Option<Entry>,
}

/// Replace an entry's text: store the edit as a new entry at `now_ms` and drop
/// the edited one (unless the edit has the same content). Returns `None`, with
/// the history unchanged, when the new text is empty.
pub fn replace_entry_text(
    store: &mut Store,
    max_items: u32,
    old_id: &str,
    new_text: &str,
    now_ms: i64,
) -> (r: Option<Replaced>)
    requires
        old(store).wf(),
    ensures
        final(store).wf(),
        new_text@.len() == 0 ==> r is None && final(store)@ == old(store)@,
        new_text@.len() > 0 ==> ({
            let e = text_entry_view(new_text@, now_ms);
            let after = kept(inserted(old(store)@, e), max_items as nat);
            &&& r matches Some(rep)
            &&& rep.new_id@ == e.id
            &&& views(rep.pruned@) == pruned(inserted(old(store)@, e), max_items as nat)
            &&& if old_id@ == e.id {
                final(store)@ == after && rep.removed is None
            } else {
                &&& final(store)@ == without_id(after, old_id@)
                &&& match lookup(after, old_id@) {
                    Some(v) => rep.removed matches Some(x) && x@ == v,
                    None => rep.removed is None,
                }
            }
        }),
{
    if new_text.is_empty() {
        return None;
    }
    let entry = Entry::new_text(new_text, now_ms);
    let gone = match store.upsert(&entry, max_items) {
        Ok(g) => g,
        Err(_) => Vec::new(),
    };
    let removed = if !str_eq(old_id, entry.id.as_str()) {
        match store.remove(old_id) {
            Ok(o) => o,
            Err(_) => None,
        }
    } else {
        None
    };
    Some(Replaced { new_id: entry.id, pruned: gone, removed })
}

/// The MIME type and bytes `GetEntryContent` answers for a text entry
/// (`None` for image entries, whose bytes live in a file).
pub fn text_payload(e: &Entry) -> (r: Option<(String, Vec<u8>)>)
    ensures
        e.kind == EntryKind::Text ==> (r matches Some(p) && p.0@ == "text/plain;charset=utf-8"@
            && p.1@ == match e@.text {
                Some(t) => vstd::utf8::encode_utf8(t),
                None => vstd::utf8::encode_utf8(Seq::<char>::empty()),
            }),
        e.kind == EntryKind::Image ==> r is None,
{
    match e.kind {
        EntryKind::Image => None,
        EntryKind::Text => {
            let bytes = match &e.text {
                Some(t) => vstd::slice::slice_to_vec(t.as_str().as_bytes()),
                None => vstd::slice::slice_to_vec("".as_bytes()),
            };
            proof {
                reveal_strlit("");
                assert(""@ =~= Seq::<char>::empty());
            }
            Some(("text/plain;charset=utf-8".to_owned(), bytes))
        },
    }
}

/// What selecting an entry puts back on the clipboard.
#[derive(Debug, Clone)]
pub enum ClipboardPayload {
    /// The entry's text.
    Text(String),
    /// The PNG file an image entry is stored in.
    ImageFile(String),
}

/// What to do with a command's output once it has run.
#[derive(Debug, Clone)]
pub enum FollowUp {
    /// Nothing: the output is ignored, or there was none.
    Nothing,
    /// Store the (trimmed) output as a new history entry.
    Store(String),
    /// Store the (trimmed) output and put it on the clipboard.
    StoreAndCopy(String),
}

/// Whether a command with output mode `mode` is waited for so that its output
/// can be read (fire-and-forget commands are not).
pub fn waits_for_output(mode: OutputMode) -> (r: bool)
    ensures
        r == (mode != OutputMode::Ignore),
{
    match mode {
        OutputMode::Ignore => false,
        _ => true,
    }
}

/// What a command's standard output leads to, given its output mode: nothing
/// for ignored output or output that is only whitespace, otherwise the trimmed
/// output to store (and, for `ReplaceClipboard`, to copy).
pub fn command_follow_up(mode: OutputMode, stdout: &str) -> (r: FollowUp)
    ensures
        mode == OutputMode::Ignore || trim_ws(stdout@).len() == 0 ==> r is Nothing,
        mode == OutputMode::NewEntry && trim_ws(stdout@).len() > 0 ==> (r matches FollowUp::Store(s)
            && s@ == trim_ws(stdout@)),
        mode == OutputMode::ReplaceClipboard && trim_ws(stdout@).len() > 0 ==> (r matches FollowUp::StoreAndCopy(s)
            && s@ == trim_ws(stdout@)),
{
    match mode {
        OutputMode::Ignore => FollowUp::Nothing,
        OutputMode::NewEntry => match command_output_text(stdout) {
            Some(t) => FollowUp::Store(t),
            None => FollowUp::Nothing,
        },
        OutputMode::ReplaceClipboard => match command_output_text(stdout) {
            Some(t) => FollowUp::StoreAndCopy(t),
            None => FollowUp::Nothing,
        },
    }
}

/// The text the last `StoreAndCopy` of `fs` copies, if any.
pub open spec fn last_copied(fs: Seq<FollowUp>) -> Option<Seq<char>>
    decreases fs.len(),
{
    if fs.len() == 0 {
        None
    } else {
        match fs.last() {
            FollowUp::StoreAndCopy(s) => Some(s@),
            _ => last_copied(fs.drop_last()),
        }
    }
}

/// The text an action leaves on the clipboard after all its commands ran: the
/// output of the last command that replaces the clipboard, if any.
pub fn copied_text(fs: &[FollowUp]) -> (r: Option<String>)
    ensures
        opt_view(r) == last_copied(fs@),
{
    let mut out: Option<String> = None;
    let mut i: usize = 0;
    while i < fs.len()
        invariant
            i <= fs.len(),
            opt_view(out) == last_copied(fs@.take(i as int)),
        decreases fs.len() - i,
    {
        assert(fs@.take(i + 1).drop_last() =~= fs@.take(i as int));
        assert(fs@.take(i + 1).last() == fs@[i as int]);
        match &fs[i] {
            FollowUp::StoreAndCopy(s) => {
                out = Some(s.clone());
            },
            _ => {},
        }
        i = i + 1;
    }
    assert(fs@.take(fs.len() as int) =~= fs@);
    out
}

/// The text an action's command printed, as stored: trimmed, and `None` when
/// nothing but whitespace was printed.
pub fn command_output_text(stdout: &str) -> (r: Option<String>)
    ensures
        trim_ws(stdout@).len() == 0 ==> r is None,
        trim_ws(stdout@).len() > 0 ==> (r matches Some(s) && s@ == trim_ws(stdout@)),
{
    let t = trim_str(stdout);
    if t.is_empty() {
        None
    } else {
        Some(t.to_owned())
    }
}

/// Law (captures): a PRIMARY capture is dropped when selections are ignored;
/// otherwise, with `strip_whitespace` on, the stored text is exactly the
/// capture trimmed, whichever selection it came from, and only all-whitespace
/// captures are dropped; with it off, the capture is stored as it came unless
/// it is empty.
pub proof fn law_capture_text(g: General, text: Seq<char>, source: Source)
    ensures
        source == Source::Primary && g.ignore_selection ==> accepted_text(g, text, source) is None,
        !(source == Source::Primary && g.ignore_selection) && g.strip_whitespace ==> (
        accepted_text(g, text, source) == if trim_ws(text).len() > 0 {
            Some(trim_ws(text))
        } else {
            None
        }),
        !(source == Source::Primary && g.ignore_selection) && !g.strip_whitespace ==> (
        accepted_text(g, text, source) == if text.len() > 0 {
            Some(text)
        } else {
            None
        }),
{
}

/// Law (selection gives back the content): the clipboard payload of an entry
/// holding text is exactly that text, whatever its preview shows; an entry
/// without text gives its image file.
pub proof fn law_payload_is_content(r: Option<ClipboardPayload>, v: EntryView)
    requires
        payload_matches(r, Some(v)),
    ensures
        v.text matches Some(t) ==> (r matches Some(ClipboardPayload::Text(s)) && s@ == t),
        v.text is None ==> (v.image_path matches Some(p) ==> (r matches Some(
            ClipboardPayload::ImageFile(q),
        ) && q@ == p)),
{
}

/// Law (round trip): selecting an entry made from captured text puts that very
/// text back on the clipboard, not its flattened or cut preview.
pub proof fn law_selected_text_is_captured_text(r: Option<ClipboardPayload>, t: Seq<char>, ts: i64)
    requires
        payload_matches(r, Some(text_entry_view(t, ts))),
    ensures
        r matches Some(ClipboardPayload::Text(s)) && s@ == t,
{
}

} // verus!
