//! Clipboard capture: backend selection, the events capture sources forward,
//! and the change detection that turns polled selections into events.
//!
//! On GNOME Wayland no outside program can watch the clipboard, so events
//! arrive over D-Bus from the GNOME Shell extension and the local source is a
//! no-op. X11 sessions are polled; KDE/wlroots sessions use `wl-paste --watch`.

use vstd::prelude::*;


use crate::error::KlippoError;
use crate::model::Source;
use crate::text::{lowercase, has_substring, str_contains, str_eq, to_lowercase, trim_str, trim_ws};

verus! {

/// A clipboard change observed by a capture source.
#[derive(Debug, Clone)]
pub enum ClipboardEvent {
    Text { text: String, source: Source },
    Image { mime: String, bytes: Vec<u8>, source: Source },
    Cleared { source: Source },
}

/// Which capture backend to use for the current session.
#[derive(Debug, Clone, Copy, PartialEq, Eq, Structural)]
pub enum BackendKind {
    /// GNOME Wayland: events arrive via D-Bus from the Shell extension.
    GnomeBridge,
    /// KDE 6.4+/wlroots Wayland: data-control through `wl-paste`.
    WaylandDataControl,
    /// X11 (or Xwayland): polled selections.
    X11,
    /// No usable backend detected.
    NoBackend,
}

/// Clipboard features available for a backend.
#[derive(Debug, Clone, Copy, PartialEq, Eq, Structural)]
pub struct BackendCapabilities {
    pub text: bool,
    pub image: bool,
    pub primary: bool,
    pub sync_clipboards: bool,
}

/// The capabilities of each backend: the GNOME bridge sees text and images of
/// the clipboard only, X11 and data-control see both selections and can keep
/// them in sync, and no backend sees nothing.
pub open spec fn capabilities_of(kind: BackendKind) -> BackendCapabilities {
    match kind {
        BackendKind::GnomeBridge => BackendCapabilities {
            text: true,
            image: true,
            primary: false,
            sync_clipboards: false,
        },
        BackendKind::WaylandDataControl | BackendKind::X11 => BackendCapabilities {
            text: true,
            image: true,
            primary: true,
            sync_clipboards: true,
        },
        BackendKind::NoBackend => BackendCapabilities {
            text: false,
            image: false,
            primary: false,
            sync_clipboards: false,
        },
    }
}

/// Capabilities expected from a backend in normal operation.
pub fn backend_capabilities(kind: BackendKind) -> (r: BackendCapabilities)
    ensures
        r == capabilities_of(kind),
{
    match kind {
        BackendKind::GnomeBridge => BackendCapabilities {
            text: true,
            image: true,
            primary: false,
            sync_clipboards: false,
        },
        BackendKind::WaylandDataControl | BackendKind::X11 => BackendCapabilities {
            text: true,
            image: true,
            primary: true,
            sync_clipboards: true,
        },
        BackendKind::NoBackend => BackendCapabilities {
            text: false,
            image: false,
            primary: false,
            sync_clipboards: false,
        },
    }
}

/// The backend named by a forced choice (`KLIPPO_BACKEND`), after trimming.
pub open spec fn forced_backend(forced: Seq<char>) -> BackendKind {
    let f = trim_ws(forced);
    if f == "x11"@ {
        BackendKind::X11
    } else if f == "wayland-dc"@ {
        BackendKind::WaylandDataControl
    } else if f == "gnome"@ {
        BackendKind::GnomeBridge
    } else {
        BackendKind::NoBackend
    }
}

/// The backend for a session: a forced choice wins; a Wayland session uses the
/// GNOME bridge when the desktop name contains "gnome" (in any case) and
/// data-control otherwise; an X11 session or a set `DISPLAY` uses X11.
pub open spec fn backend_for(
    forced: Option<Seq<char>>,
    session: Seq<char>,
    desktop: Seq<char>,
    display_set: bool,
) -> BackendKind {
    match forced {
        Some(f) => forced_backend(f),
        None => if session == "wayland"@ {
            if has_substring(lowercase(desktop), "gnome"@) {
                BackendKind::GnomeBridge
            } else {
                BackendKind::WaylandDataControl
            }
        } else if session == "x11"@ || display_set {
            BackendKind::X11
        } else {
            BackendKind::NoBackend
        },
    }
}

/// Decide the backend from the session's environment: `forced` is the value of
/// `KLIPPO_BACKEND` (`x11|wayland-dc|gnome|none`) when set, `session` that of
/// `XDG_SESSION_TYPE`, `desktop` that of `XDG_CURRENT_DESKTOP` (empty when
/// unset) and `display_set` whether `DISPLAY` is set.
pub fn backend_from_env(forced: Option<&str>, session: &str, desktop: &str, display_set: bool) -> (r:
    BackendKind)
    ensures
        r == backend_for(
            match forced {
                Some(f) => Some(f@),
                None => None,
            },
            session@,
            desktop@,
            display_set,
        ),
{
    if let Some(f) = forced {
        let t = trim_str(f);
        return if str_eq(t, "x11") {
            BackendKind::X11
        } else if str_eq(t, "wayland-dc") {
            BackendKind::WaylandDataControl
        } else if str_eq(t, "gnome") {
            BackendKind::GnomeBridge
        } else {
            BackendKind::NoBackend
        };
    }
    let desktop_lower = to_lowercase(desktop);
    if str_eq(session, "wayland") {
        if str_contains(desktop_lower.as_str(), "gnome") {
            BackendKind::GnomeBridge
        } else {
            BackendKind::WaylandDataControl
        }
    } else if str_eq(session, "x11") || display_set {
        BackendKind::X11
    } else {
        BackendKind::NoBackend
    }
}

/// The wire name of a source.
pub open spec fn source_name(source: Source) -> Seq<char> {
    match source {
        Source::Primary => "primary"@,
        Source::Clipboard => "clipboard"@,
    }
}

/// Parse the D-Bus `source` string used on the wire: `primary` is the
/// PRIMARY selection, anything else the clipboard.
pub fn parse_source(s: &str) -> (r: Source)
    ensures
        r == (if s@ == "primary"@ {
            Source::Primary
        } else {
            Source::Clipboard
        }),
{
    if str_eq(s, "primary") {
        Source::Primary
    } else {
        Source::Clipboard
    }
}

/// The wire string for a source.
pub fn source_str(source: Source) -> (r: &'static str)
    ensures
        r@ == source_name(source),
{
    match source {
        Source::Primary => "primary",
        Source::Clipboard => "clipboard",
    }
}

/// Law (session type first): without a forced choice a Wayland session always
/// gets a Wayland backend, the GNOME bridge exactly when the desktop name
/// holds "gnome" in any case, whether or not `DISPLAY` is set (Xwayland sets
/// it); an X11 session gets X11.
pub proof fn law_backend_by_session(desktop: Seq<char>, display_set: bool)
    ensures
        backend_for(None, "wayland"@, desktop, display_set) == BackendKind::GnomeBridge
            || backend_for(None, "wayland"@, desktop, display_set)
            == BackendKind::WaylandDataControl,
        (backend_for(None, "wayland"@, desktop, display_set) == BackendKind::GnomeBridge)
            == has_substring(lowercase(desktop), "gnome"@),
        backend_for(None, "x11"@, desktop, display_set) == BackendKind::X11,
{
    reveal_strlit("x11");
    reveal_strlit("wayland");
    assert("x11"@ != "wayland"@) by {
        assert("x11"@[0] != "wayland"@[0]);
    }
}

/// Law (forced choice wins): a forced backend is used whatever the session.
pub proof fn law_forced_backend_wins(
    forced: Seq<char>,
    session: Seq<char>,
    desktop: Seq<char>,
    display_set: bool,
)
    ensures
        trim_ws(forced) == "x11"@ ==> backend_for(Some(forced), session, desktop, display_set)
            == BackendKind::X11,
        trim_ws(forced) == "wayland-dc"@ ==> backend_for(Some(forced), session, desktop, display_set)
            == BackendKind::WaylandDataControl,
        trim_ws(forced) == "gnome"@ ==> backend_for(Some(forced), session, desktop, display_set)
            == BackendKind::GnomeBridge,
{
    reveal_strlit("x11");
    reveal_strlit("wayland-dc");
    reveal_strlit("gnome");
    assert("x11"@ != "wayland-dc"@) by {
        assert("x11"@[0] != "wayland-dc"@[0]);
    }
    assert("x11"@ != "gnome"@) by {
        assert("x11"@[0] != "gnome"@[0]);
    }
    assert("wayland-dc"@ != "gnome"@) by {
        assert("wayland-dc"@[0] != "gnome"@[0]);
    }
}

/// Law: parsing the wire string of a source gives the source back.
pub proof fn law_source_roundtrip(source: Source)
    ensures
        (if source_name(source) == "primary"@ {
            Source::Primary
        } else {
            Source::Clipboard
        }) == source,
{
    reveal_strlit("primary");
    reveal_strlit("clipboard");
    if source == Source::Clipboard {
        assert("clipboard"@[0] != "primary"@[0]);
    }
}

/// A source that never emits (GNOME bridge / no-backend placeholder).
pub struct NullSource;

impl NullSource {
    /// Human-readable backend name for logging.
    pub fn name(&self) -> (r: &'static str)
        ensures
            r@ == "null"@,
    {
        "null"
    }
}

/// X11 clipboard monitor: polls CLIPBOARD and PRIMARY.
pub struct X11Source;

impl X11Source {
    pub fn new() -> (r: Self) {
        X11Source
    }

    /// Human-readable backend name for logging.
    pub fn name(&self) -> (r: &'static str)
        ensures
            r@ == "x11-poll"@,
    {
        "x11-poll"
    }
}

/// Wayland data-control monitor for KDE 6.4+/wlroots: runs `wl-paste --watch`
/// for text and PNG images, which feeds each change back to the daemon.
pub struct WaylandDataControlSource;

impl WaylandDataControlSource {
    pub fn new() -> (r: Self) {
        WaylandDataControlSource
    }

    /// Human-readable backend name for logging.
    pub fn name(&self) -> (r: &'static str)
        ensures
            r@ == "wayland-data-control (wl-paste)"@,
    {
        "wayland-data-control (wl-paste)"
    }

    /// The `(mime type, klippo subcommand)` pairs that get a `wl-paste --watch`.
    pub fn watches() -> (r: Vec<(&'static str, &'static str)>)
        ensures
            r@.len() == 2,
            r@[0].0@ == "text/plain"@ && r@[0].1@ == "__feed"@,
            r@[1].0@ == "image/png"@ && r@[1].1@ == "__feed-image"@,
    {
        vec![("text/plain", "__feed"), ("image/png", "__feed-image")]
    }
}

// ------------------------------------------------------------------------
// Clipboard images
// ------------------------------------------------------------------------

/// The `image` crate's error type.
#[verifier::external_type_specification]
#[verifier::external_body]
pub struct ExImageError(image::ImageError);

/// The PNG file that the `image` crate's encoder writes for a `width` x
/// `height` image of 8-bit RGBA `pixels`, or `None` when the encoder fails.
pub uninterp spec fn rgba_png(width: u32, height: u32, pixels: Seq<u8>) -> Option<Seq<u8>>;

/// Calls `ImageBuffer::from_raw` for 8-bit RGBA pixels and, when it accepts the
/// buffer, `DynamicImage::write_to` with the PNG format on an in-memory buffer.
/// `from_raw` accepts the buffer exactly when it holds at least
/// `4 * width * height` bytes, and the PNG encoder asserts (panics) unless the
/// buffer holds exactly that many, so longer buffers are left out; the encoded
/// bytes (or the failure) are named by `rgba_png`. (The pixel buffer type
/// cannot be declared to the verifier because of its `Pixel` bound, so both
/// calls stand in this one item.)
#[verifier::external_body]
fn rgba_to_png(width: u32, height: u32, buf: Vec<u8>) -> (r: Option<Result<Vec<u8>, image::ImageError>>)
    requires
        buf@.len() <= 4 * width * height,
    ensures
        r is Some <==> 4 * width * height <= buf@.len(),
        r matches Some(Ok(b)) ==> rgba_png(width, height, buf@) == Some(b@),
        r matches Some(Err(_)) ==> rgba_png(width, height, buf@) is None,
{
    match image::RgbaImage::from_raw(width, height, buf) {
        None => None,
        Some(img) => {
            let mut bytes = Vec::new();
            Some(image::DynamicImage::ImageRgba8(img)
                .write_to(&mut std::io::Cursor::new(&mut bytes), image::ImageFormat::Png)
                .map(|_| bytes))
        },
    }
}

/// Encode raw RGBA clipboard pixels as PNG. The dimensions are taken as `u32`
/// (truncated); pixels that do not fill them are an invalid image, and an
/// encoder failure is an image error. More pixels than the dimensions hold
/// make the encoder panic, so that input is left out.
pub fn image_data_to_png(width: usize, height: usize, bytes: Vec<u8>) -> (r: Result<Vec<u8>, KlippoError>)
    requires
        bytes@.len() <= 4 * (width as u32) * (height as u32),
    ensures
        !(4 * (width as u32) * (height as u32) <= bytes@.len()) ==> r matches Err(KlippoError::InvalidImage),
        4 * (width as u32) * (height as u32) <= bytes@.len() ==> match rgba_png(width as u32, height as u32, bytes@) {
            Some(png) => r matches Ok(p) && p@ == png,
            None => r matches Err(e) && e is Image,
        },
{
    #[verifier::truncate]
    let w = width as u32;
    #[verifier::truncate]
    let h = height as u32;
    match rgba_to_png(w, h, bytes) {
        None => Err(KlippoError::InvalidImage),
        Some(Ok(png)) => Ok(png),
        Some(Err(e)) => Err(KlippoError::Image(e)),
    }
}

// ------------------------------------------------------------------------
// Change detection for polled selections
// ------------------------------------------------------------------------

/// What was last seen on one polled selection.
pub struct SelectionState {
    /// The last text forwarded (empty when the last thing was not text).
    pub last_text: String,
    /// The hash of the last image forwarded (empty when it was not an image).
    pub last_image: String,
    /// Whether the last thing forwarded was the selection going empty.
    pub was_empty: bool,
}

/// The content of a [`SelectionState`].
pub struct SelectionView {
    pub last_text: Seq<char>,
    pub last_image: Seq<char>,
    pub was_empty: bool,
}

impl View for SelectionState {
    type V = SelectionView;

    open spec fn view(&self) -> SelectionView {
        SelectionView {
            last_text: self.last_text@,
            last_image: self.last_image@,
            was_empty: self.was_empty,
        }
    }
}

/// A non-empty text that differs from the last one forwarded is a change.
pub open spec fn text_is_change(s: SelectionView, text: Seq<char>) -> bool {
    text.len() > 0 && text != s.last_text
}

/// An image whose hash differs from the last one forwarded is a change.
pub open spec fn image_is_change(s: SelectionView, hash: Seq<char>) -> bool {
    hash != s.last_image
}

impl SelectionState {
    /// Nothing seen yet.
    pub fn new() -> (r: SelectionState)
        ensures
            r@ == (SelectionView { last_text: seq![], last_image: seq![], was_empty: false }),
    {
        SelectionState { last_text: String::new(), last_image: String::new(), was_empty: false }
    }

    /// The selection holds `text`. Returns whether it must be forwarded as a
    /// text event; if so it becomes the last thing seen.
    pub fn observe_text(&mut self, text: &str) -> (forward: bool)
        ensures
            forward == text_is_change(old(self)@, text@),
            final(self)@ == if forward {
                SelectionView { last_text: text@, last_image: seq![], was_empty: false }
            } else {
                old(self)@
            },
    {
        if !text.is_empty() && !str_eq(text, self.last_text.as_str()) {
            self.last_text = text.to_owned();
            self.last_image = String::new();
            self.was_empty = false;
            true
        } else {
            false
        }
    }

    /// The selection holds an image whose PNG hashes to `hash`. Returns whether
    /// it must be forwarded as an image event; if so it becomes the last thing
    /// seen.
    pub fn observe_image(&mut self, hash: &str) -> (forward: bool)
        ensures
            forward == image_is_change(old(self)@, hash@),
            final(self)@ == if forward {
                SelectionView { last_text: seq![], last_image: hash@, was_empty: false }
            } else {
                old(self)@
            },
    {
        if !str_eq(hash, self.last_image.as_str()) {
            self.last_text = String::new();
            self.last_image = hash.to_owned();
            self.was_empty = false;
            true
        } else {
            false
        }
    }

    /// The selection holds neither text nor an image. Returns whether a
    /// "cleared" event must be forwarded (only the first time in a row).
    pub fn observe_empty(&mut self) -> (forward: bool)
        ensures
            forward == !old(self)@.was_empty,
            final(self)@ == if forward {
                SelectionView { last_text: seq![], last_image: seq![], was_empty: true }
            } else {
                old(self)@
            },
    {
        if !self.was_empty {
            self.last_text = String::new();
            self.last_image = String::new();
            self.was_empty = true;
            true
        } else {
            false
        }
    }
}

/// Law: the same text or image seen twice in a row is forwarded at most once,
/// and so is an empty selection.
pub proof fn law_no_repeated_events(s: SelectionView, text: Seq<char>, hash: Seq<char>)
    ensures
        text_is_change(s, text) ==> !text_is_change(
            SelectionView { last_text: text, last_image: seq![], was_empty: false },
            text,
        ),
        !image_is_change(SelectionView { last_text: seq![], last_image: hash, was_empty: false }, hash),
{
}

} // verus!
